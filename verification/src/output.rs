//! The final Markdown document for a crate.

use vstd::prelude::*;

use crate::docs::{docs_body, format_docs_body, header_text, CrateDocs};

verus! {

/// Represents the final output to be written to stdout.
pub struct CrateOutput {
    /// The crate name.
    pub name: String,
    /// The crate version.
    pub version: String,
    /// The generated summary (if enabled).
    pub summary: Option<String>,
    /// The documentation (overview, modules, types), headed at level 3.
    pub documentation: String,
}

/// The `## Summary` section for a summary, else nothing.
pub open spec fn summary_section(summary: Option<String>) -> Seq<char> {
    match summary {
        Some(s) => "## Summary\n\n"@ + s@ + "\n\n---\n\n"@,
        None => Seq::empty(),
    }
}

/// The full Markdown document: header, summary section, documentation.
pub open spec fn markdown_text(o: CrateOutput) -> Seq<char> {
    header_text(o.name@, o.version@) + summary_section(o.summary) + "## Documentation\n\n"@
        + o.documentation@
}

/// The compact document: header and summary alone when there is a summary,
/// the full document otherwise.
pub open spec fn compact_text(o: CrateOutput) -> Seq<char> {
    match o.summary {
        Some(s) => header_text(o.name@, o.version@) + s@,
        None => markdown_text(o),
    }
}

impl CrateOutput {
    /// Creates output with summarization.
    pub fn with_summary(docs: &CrateDocs, summary: String) -> (out: Self)
        ensures
            out.name@ == docs.index.name@,
            out.version@ == docs.index.version@,
            out.summary == Some(summary),
            out.documentation@ == docs_body(*docs),
    {
        CrateOutput {
            name: docs.index.name.clone(),
            version: docs.index.version.clone(),
            summary: Some(summary),
            documentation: format_docs_body(docs),
        }
    }

    /// Creates output without summarization.
    pub fn without_summary(docs: &CrateDocs) -> (out: Self)
        ensures
            out.name@ == docs.index.name@,
            out.version@ == docs.index.version@,
            out.summary is None,
            out.documentation@ == docs_body(*docs),
    {
        CrateOutput {
            name: docs.index.name.clone(),
            version: docs.index.version.clone(),
            summary: None,
            documentation: format_docs_body(docs),
        }
    }

    /// Formats the output as Markdown.
    pub fn to_markdown(&self) -> (md: String)
        ensures
            md@ == markdown_text(*self),
    {
        let mut output = String::new();
        output.append("# ");
        output.append(self.name.as_str());
        output.append(" v");
        output.append(self.version.as_str());
        output.append("\n\n");
        if let Some(summary) = &self.summary {
            output.append("## Summary\n\n");
            output.append(summary.as_str());
            output.append("\n\n---\n\n");
        }
        output.append("## Documentation\n\n");
        output.append(self.documentation.as_str());
        assert(output@ =~= markdown_text(*self));
        output
    }

    /// Formats the output as a compact version (summary only if available).
    pub fn to_compact_markdown(&self) -> (md: String)
        ensures
            md@ == compact_text(*self),
    {
        if let Some(summary) = &self.summary {
            let mut output = String::new();
            output.append("# ");
            output.append(self.name.as_str());
            output.append(" v");
            output.append(self.version.as_str());
            output.append("\n\n");
            output.append(summary.as_str());
            assert(output@ =~= compact_text(*self));
            output
        } else {
            self.to_markdown()
        }
    }
}

} // verus!
