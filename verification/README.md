# rustxt

A library that turns the rustdoc HTML of a crate (as docs.rs publishes it)
into a compact Markdown overview. Every parsing and formatting step carries
a contract over character sequences, proved with Verus.

## Layout

- `src/text.rs`: search, replacement, trimming, UTF-8 widths, conversions
  between `str` and character vectors.
- `src/markdown.rs`: HTML to Markdown conversion; the whitespace of its
  output is proved clean.
- `src/index.rs`: the crate index page (description, docblock, item lists).
- `src/item.rs`: item pages (name, declaration, docblock, methods, fields,
  variants); cleaned signatures are proved normalized.
- `src/docs.rs`: the Markdown summary of a crate and the choice of key item
  pages to read.
- `src/output.rs`: the final document, with or without a summary; its
  documentation part sits one heading level below the document's header.
- `src/fetch.rs`: docs.rs download URLs and versions, documentation root
  candidates, and what to do with each entry of the downloaded archive.
- `src/summary.rs`: the summarization prompt, the text of a reply and the
  retry schedule.
- `src/error.rs`: the parser's error type.
- `app/`: the command-line program (HTTP, ZIP extraction, file access, the
  OpenAI client, argument parsing, output to stdout).
