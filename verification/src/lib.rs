//! Conversion of rustdoc HTML pages into Markdown summaries.

pub mod error;

pub mod text;
pub mod markdown;
pub mod index;
pub mod item;
pub mod docs;
pub mod output;
pub mod fetch;
pub mod summary;
