//! Markdown rendering for character-grid terminal UIs.
//!
//! The crate turns a markdown document into an ordered sequence of styled,
//! fixed-width text lines: headings, emphasis, lists, tables, blockquotes
//! and code blocks, each mapped to spans of text with a color and modifier
//! set. The renderer walks the document's structural event stream with
//! explicit stacks for nested block context and inline style scopes; its
//! whole behaviour is specified by a transition function over a
//! mathematical state, and global properties — blank-line collapsing,
//! bullet-glyph cycling, ordered-list numbering, table geometry — are
//! proved over that specification.

pub mod event;
pub mod laws;
pub mod parse;
pub mod renderer;
pub mod style;
pub mod syntax;
pub mod table;
pub mod text;

pub use event::{EventV, MdEvent};
pub use renderer::{render, Renderer};
pub use style::{line_is_blank, Color, SpanView, Style, StyledLine, StyledSpan};
pub use syntax::{highlight_code, HlRegion};
