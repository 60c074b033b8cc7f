//! The markdown-parsing boundary.
//!
//! Parsing raw text into the structural event stream is the collaborator's
//! work; this module only names its result and moves each parser event
//! one-for-one onto the renderer's own event vocabulary.

use vstd::prelude::*;

use crate::event::{events_view, EventV, MdEvent};

verus! {

#[verifier::external_type_specification]
#[verifier::external_body]
pub struct ExEvent<'a>(pulldown_cmark::Event<'a>);

#[verifier::external_type_specification]
#[verifier::external_body]
pub struct ExTag<'a>(pulldown_cmark::Tag<'a>);

#[verifier::external_type_specification]
#[verifier::external_body]
pub struct ExTagEnd(pulldown_cmark::TagEnd);

#[verifier::external_type_specification]
#[verifier::external_body]
pub struct ExCodeBlockKind<'a>(pulldown_cmark::CodeBlockKind<'a>);

/// The structural events of a markdown document: what the parsing
/// collaborator produces for it, with strikethrough, task lists, tables
/// and smart punctuation enabled.
pub uninterp spec fn events_of(input: Seq<char>) -> Seq<EventV>;

/// Relies on pulldown-cmark's `Parser::new_ext`: parsing is a pure
/// function of the input text alone; strikethrough, task lists, tables and
/// smart punctuation are enabled, and each parser event is moved
/// one-for-one onto the renderer's event vocabulary.
#[verifier::external_body]
pub fn parse_markdown(input: &str) -> (r: Vec<MdEvent>)
    ensures
        events_view(r@) == events_of(input@),
{
    let mut options = pulldown_cmark::Options::empty();
    options.insert(pulldown_cmark::Options::ENABLE_STRIKETHROUGH);
    options.insert(pulldown_cmark::Options::ENABLE_TASKLISTS);
    options.insert(pulldown_cmark::Options::ENABLE_TABLES);
    options.insert(pulldown_cmark::Options::ENABLE_SMART_PUNCTUATION);
    pulldown_cmark::Parser::new_ext(input, options).map(event_from_cmark).collect()
}

/// Relies on the shape of pulldown-cmark's `Event`: tells its variants
/// apart and moves each payload across.
#[verifier::external_body]
fn event_from_cmark(e: pulldown_cmark::Event<'_>) -> MdEvent {
    match e {
        pulldown_cmark::Event::Start(tag) => start_from_cmark(tag),
        pulldown_cmark::Event::End(te) => end_from_cmark(te),
        pulldown_cmark::Event::Text(t) => MdEvent::Text(t.to_string()),
        pulldown_cmark::Event::Code(c) => MdEvent::Code(c.to_string()),
        pulldown_cmark::Event::SoftBreak => MdEvent::SoftBreak,
        pulldown_cmark::Event::HardBreak => MdEvent::HardBreak,
        pulldown_cmark::Event::TaskListMarker(b) => MdEvent::TaskMarker(b),
        pulldown_cmark::Event::Rule => MdEvent::Rule,
        _ => MdEvent::Other,
    }
}

/// Relies on the shape of pulldown-cmark's `Tag`: tells its block-level
/// variants apart and moves each payload across.
#[verifier::external_body]
fn start_from_cmark(tag: pulldown_cmark::Tag<'_>) -> MdEvent {
    match tag {
        pulldown_cmark::Tag::Paragraph => MdEvent::StartParagraph,
        pulldown_cmark::Tag::Heading { level, .. } => MdEvent::StartHeading(level as u8),
        pulldown_cmark::Tag::CodeBlock(kind) => MdEvent::StartCodeBlock(code_lang_from(kind)),
        pulldown_cmark::Tag::BlockQuote(_) => MdEvent::StartBlockQuote,
        pulldown_cmark::Tag::List(first) => MdEvent::StartList(first),
        pulldown_cmark::Tag::Item => MdEvent::StartItem,
        pulldown_cmark::Tag::Table(_) => MdEvent::StartTable,
        pulldown_cmark::Tag::TableHead => MdEvent::StartTableHead,
        pulldown_cmark::Tag::TableRow => MdEvent::StartTableRow,
        pulldown_cmark::Tag::TableCell => MdEvent::StartTableCell,
        other => start_inline_from_cmark(other),
    }
}


/// Relies on the shape of pulldown-cmark's `CodeBlockKind`: a fenced
/// block's language tag, empty for an indented block.
#[verifier::external_body]
fn code_lang_from(kind: pulldown_cmark::CodeBlockKind<'_>) -> String {
    match kind {
        pulldown_cmark::CodeBlockKind::Fenced(l) => l.to_string(),
        pulldown_cmark::CodeBlockKind::Indented => String::new(),
    }
}

/// Relies on the shape of pulldown-cmark's `Tag`: tells its inline
/// variants apart and moves each payload across.
#[verifier::external_body]
fn start_inline_from_cmark(tag: pulldown_cmark::Tag<'_>) -> MdEvent {
    match tag {
        pulldown_cmark::Tag::Strong => MdEvent::StartStrong,
        pulldown_cmark::Tag::Emphasis => MdEvent::StartEmphasis,
        pulldown_cmark::Tag::Strikethrough => MdEvent::StartStrikethrough,
        pulldown_cmark::Tag::Link { dest_url, .. } => MdEvent::StartLink(dest_url.to_string()),
        pulldown_cmark::Tag::Image { dest_url, .. } => MdEvent::StartImage(dest_url.to_string()),
        _ => MdEvent::Other,
    }
}

/// Relies on the shape of pulldown-cmark's `TagEnd`: tells its block-level
/// variants apart.
#[verifier::external_body]
fn end_from_cmark(te: pulldown_cmark::TagEnd) -> MdEvent {
    match te {
        pulldown_cmark::TagEnd::Paragraph => MdEvent::EndParagraph,
        pulldown_cmark::TagEnd::Heading(_) => MdEvent::EndHeading,
        pulldown_cmark::TagEnd::CodeBlock => MdEvent::EndCodeBlock,
        pulldown_cmark::TagEnd::BlockQuote(_) => MdEvent::EndBlockQuote,
        pulldown_cmark::TagEnd::List(_) => MdEvent::EndList,
        pulldown_cmark::TagEnd::Item => MdEvent::EndItem,
        pulldown_cmark::TagEnd::Table => MdEvent::EndTable,
        pulldown_cmark::TagEnd::TableHead => MdEvent::EndTableHead,
        pulldown_cmark::TagEnd::TableRow => MdEvent::EndTableRow,
        pulldown_cmark::TagEnd::TableCell => MdEvent::EndTableCell,
        other => end_inline_from_cmark(other),
    }
}

/// Relies on the shape of pulldown-cmark's `TagEnd`: tells its inline
/// variants apart.
#[verifier::external_body]
fn end_inline_from_cmark(te: pulldown_cmark::TagEnd) -> MdEvent {
    match te {
        pulldown_cmark::TagEnd::Strong => MdEvent::EndStrong,
        pulldown_cmark::TagEnd::Emphasis => MdEvent::EndEmphasis,
        pulldown_cmark::TagEnd::Strikethrough => MdEvent::EndStrikethrough,
        pulldown_cmark::TagEnd::Link => MdEvent::EndLink,
        pulldown_cmark::TagEnd::Image => MdEvent::EndImage,
        _ => MdEvent::Other,
    }
}

} // verus!
