//! The structural event vocabulary the renderer consumes.
//!
//! A markdown document arrives as a flat, well-formed stream of these events:
//! start/end markers for block and inline constructs, text runs, inline code,
//! breaks, task markers and rules. Events the renderer ignores (raw HTML,
//! math, footnotes) arrive as [`MdEvent::Other`].

use vstd::prelude::*;

verus! {

/// One structural or inline event of a markdown document.
#[derive(Clone, Debug)]
pub enum MdEvent {
    StartParagraph,
    /// Heading start with its level, 1 through 6.
    StartHeading(u8),
    StartStrong,
    StartEmphasis,
    StartStrikethrough,
    /// Code block start with its language tag; empty for indented blocks.
    StartCodeBlock(String),
    StartBlockQuote,
    /// List start; `Some(n)` for an ordered list whose first item is `n`.
    StartList(Option<u64>),
    StartItem,
    /// Link start with its destination.
    StartLink(String),
    /// Image start with its destination.
    StartImage(String),
    StartTable,
    StartTableHead,
    StartTableRow,
    StartTableCell,
    EndParagraph,
    EndHeading,
    EndStrong,
    EndEmphasis,
    EndStrikethrough,
    EndCodeBlock,
    EndBlockQuote,
    EndList,
    EndItem,
    EndLink,
    EndImage,
    EndTable,
    EndTableHead,
    EndTableRow,
    EndTableCell,
    /// A run of text.
    Text(String),
    /// An inline code span.
    Code(String),
    SoftBreak,
    HardBreak,
    /// A task list checkbox; true when checked.
    TaskMarker(bool),
    /// A horizontal rule.
    Rule,
    /// An event this renderer ignores.
    Other,
}

/// Mathematical image of an [`MdEvent`], with text payloads as character
/// sequences.
pub ghost enum EventV {
    StartParagraph,
    StartHeading(int),
    StartStrong,
    StartEmphasis,
    StartStrikethrough,
    StartCodeBlock(Seq<char>),
    StartBlockQuote,
    StartList(Option<u64>),
    StartItem,
    StartLink(Seq<char>),
    StartImage(Seq<char>),
    StartTable,
    StartTableHead,
    StartTableRow,
    StartTableCell,
    EndParagraph,
    EndHeading,
    EndStrong,
    EndEmphasis,
    EndStrikethrough,
    EndCodeBlock,
    EndBlockQuote,
    EndList,
    EndItem,
    EndLink,
    EndImage,
    EndTable,
    EndTableHead,
    EndTableRow,
    EndTableCell,
    Text(Seq<char>),
    Code(Seq<char>),
    SoftBreak,
    HardBreak,
    TaskMarker(bool),
    Rule,
    Other,
}

impl View for MdEvent {
    type V = EventV;

    open spec fn view(&self) -> EventV {
        match self {
            MdEvent::StartParagraph => EventV::StartParagraph,
            MdEvent::StartHeading(l) => EventV::StartHeading(*l as int),
            MdEvent::StartStrong => EventV::StartStrong,
            MdEvent::StartEmphasis => EventV::StartEmphasis,
            MdEvent::StartStrikethrough => EventV::StartStrikethrough,
            MdEvent::StartCodeBlock(lang) => EventV::StartCodeBlock(lang@),
            MdEvent::StartBlockQuote => EventV::StartBlockQuote,
            MdEvent::StartList(first) => EventV::StartList(*first),
            MdEvent::StartItem => EventV::StartItem,
            MdEvent::StartLink(url) => EventV::StartLink(url@),
            MdEvent::StartImage(url) => EventV::StartImage(url@),
            MdEvent::StartTable => EventV::StartTable,
            MdEvent::StartTableHead => EventV::StartTableHead,
            MdEvent::StartTableRow => EventV::StartTableRow,
            MdEvent::StartTableCell => EventV::StartTableCell,
            MdEvent::EndParagraph => EventV::EndParagraph,
            MdEvent::EndHeading => EventV::EndHeading,
            MdEvent::EndStrong => EventV::EndStrong,
            MdEvent::EndEmphasis => EventV::EndEmphasis,
            MdEvent::EndStrikethrough => EventV::EndStrikethrough,
            MdEvent::EndCodeBlock => EventV::EndCodeBlock,
            MdEvent::EndBlockQuote => EventV::EndBlockQuote,
            MdEvent::EndList => EventV::EndList,
            MdEvent::EndItem => EventV::EndItem,
            MdEvent::EndLink => EventV::EndLink,
            MdEvent::EndImage => EventV::EndImage,
            MdEvent::EndTable => EventV::EndTable,
            MdEvent::EndTableHead => EventV::EndTableHead,
            MdEvent::EndTableRow => EventV::EndTableRow,
            MdEvent::EndTableCell => EventV::EndTableCell,
            MdEvent::Text(t) => EventV::Text(t@),
            MdEvent::Code(c) => EventV::Code(c@),
            MdEvent::SoftBreak => EventV::SoftBreak,
            MdEvent::HardBreak => EventV::HardBreak,
            MdEvent::TaskMarker(b) => EventV::TaskMarker(*b),
            MdEvent::Rule => EventV::Rule,
            MdEvent::Other => EventV::Other,
        }
    }
}

/// The views of a sequence of events.
pub open spec fn events_view(evs: Seq<MdEvent>) -> Seq<EventV> {
    evs.map(|i: int, e: MdEvent| e@)
}

} // verus!
