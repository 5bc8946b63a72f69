//! What the decoder and the XML reader say to each other.
//!
//! The decoder never touches the reader. It issues a [`Request`], the caller
//! performs it on the reader and hands back a [`Reply`].

use crate::severity::Severity;
use vstd::prelude::*;

verus! {

/// Nesting depth at which an advisory element opens.
pub const ADVISORY_DEPTH: usize = 2;

/// Least nesting depth inside a `references` or `pkglist` subtree.
pub const SUBTREE_DEPTH: usize = 3;

/// How far below an advisory its child elements are looked for.
pub const CHILD_DEPTH: usize = 1;

/// One attribute of a start element: its local name and its value.
#[derive(Debug, Clone, PartialEq, Eq)]
pub struct Attribute {
    pub name: String,
    pub value: String,
}

/// An [`Attribute`] as sequences of characters.
pub struct AttributeView {
    pub name: Seq<char>,
    pub value: Seq<char>,
}

impl View for Attribute {
    type V = AttributeView;

    open spec fn view(&self) -> AttributeView {
        AttributeView { name: self.name@, value: self.value@ }
    }
}

/// The attributes of a start element, in document order.
pub open spec fn attributes_view(attributes: Seq<Attribute>) -> Seq<AttributeView> {
    attributes.map_values(|a: Attribute| a@)
}

/// What the decoder reads of one event of the reader.
#[derive(Debug, Clone, PartialEq, Eq)]
pub enum Event {
    /// An element opens; `name` is its local name.
    StartElement { name: String, attributes: Vec<Attribute> },
    /// The document has ended.
    EndDocument,
    /// The reader could not read the next event.
    Failure,
    /// Any other event: an element closes, character data, a comment.
    Other,
}

/// An [`Event`] as sequences.
pub enum EventView {
    StartElement { name: Seq<char>, attributes: Seq<AttributeView> },
    EndDocument,
    Failure,
    Other,
}

impl View for Event {
    type V = EventView;

    open spec fn view(&self) -> EventView {
        match *self {
            Event::StartElement { name, attributes } => EventView::StartElement {
                name: name@,
                attributes: attributes_view(attributes@),
            },
            Event::EndDocument => EventView::EndDocument,
            Event::Failure => EventView::Failure,
            Event::Other => EventView::Other,
        }
    }
}

impl Event {
    /// Tells whether the event is the end of the document.
    pub fn is_end_document(&self) -> (at_end: bool)
        ensures
            at_end == (self@ is EndDocument),
    {
        match self {
            Event::EndDocument => true,
            _ => false,
        }
    }
}

/// Why a load came to nothing.
#[derive(Debug, Clone, Copy, PartialEq, Eq, Hash, Structural)]
pub enum LoadError {
    /// The text of a `severity` element names no severity.
    UnknownSeverity,
    /// A reply did not answer the request that was pending.
    UnexpectedReply,
    /// The replies ran out before the end of the document was seen.
    Truncated,
}

/// The operation the decoder needs next.
#[derive(Debug, Clone, Copy, PartialEq, Eq, Hash, Structural)]
pub enum Request {
    /// Advance the reader by one event; answered by [`Reply::Event`].
    Next,
    /// Report the reader's nesting depth; answered by [`Reply::Depth`].
    Depth,
    /// Advance to the next start element no more than `under_depth` levels
    /// below the advisory being read and report its local name, or `None`
    /// once the advisory has closed or the stream has ended; answered by
    /// [`Reply::StartName`].
    StartName { under_depth: usize },
    /// Read the character data of the element just opened, empty if it has
    /// none; answered by [`Reply::Characters`].
    Characters,
    /// Read the character data of the element just opened and parse it as a
    /// severity; answered by [`Reply::Severity`].
    Severity,
    /// Nothing: the document has been read to its end.
    Done,
    /// Nothing: the load has failed.
    Failed(LoadError),
}

/// The reader's answer to a [`Request`].
#[derive(Debug, Clone, PartialEq, Eq)]
pub enum Reply {
    /// The event the reader advanced over.
    Event(Event),
    /// The nesting depth, counted from the document root.
    Depth(usize),
    /// The local name of the next child element, if there is one.
    StartName(Option<String>),
    /// Character data.
    Characters(String),
    /// The severity that the character data names, `None` if it names none.
    Severity(Option<Severity>),
}

/// A [`Reply`] as sequences and numbers.
pub enum ReplyView {
    Event(EventView),
    Depth(nat),
    StartName(Option<Seq<char>>),
    Characters(Seq<char>),
    Severity(Option<Severity>),
}

impl View for Reply {
    type V = ReplyView;

    open spec fn view(&self) -> ReplyView {
        match *self {
            Reply::Event(event) => ReplyView::Event(event@),
            Reply::Depth(depth) => ReplyView::Depth(depth as nat),
            Reply::StartName(Some(name)) => ReplyView::StartName(Some(name@)),
            Reply::StartName(None) => ReplyView::StartName(None),
            Reply::Characters(text) => ReplyView::Characters(text@),
            Reply::Severity(level) => ReplyView::Severity(level),
        }
    }
}

/// The replies of a whole session, in the order they were given.
pub open spec fn replies_view(replies: Seq<Reply>) -> Seq<ReplyView> {
    replies.map_values(|r: Reply| r@)
}

} // verus!
