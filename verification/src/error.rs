//! What can go wrong with a call, by kind.

use vstd::prelude::*;
use vstd::string::*;

verus! {

/// The members that the envelopes of a call are made of.
#[derive(Debug, Clone, Copy, PartialEq, Eq, Structural)]
pub enum Slot {
    /// `jsonrpc`, the protocol version.
    Version,
    /// `id`, the number of the request.
    Id,
    /// `method`, the name of the method that is called.
    Method,
    /// `result`, what the method returned.
    Outcome,
}

impl Slot {
    /// The member's name on the wire.
    pub open spec fn spec_name(self) -> Seq<char> {
        match self {
            Slot::Version => "jsonrpc"@,
            Slot::Id => "id"@,
            Slot::Method => "method"@,
            Slot::Outcome => "result"@,
        }
    }

    /// The member's name on the wire.
    pub fn name(self) -> (name: &'static str)
        ensures
            name@ == self.spec_name(),
    {
        match self {
            Slot::Version => "jsonrpc",
            Slot::Id => "id",
            Slot::Method => "method",
            Slot::Outcome => "result",
        }
    }
}

/// Why a text was not read as the envelope that was expected.
#[derive(Debug, Clone, PartialEq, Eq)]
pub enum DecodeFault {
    /// The text is no JSON object; the description is the JSON reader's.
    Syntax(String),
    /// The object lacks a member.
    Missing(Slot),
    /// A member holds a value of another type than the envelope asks for.
    Mistyped(Slot),
}

/// A [`DecodeFault`] as contracts see it.
pub enum DecodeFaultView {
    Syntax(Seq<char>),
    Missing(Slot),
    Mistyped(Slot),
}

impl View for DecodeFault {
    type V = DecodeFaultView;

    open spec fn view(&self) -> DecodeFaultView {
        match self {
            DecodeFault::Syntax(description) => DecodeFaultView::Syntax(description@),
            DecodeFault::Missing(slot) => DecodeFaultView::Missing(*slot),
            DecodeFault::Mistyped(slot) => DecodeFaultView::Mistyped(*slot),
        }
    }
}

/// Why a call failed.
#[derive(Debug, Clone, PartialEq, Eq)]
pub enum CallError {
    /// The request could not be written; the description is the JSON writer's.
    Encode(String),
    /// The request was not sent, or no reply was read; the description is the
    /// transport's.
    Transport(String),
    /// A reply came, and it is not the envelope that was expected.
    Decode(DecodeFault),
}

/// A [`CallError`] as contracts see it.
pub enum CallErrorView {
    Encode(Seq<char>),
    Transport(Seq<char>),
    Decode(DecodeFaultView),
}

impl View for CallError {
    type V = CallErrorView;

    open spec fn view(&self) -> CallErrorView {
        match self {
            CallError::Encode(description) => CallErrorView::Encode(description@),
            CallError::Transport(description) => CallErrorView::Transport(description@),
            CallError::Decode(fault) => CallErrorView::Decode(fault@),
        }
    }
}

impl DecodeFaultView {
    /// The fault in words.
    pub open spec fn message(self) -> Seq<char> {
        match self {
            DecodeFaultView::Syntax(description) => description,
            DecodeFaultView::Missing(slot) => "missing field `"@ + slot.spec_name() + "`"@,
            DecodeFaultView::Mistyped(slot) => "invalid type for field `"@ + slot.spec_name()
                + "`"@,
        }
    }
}

impl CallErrorView {
    /// The error in words: the description that it carries, or the words of
    /// the fault.
    pub open spec fn message(self) -> Seq<char> {
        match self {
            CallErrorView::Encode(description) => description,
            CallErrorView::Transport(description) => description,
            CallErrorView::Decode(fault) => fault.message(),
        }
    }
}

impl DecodeFault {
    /// The fault in words.
    pub fn message(&self) -> (text: String)
        ensures
            text@ == self@.message(),
    {
        match self {
            DecodeFault::Syntax(description) => description.clone(),
            DecodeFault::Missing(slot) => {
                let mut text = String::from_str("missing field `");
                text.append(slot.name());
                text.append("`");
                text
            },
            DecodeFault::Mistyped(slot) => {
                let mut text = String::from_str("invalid type for field `");
                text.append(slot.name());
                text.append("`");
                text
            },
        }
    }
}

impl CallError {
    /// The error in words, whatever its kind: the one description that a
    /// caller who does not tell the kinds apart prints.
    pub fn message(&self) -> (text: String)
        ensures
            text@ == self@.message(),
    {
        match self {
            CallError::Encode(description) => description.clone(),
            CallError::Transport(description) => description.clone(),
            CallError::Decode(fault) => fault.message(),
        }
    }
}

} // verus!
