//! What the library asks of the runtime and what the runtime answers. The
//! library cannot reach the runtime itself: it says which operation comes
//! next, and decides what follows from the answer.

use vstd::prelude::*;
use crate::ffi::jvalue;

verus! {

/// One operation of the runtime that the library asks for.
#[derive(Debug, Clone, PartialEq, Eq)]
pub enum Request {
    /// The class of an object. Answered by `Reply::Handle`.
    ObjectClass { object: u64 },
    /// The identifier of a method of a class, looked up by its name and
    /// signature among the static methods or among the others. Answered by
    /// `Reply::Handle`, with 0 where the class has no such method.
    Method { class: u64, name: String, signature: String, is_static: bool },
    /// A new string of the runtime with the given text. Answered by
    /// `Reply::Handle`.
    NewString { text: String },
    /// A call through the entry at `slot` of the function table, on the
    /// object or class `target`, of the method `method`, with the given
    /// argument cells. Answered by `Reply::Cell`.
    Invoke { slot: usize, target: u64, method: u64, args: Vec<jvalue> },
    /// Whether an exception is pending. Answered by `Reply::Flag`.
    ExceptionCheck,
    /// The pending exception. Answered by `Reply::Handle`.
    ExceptionOccurred,
    /// Clear the pending exception. Answered by `Reply::Nothing`.
    ExceptionClear,
    /// The text of a string of the runtime. Answered by `Reply::Text`.
    ReadString { string: u64 },
    /// Give up a reference that the runtime handed out, so that the
    /// runtime may free what it refers to. Answered by `Reply::Nothing`.
    DeleteLocalRef { object: u64 },
}

/// What a [`Request`] holds, with text as sequences of characters.
pub enum RequestView {
    ObjectClass { object: u64 },
    Method { class: u64, name: Seq<char>, signature: Seq<char>, is_static: bool },
    NewString { text: Seq<char> },
    Invoke { slot: usize, target: u64, method: u64, args: Seq<jvalue> },
    ExceptionCheck,
    ExceptionOccurred,
    ExceptionClear,
    ReadString { string: u64 },
    DeleteLocalRef { object: u64 },
}

impl View for Request {
    type V = RequestView;

    open spec fn view(&self) -> RequestView {
        match self {
            Request::ObjectClass { object } => RequestView::ObjectClass { object: *object },
            Request::Method { class, name, signature, is_static } => RequestView::Method {
                class: *class,
                name: name@,
                signature: signature@,
                is_static: *is_static,
            },
            Request::NewString { text } => RequestView::NewString { text: text@ },
            Request::Invoke { slot, target, method, args } => RequestView::Invoke {
                slot: *slot,
                target: *target,
                method: *method,
                args: args@,
            },
            Request::ExceptionCheck => RequestView::ExceptionCheck,
            Request::ExceptionOccurred => RequestView::ExceptionOccurred,
            Request::ExceptionClear => RequestView::ExceptionClear,
            Request::ReadString { string } => RequestView::ReadString { string: *string },
            Request::DeleteLocalRef { object } => RequestView::DeleteLocalRef { object: *object },
        }
    }
}

impl RequestView {
    /// Whether the request may be made while an exception is pending: only
    /// to take the exception and to clear it.
    pub open spec fn drains(self) -> bool {
        self is ExceptionOccurred || self is ExceptionClear
    }
}

/// What the runtime answered to a [`Request`].
#[derive(Debug, Clone, PartialEq, Eq)]
pub enum Reply {
    /// The operation returns nothing.
    Nothing,
    /// A reference or an identifier; 0 is the runtime's null.
    Handle(u64),
    /// The text of a string.
    Text(String),
    /// A yes or no.
    Flag(bool),
    /// The cell that a call returned.
    Cell(jvalue),
}

/// What a [`Reply`] holds, with text as a sequence of characters.
pub enum ReplyView {
    Nothing,
    Handle(u64),
    Text(Seq<char>),
    Flag(bool),
    Cell(jvalue),
}

impl View for Reply {
    type V = ReplyView;

    open spec fn view(&self) -> ReplyView {
        match self {
            Reply::Nothing => ReplyView::Nothing,
            Reply::Handle(h) => ReplyView::Handle(*h),
            Reply::Text(t) => ReplyView::Text(t@),
            Reply::Flag(b) => ReplyView::Flag(*b),
            Reply::Cell(c) => ReplyView::Cell(*c),
        }
    }
}

impl RequestView {
    /// Whether a reply is of the kind that answers the request.
    pub open spec fn answered_by(self, reply: ReplyView) -> bool {
        match self {
            RequestView::ObjectClass { .. } => reply is Handle,
            RequestView::Method { .. } => reply is Handle,
            RequestView::NewString { .. } => reply is Handle,
            RequestView::Invoke { .. } => reply is Cell,
            RequestView::ExceptionCheck => reply is Flag,
            RequestView::ExceptionOccurred => reply is Handle,
            RequestView::ExceptionClear => reply is Nothing,
            RequestView::ReadString { .. } => reply is Text,
            RequestView::DeleteLocalRef { .. } => reply is Nothing,
        }
    }
}

/// Where a sequence of requests stands after a reply: at its next request,
/// or at its end with a result.
#[derive(Debug)]
pub enum Turn<M, T> {
    /// The sequence goes on from the state `M`, which waits for the answer
    /// to the request.
    Ask(M, Request),
    /// The sequence has ended.
    Done(T),
}

/// A [`Turn`] as the models of the sequences state it: the next state, or
/// the result.
pub enum Step<M, T> {
    Ask(M),
    Done(T),
}

} // verus!
