//! How the name of a class is had from the runtime: the class is asked for
//! its `getName` method, the method is called, and the string that it
//! returns is read.

use vstd::prelude::*;
use crate::protocol::{Reply, ReplyView, Request, RequestView, Step, Turn};
use crate::table::CALL_METHOD;
use crate::value::Class;

verus! {

/// The name of the method that returns a class's name.
pub open spec fn name_method() -> Seq<char> {
    "getName"@
}

/// The signature of a method that takes nothing and returns a string.
pub open spec fn text_getter() -> Seq<char> {
    "()Ljava/lang/String;"@
}

/// The query for a class's name, by the request that it waits on.
#[derive(Debug, Clone, Copy, PartialEq, Eq)]
pub enum Naming {
    /// Waits for the class of `object`.
    AwaitClass { object: u64 },
    /// Waits for the identifier of the class's `getName` method.
    AwaitMethod { class: u64 },
    /// Waits for the string that the method returns.
    AwaitResult { class: u64, method: u64 },
    /// Waits for the text of that string.
    AwaitText { string: u64 },
}

impl Naming {
    /// The request that the query waits on.
    pub open spec fn spec_request(self) -> RequestView {
        match self {
            Naming::AwaitClass { object } => RequestView::ObjectClass { object },
            Naming::AwaitMethod { class } => RequestView::Method {
                class,
                name: name_method(),
                signature: text_getter(),
                is_static: false,
            },
            Naming::AwaitResult { class, method } => RequestView::Invoke {
                slot: CALL_METHOD,
                target: class,
                method,
                args: Seq::empty(),
            },
            Naming::AwaitText { string } => RequestView::ReadString { string },
        }
    }

    /// Whether a reply answers the request that the query waits on.
    pub open spec fn accepts(self, reply: ReplyView) -> bool {
        self.spec_request().answered_by(reply)
    }

    /// What follows a reply: the class that came is asked for the method,
    /// the method that came is called on the class, the string that came
    /// is read, and the text that came is the name. Nothing that comes is
    /// tested: a null is handed on like any other reference.
    pub open spec fn spec_step(self, reply: ReplyView) -> Step<Naming, Seq<char>>
        recommends
            self.accepts(reply),
    {
        match (self, reply) {
            (Naming::AwaitClass { .. }, ReplyView::Handle(class)) => Step::Ask(
                Naming::AwaitMethod { class },
            ),
            (Naming::AwaitMethod { class }, ReplyView::Handle(method)) => Step::Ask(
                Naming::AwaitResult { class, method },
            ),
            (Naming::AwaitResult { .. }, ReplyView::Cell(cell)) => Step::Ask(
                Naming::AwaitText { string: cell.data },
            ),
            (Naming::AwaitText { .. }, ReplyView::Text(name)) => Step::Done(name),
            _ => Step::Ask(self),
        }
    }

    /// The request that the query waits on.
    pub fn request(&self) -> (request: Request)
        ensures
            request@ == self.spec_request(),
    {
        match self {
            Naming::AwaitClass { object } => Request::ObjectClass { object: *object },
            Naming::AwaitMethod { class } => Request::Method {
                class: *class,
                name: "getName".to_owned(),
                signature: "()Ljava/lang/String;".to_owned(),
                is_static: false,
            },
            Naming::AwaitResult { class, method } => Request::Invoke {
                slot: CALL_METHOD,
                target: *class,
                method: *method,
                args: Vec::new(),
            },
            Naming::AwaitText { string } => Request::ReadString { string: *string },
        }
    }

    /// Whether a reply answers the request that the query waits on.
    pub fn expects(&self, reply: &Reply) -> (yes: bool)
        ensures
            yes == self.accepts(reply@),
    {
        match (self, reply) {
            (Naming::AwaitClass { .. }, Reply::Handle(_)) => true,
            (Naming::AwaitMethod { .. }, Reply::Handle(_)) => true,
            (Naming::AwaitResult { .. }, Reply::Cell(_)) => true,
            (Naming::AwaitText { .. }, Reply::Text(_)) => true,
            _ => false,
        }
    }

    /// Begins the query for the name of the class of an object.
    pub fn of_object(object: u64) -> (turn: Turn<Naming, String>)
        ensures
            turn matches Turn::Ask(next, request) && next == (Naming::AwaitClass { object })
                && request@ == next.spec_request(),
    {
        let next = Naming::AwaitClass { object };
        let request = next.request();
        Turn::Ask(next, request)
    }

    /// Takes the reply to the request that the query waits on, and says
    /// what comes next.
    pub fn step(self, reply: Reply) -> (turn: Turn<Naming, String>)
        requires
            self.accepts(reply@),
        ensures
            match turn {
                Turn::Ask(next, request) => self.spec_step(reply@) == Step::<
                    Naming,
                    Seq<char>,
                >::Ask(next) && request@ == next.spec_request(),
                Turn::Done(name) => self.spec_step(reply@) == Step::<Naming, Seq<char>>::Done(
                    name@,
                ),
            },
    {
        let next = match (self, reply) {
            (Naming::AwaitClass { .. }, Reply::Handle(class)) => Naming::AwaitMethod { class },
            (Naming::AwaitMethod { class }, Reply::Handle(method)) => Naming::AwaitResult {
                class,
                method,
            },
            (Naming::AwaitResult { .. }, Reply::Cell(cell)) => Naming::AwaitText {
                string: cell.l(),
            },
            (Naming::AwaitText { .. }, Reply::Text(name)) => {
                return Turn::Done(name);
            },
            (state, _) => state,
        };
        let request = next.request();
        Turn::Ask(next, request)
    }
}

impl Class {
    /// Begins the query for the fully qualified name of this class.
    pub fn name(&self) -> (turn: Turn<Naming, String>)
        ensures
            turn matches Turn::Ask(next, request) && next == (Naming::AwaitMethod {
                class: self.raw,
            }) && request@ == next.spec_request(),
    {
        let next = Naming::AwaitMethod { class: self.raw };
        let request = next.request();
        Turn::Ask(next, request)
    }
}

} // verus!
