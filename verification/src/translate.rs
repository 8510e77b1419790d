//! The error translator: from an exception that is pending in the runtime
//! to an error that holds what the exception said. The exception is taken
//! and cleared before anything else is asked of the runtime.

use vstd::prelude::*;
use crate::error::{Error, ErrorView, ExceptionInfo, ExceptionInfoView};
use crate::ffi::jvalue;
use crate::naming::{name_method, text_getter, Naming};
use crate::protocol::{Reply, ReplyView, Request, RequestView, Step, Turn};
use crate::table::{dispatch_slot, spec_dispatch_slot, CALL_METHOD};
use crate::value::{Class, Type};

verus! {

/// The name of the method that returns an exception's message.
pub open spec fn message_method() -> Seq<char> {
    "getMessage"@
}

/// The slot through which a method of an object that returns a string is
/// called with its arguments in an array.
pub open spec fn text_call_slot() -> usize {
    spec_dispatch_slot(false, Type::Str) as usize
}

/// The translation of a pending exception, by the request that it waits
/// on.
#[derive(Debug, Clone, PartialEq, Eq)]
pub enum Translation {
    /// Waits for the pending exception.
    AwaitThrown,
    /// Waits for the pending exception to be cleared.
    AwaitCleared { thrown: u64 },
    /// Waits on the query for the name of the exception's class.
    Naming { thrown: u64, query: Naming },
    /// Waits for the exception's class, to look its message method up.
    AwaitClass { thrown: u64, name: String },
    /// Waits for the identifier of the message method.
    AwaitMethod { thrown: u64, name: String, class: u64 },
    /// Waits for the string that the message method returns.
    AwaitResult { thrown: u64, name: String, method: u64 },
    /// Waits to hear whether the message method threw.
    AwaitFlag { name: String, string: u64 },
    /// Waits for the text of the message.
    AwaitText { name: String, string: u64 },
}

/// What a [`Translation`] holds, with text as sequences of characters.
pub enum TranslationView {
    AwaitThrown,
    AwaitCleared { thrown: u64 },
    Naming { thrown: u64, query: Naming },
    AwaitClass { thrown: u64, name: Seq<char> },
    AwaitMethod { thrown: u64, name: Seq<char>, class: u64 },
    AwaitResult { thrown: u64, name: Seq<char>, method: u64 },
    AwaitFlag { name: Seq<char>, string: u64 },
    AwaitText { name: Seq<char>, string: u64 },
}

impl View for Translation {
    type V = TranslationView;

    open spec fn view(&self) -> TranslationView {
        match self {
            Translation::AwaitThrown => TranslationView::AwaitThrown,
            Translation::AwaitCleared { thrown } => TranslationView::AwaitCleared {
                thrown: *thrown,
            },
            Translation::Naming { thrown, query } => TranslationView::Naming {
                thrown: *thrown,
                query: *query,
            },
            Translation::AwaitClass { thrown, name } => TranslationView::AwaitClass {
                thrown: *thrown,
                name: name@,
            },
            Translation::AwaitMethod { thrown, name, class } => TranslationView::AwaitMethod {
                thrown: *thrown,
                name: name@,
                class: *class,
            },
            Translation::AwaitResult { thrown, name, method } => TranslationView::AwaitResult {
                thrown: *thrown,
                name: name@,
                method: *method,
            },
            Translation::AwaitFlag { name, string } => TranslationView::AwaitFlag {
                name: name@,
                string: *string,
            },
            Translation::AwaitText { name, string } => TranslationView::AwaitText {
                name: name@,
                string: *string,
            },
        }
    }
}

impl TranslationView {
    /// Whether the exception is still pending in the runtime: from the
    /// start of the translation until the runtime has cleared it.
    pub open spec fn pending(self) -> bool {
        self is AwaitThrown || self is AwaitCleared
    }

    /// The request that the translation waits on.
    pub open spec fn spec_request(self) -> RequestView {
        match self {
            TranslationView::AwaitThrown => RequestView::ExceptionOccurred,
            TranslationView::AwaitCleared { .. } => RequestView::ExceptionClear,
            TranslationView::Naming { query, .. } => query.spec_request(),
            TranslationView::AwaitClass { thrown, .. } => RequestView::ObjectClass {
                object: thrown,
            },
            TranslationView::AwaitMethod { class, .. } => RequestView::Method {
                class,
                name: message_method(),
                signature: text_getter(),
                is_static: false,
            },
            TranslationView::AwaitResult { thrown, method, .. } => RequestView::Invoke {
                slot: text_call_slot(),
                target: thrown,
                method,
                args: Seq::empty(),
            },
            TranslationView::AwaitFlag { .. } => RequestView::ExceptionCheck,
            TranslationView::AwaitText { string, .. } => RequestView::ReadString { string },
        }
    }

    /// Whether the translation can go on from a reply. The reply must
    /// answer the request that the translation waits on. The exception
    /// must have a message method, and the method must not throw: the
    /// translation has no error for an exception that cannot be read.
    pub open spec fn accepts(self, reply: ReplyView) -> bool {
        &&& self.spec_request().answered_by(reply)
        &&& self is AwaitMethod ==> reply != ReplyView::Handle(0)
        &&& self is AwaitFlag ==> reply == ReplyView::Flag(false)
    }

    /// What follows a reply. The exception that came is cleared; then its
    /// class is asked for its name; then the exception's message method is
    /// looked up in its class, called, and the string that it returned is
    /// read. The result is an `Exception` error with the name and the
    /// message; no stack trace is taken.
    pub open spec fn spec_step(self, reply: ReplyView) -> Step<TranslationView, ErrorView>
        recommends
            self.accepts(reply),
    {
        match (self, reply) {
            (TranslationView::AwaitThrown, ReplyView::Handle(thrown)) => Step::Ask(
                TranslationView::AwaitCleared { thrown },
            ),
            (TranslationView::AwaitCleared { thrown }, ReplyView::Nothing) => Step::Ask(
                TranslationView::Naming { thrown, query: Naming::AwaitClass { object: thrown } },
            ),
            (TranslationView::Naming { thrown, query }, _) => match query.spec_step(reply) {
                Step::Ask(next) => Step::Ask(TranslationView::Naming { thrown, query: next }),
                Step::Done(name) => Step::Ask(TranslationView::AwaitClass { thrown, name }),
            },
            (TranslationView::AwaitClass { thrown, name }, ReplyView::Handle(class)) => Step::Ask(
                TranslationView::AwaitMethod { thrown, name, class },
            ),
            (
                TranslationView::AwaitMethod { thrown, name, .. },
                ReplyView::Handle(method),
            ) => Step::Ask(TranslationView::AwaitResult { thrown, name, method }),
            (TranslationView::AwaitResult { name, .. }, ReplyView::Cell(cell)) => Step::Ask(
                TranslationView::AwaitFlag { name, string: cell.data },
            ),
            (TranslationView::AwaitFlag { name, string }, ReplyView::Flag(_)) => Step::Ask(
                TranslationView::AwaitText { name, string },
            ),
            (TranslationView::AwaitText { name, .. }, ReplyView::Text(message)) => Step::Done(
                ErrorView::Exception(
                    ExceptionInfoView { name, message, stack_trace: Seq::empty() },
                ),
            ),
            _ => Step::Ask(self),
        }
    }
}

impl Translation {
    /// The request that the translation waits on.
    pub fn request(&self) -> (request: Request)
        ensures
            request@ == self@.spec_request(),
    {
        match self {
            Translation::AwaitThrown => Request::ExceptionOccurred,
            Translation::AwaitCleared { .. } => Request::ExceptionClear,
            Translation::Naming { query, .. } => query.request(),
            Translation::AwaitClass { thrown, .. } => Request::ObjectClass { object: *thrown },
            Translation::AwaitMethod { class, .. } => Request::Method {
                class: *class,
                name: "getMessage".to_owned(),
                signature: "()Ljava/lang/String;".to_owned(),
                is_static: false,
            },
            Translation::AwaitResult { thrown, method, .. } => Request::Invoke {
                slot: dispatch_slot(false, &Type::Str),
                target: *thrown,
                method: *method,
                args: Vec::new(),
            },
            Translation::AwaitFlag { .. } => Request::ExceptionCheck,
            Translation::AwaitText { string, .. } => Request::ReadString { string: *string },
        }
    }

    /// Whether the translation can go on from a reply.
    pub fn expects(&self, reply: &Reply) -> (yes: bool)
        ensures
            yes == self@.accepts(reply@),
    {
        match (self, reply) {
            (Translation::AwaitThrown, Reply::Handle(_)) => true,
            (Translation::AwaitCleared { .. }, Reply::Nothing) => true,
            (Translation::Naming { query, .. }, _) => query.expects(reply),
            (Translation::AwaitClass { .. }, Reply::Handle(_)) => true,
            (Translation::AwaitMethod { .. }, Reply::Handle(method)) => *method != 0,
            (Translation::AwaitResult { .. }, Reply::Cell(_)) => true,
            (Translation::AwaitFlag { .. }, Reply::Flag(pending)) => !*pending,
            (Translation::AwaitText { .. }, Reply::Text(_)) => true,
            _ => false,
        }
    }

    /// Takes the reply to the request that the translation waits on, and
    /// says what comes next.
    pub fn step(self, reply: Reply) -> (turn: Turn<Translation, Error>)
        requires
            self@.accepts(reply@),
        ensures
            match turn {
                Turn::Ask(next, request) => self@.spec_step(reply@) == Step::<
                    TranslationView,
                    ErrorView,
                >::Ask(next@) && request@ == next@.spec_request(),
                Turn::Done(error) => self@.spec_step(reply@) == Step::<
                    TranslationView,
                    ErrorView,
                >::Done(error@),
            },
    {
        let next = match (self, reply) {
            (Translation::AwaitThrown, Reply::Handle(thrown)) => Translation::AwaitCleared {
                thrown,
            },
            (Translation::AwaitCleared { thrown }, Reply::Nothing) => Translation::Naming {
                thrown,
                query: Naming::AwaitClass { object: thrown },
            },
            (Translation::Naming { thrown, query }, reply) => match query.step(reply) {
                Turn::Ask(next, _) => Translation::Naming { thrown, query: next },
                Turn::Done(name) => Translation::AwaitClass { thrown, name },
            },
            (Translation::AwaitClass { thrown, name }, Reply::Handle(class)) => {
                Translation::AwaitMethod { thrown, name, class }
            },
            (Translation::AwaitMethod { thrown, name, .. }, Reply::Handle(method)) => {
                Translation::AwaitResult { thrown, name, method }
            },
            (Translation::AwaitResult { name, .. }, Reply::Cell(cell)) => Translation::AwaitFlag {
                name,
                string: cell.l(),
            },
            (Translation::AwaitFlag { name, string }, Reply::Flag(_)) => Translation::AwaitText {
                name,
                string,
            },
            (Translation::AwaitText { name, .. }, Reply::Text(message)) => {
                let info = ExceptionInfo::new(name, message, String::new());
                return Turn::Done(Error::Exception(info));
            },
            (state, _) => state,
        };
        let request = next.request();
        Turn::Ask(next, request)
    }
}

impl Error {
    /// Begins the translation of the exception that is pending in the
    /// runtime. The caller guarantees that one is pending.
    pub fn from_exception() -> (turn: Turn<Translation, Error>)
        ensures
            turn matches Turn::Ask(next, request) && next@ == TranslationView::AwaitThrown
                && request@ == RequestView::ExceptionOccurred,
    {
        Turn::Ask(Translation::AwaitThrown, Request::ExceptionOccurred)
    }
}

impl Class {
    /// What the lookup of a class by its name came to: the class, for a
    /// reference that is not null; and for null the translation of the
    /// exception that the lookup raised, at its first request.
    pub fn found(raw: u64) -> (found: Result<Class, Turn<Translation, Error>>)
        ensures
            raw != 0 ==> found == Ok::<Class, Turn<Translation, Error>>(Class { raw }),
            raw == 0 ==> (found matches Err(Turn::Ask(next, request)) && next@
                == TranslationView::AwaitThrown && request@ == RequestView::ExceptionOccurred),
    {
        if raw == 0 {
            Err(Error::from_exception())
        } else {
            Ok(Class { raw })
        }
    }
}

/// While the exception is pending, the translation asks the runtime for
/// nothing but the exception and its clearing; and it ends only after the
/// exception was cleared, with an `Exception` error.
pub proof fn lemma_translation_drains_first(state: TranslationView, reply: ReplyView)
    requires
        state.accepts(reply),
    ensures
        match state.spec_step(reply) {
            Step::Ask(next) => next.pending() ==> state.pending() && next.spec_request().drains(),
            Step::Done(error) => !state.pending() && error is Exception,
        },
{
}

/// The exception is cleared once: as soon as it was taken. After that it
/// is not pending, and the translation never asks for it or clears again.
pub proof fn lemma_translation_clears_once(state: TranslationView, reply: ReplyView)
    requires
        state.accepts(reply),
    ensures
        state is AwaitThrown ==> state.spec_step(reply) is Ask && state.spec_step(
            reply,
        )->Ask_0.spec_request() is ExceptionClear,
        state is AwaitCleared ==> state.spec_step(reply) is Ask && !state.spec_step(
            reply,
        )->Ask_0.pending(),
        !state.pending() ==> (state.spec_step(reply) matches Step::Ask(next) ==> !next.pending()
            && !next.spec_request().drains()),
{
}

/// A whole translation, from its first request to its result. The pending
/// exception is taken and cleared. Its class is asked for, the class's
/// name method is looked up in it and called on it without arguments, and
/// the string that comes back is read: that is the exception's name. Then
/// the exception's class is asked for again, the message method is looked
/// up in it and called on the exception through the slot for methods that
/// return a string, the runtime says that the method did not throw, and
/// the string that came back is read: that is the message. The result is
/// an `Exception` error with that name and that message and an empty stack
/// trace.
pub proof fn lemma_translation_run(
    thrown: u64,
    class: u64,
    name_method_id: u64,
    name_string: jvalue,
    name: Seq<char>,
    message_class: u64,
    message_method_id: u64,
    message_string: jvalue,
    message: Seq<char>,
)
    requires
        message_method_id != 0,
    ensures
        ({
            let taken = TranslationView::AwaitCleared { thrown };
            let cleared = TranslationView::Naming {
                thrown,
                query: Naming::AwaitClass { object: thrown },
            };
            let classed = TranslationView::Naming { thrown, query: Naming::AwaitMethod { class } };
            let found = TranslationView::Naming {
                thrown,
                query: Naming::AwaitResult { class, method: name_method_id },
            };
            let called = TranslationView::Naming {
                thrown,
                query: Naming::AwaitText { string: name_string.data },
            };
            let named = TranslationView::AwaitClass { thrown, name };
            let classed_again = TranslationView::AwaitMethod {
                thrown,
                name,
                class: message_class,
            };
            let found_again = TranslationView::AwaitResult {
                thrown,
                name,
                method: message_method_id,
            };
            let called_again = TranslationView::AwaitFlag { name, string: message_string.data };
            let checked = TranslationView::AwaitText { name, string: message_string.data };
            &&& TranslationView::AwaitThrown.spec_request() == RequestView::ExceptionOccurred
            &&& TranslationView::AwaitThrown.spec_step(ReplyView::Handle(thrown)) == Step::<
                TranslationView,
                ErrorView,
            >::Ask(taken)
            &&& taken.spec_request() == RequestView::ExceptionClear
            &&& taken.spec_step(ReplyView::Nothing) == Step::<TranslationView, ErrorView>::Ask(
                cleared,
            )
            &&& cleared.spec_request() == (RequestView::ObjectClass { object: thrown })
            &&& cleared.spec_step(ReplyView::Handle(class)) == Step::<
                TranslationView,
                ErrorView,
            >::Ask(classed)
            &&& classed.spec_request() == (RequestView::Method {
                class,
                name: name_method(),
                signature: text_getter(),
                is_static: false,
            })
            &&& classed.spec_step(ReplyView::Handle(name_method_id)) == Step::<
                TranslationView,
                ErrorView,
            >::Ask(found)
            &&& found.spec_request() == (RequestView::Invoke {
                slot: CALL_METHOD,
                target: class,
                method: name_method_id,
                args: Seq::empty(),
            })
            &&& found.spec_step(ReplyView::Cell(name_string)) == Step::<
                TranslationView,
                ErrorView,
            >::Ask(called)
            &&& called.spec_request() == (RequestView::ReadString { string: name_string.data })
            &&& called.spec_step(ReplyView::Text(name)) == Step::<TranslationView, ErrorView>::Ask(
                named,
            )
            &&& named.spec_request() == (RequestView::ObjectClass { object: thrown })
            &&& named.spec_step(ReplyView::Handle(message_class)) == Step::<
                TranslationView,
                ErrorView,
            >::Ask(classed_again)
            &&& classed_again.spec_request() == (RequestView::Method {
                class: message_class,
                name: message_method(),
                signature: text_getter(),
                is_static: false,
            })
            &&& classed_again.spec_step(ReplyView::Handle(message_method_id)) == Step::<
                TranslationView,
                ErrorView,
            >::Ask(found_again)
            &&& found_again.spec_request() == (RequestView::Invoke {
                slot: text_call_slot(),
                target: thrown,
                method: message_method_id,
                args: Seq::empty(),
            })
            &&& found_again.spec_step(ReplyView::Cell(message_string)) == Step::<
                TranslationView,
                ErrorView,
            >::Ask(called_again)
            &&& called_again.spec_request() == RequestView::ExceptionCheck
            &&& called_again.spec_step(ReplyView::Flag(false)) == Step::<
                TranslationView,
                ErrorView,
            >::Ask(checked)
            &&& checked.spec_request() == (RequestView::ReadString {
                string: message_string.data,
            })
            &&& checked.spec_step(ReplyView::Text(message)) == Step::<
                TranslationView,
                ErrorView,
            >::Done(
                ErrorView::Exception(
                    ExceptionInfoView { name, message, stack_trace: Seq::empty() },
                ),
            )
        }),
{
}

} // verus!
