//! Dynamic dispatch: a constructor, a static method or a method of an
//! object is looked up by its name and signature, its arguments are
//! encoded, it is called through the slot of its return type, and what the
//! runtime says afterwards becomes a value or an error.

use vstd::prelude::*;
use crate::call::{
    carries, lemma_encoding_extends, lemma_next_of, lemma_string_cell, next_of, plain_cells,
    string_cells, CallView, DispatchStep, DispatchView, Member, OutcomeView, PhaseView,
    constructor_name,
};
use crate::error::Error;
use crate::ffi::jvalue;
use crate::naming::Naming;
use crate::protocol::{Reply, Request, Turn};
use crate::signature::{function_signature, object_count};
use crate::table::{dispatch_slot, NEW_OBJECT_A};
use crate::translate::Translation;
use crate::value::{texts, Class, Object, Type, Value, views};

verus! {

/// A call as its caller stated it.
#[derive(Debug)]
struct Call {
    member: Member,
    target: u64,
    name: String,
    args: Vec<Value>,
    return_type: Type,
}

impl View for Call {
    type V = CallView;

    closed spec fn view(&self) -> CallView {
        CallView {
            member: self.member,
            target: self.target,
            name: self.name@,
            args: views(self.args@),
            return_type: self.return_type,
        }
    }
}

/// What a call waits on.
#[derive(Debug)]
enum Phase {
    AwaitClass,
    Naming { class: u64, names: Vec<String>, index: usize, query: Naming },
    AwaitMember,
    AwaitLookupFlag,
    AwaitString { method: u64, cells: Vec<jvalue>, strings: Vec<u64>, index: usize },
    AwaitResult { strings: Vec<u64> },
    AwaitFlag { cell: jvalue, strings: Vec<u64> },
    Translating { lookup: bool, strings: Vec<u64>, translation: Translation },
    AwaitText { cell: jvalue, strings: Vec<u64> },
    Releasing { strings: Vec<u64>, index: usize, outcome: Outcome },
}

impl View for Phase {
    type V = PhaseView;

    closed spec fn view(&self) -> PhaseView {
        match self {
            Phase::AwaitClass => PhaseView::AwaitClass,
            Phase::Naming { class, names, index, query } => PhaseView::Naming {
                class: *class,
                names: texts(names@),
                index: *index as int,
                query: *query,
            },
            Phase::AwaitMember => PhaseView::AwaitMember,
            Phase::AwaitLookupFlag => PhaseView::AwaitLookupFlag,
            Phase::AwaitString { method, cells, strings, index } => PhaseView::AwaitString {
                method: *method,
                cells: cells@,
                strings: strings@,
                index: *index as int,
            },
            Phase::AwaitResult { strings } => PhaseView::AwaitResult { strings: strings@ },
            Phase::AwaitFlag { cell, strings } => PhaseView::AwaitFlag {
                cell: *cell,
                strings: strings@,
            },
            Phase::Translating { lookup, strings, translation } => PhaseView::Translating {
                lookup: *lookup,
                strings: strings@,
                translation: translation@,
            },
            Phase::AwaitText { cell, strings } => PhaseView::AwaitText {
                cell: *cell,
                strings: strings@,
            },
            Phase::Releasing { strings, index, outcome } => PhaseView::Releasing {
                strings: strings@,
                index: *index as int,
                outcome: outcome_view(*outcome),
            },
        }
    }
}

/// A call in progress: what is called, and what the call waits on.
#[derive(Debug)]
pub struct Dispatch {
    call: Call,
    phase: Phase,
}

impl View for Dispatch {
    type V = DispatchView;

    closed spec fn view(&self) -> DispatchView {
        DispatchView { call: self.call@, phase: self.phase@ }
    }
}

/// How a call ends.
pub type Outcome = Result<Value, Error>;

/// What an outcome holds, with text as sequences of characters.
pub open spec fn outcome_view(outcome: Outcome) -> OutcomeView {
    match outcome {
        Ok(value) => Ok(value@),
        Err(error) => Err(error@),
    }
}

/// Whether a turn of a call is the given step of the call's model: the
/// same request and a well-formed state with the same view, or the same
/// outcome.
pub open spec fn agrees(turn: Turn<Dispatch, Outcome>, step: DispatchStep) -> bool {
    match turn {
        Turn::Ask(next, request) => step == DispatchStep::Ask((next@, request@)) && next@.wf(),
        Turn::Done(outcome) => step == DispatchStep::Done(outcome_view(outcome)),
    }
}

/// The values of a list before `n` are the views of the list's values
/// before `n`, and the view of the value at `n` is among them after it.
proof fn lemma_views_take(args: Seq<Value>, n: int)
    requires
        0 <= n < args.len(),
    ensures
        views(args).take(n + 1).drop_last() == views(args).take(n),
        views(args).take(n + 1).last() == args[n]@,
        views(args)[n] == args[n]@,
{
    assert(views(args).take(n + 1).drop_last() =~= views(args).take(n));
}

fn begin_naming(call: Call, class: u64, names: Vec<String>, from: usize) -> (turn: Turn<
    Dispatch,
    Outcome,
>)
    requires
        call@.wf(),
        from <= call.args.len(),
        names.len() == object_count(call@.args.take(from as int)),
        !(call@.member is Instance) ==> class == call@.target,
    ensures
        agrees(turn, call@.spec_begin_naming(class, texts(names@), from as int)),
{
    let ghost all = call@.args;
    let mut index: usize = from;
    while index < call.args.len() && !matches!(call.args[index], Value::Object(_))
        invariant
            from <= index <= call.args.len(),
            all == views(call.args@),
            names.len() == object_count(all.take(index as int)),
            next_of(all, index as int, true) == next_of(all, from as int, true),
        decreases call.args.len() - index,
    {
        proof {
            lemma_views_take(call.args@, index as int);
        }
        index = index + 1;
    }
    if index < call.args.len() {
        let object: u64 = match &call.args[index] {
            Value::Object(object) => object.raw,
            _ => 0,
        };
        let query = Naming::AwaitClass { object };
        let request = query.request();
        let next = Dispatch { call, phase: Phase::Naming { class, names, index, query } };
        Turn::Ask(next, request)
    } else {
        proof {
            assert(all.take(index as int) =~= all);
        }
        let signature = function_signature(
            call.args.as_slice(),
            names.as_slice(),
            &call.return_type,
        );
        let request = Request::Method {
            class,
            name: call.name.clone(),
            signature,
            is_static: matches!(call.member, Member::Static),
        };
        Turn::Ask(Dispatch { call, phase: Phase::AwaitMember }, request)
    }
}

fn begin_encoding(
    call: Call,
    method: u64,
    cells: Vec<jvalue>,
    strings: Vec<u64>,
    from: usize,
) -> (turn: Turn<Dispatch, Outcome>)
    requires
        call@.wf(),
        from <= call.args.len(),
        carries(call@.args.take(from as int), cells@),
        strings@ == string_cells(call@.args.take(from as int), cells@),
    ensures
        agrees(turn, call@.spec_begin_encoding(method, cells@, strings@, from as int)),
{
    let ghost all = call@.args;
    let ghost before = cells@;
    let mut cells = cells;
    let mut index: usize = from;
    while index < call.args.len() && !matches!(call.args[index], Value::Str(_))
        invariant
            from <= index <= call.args.len(),
            all == views(call.args@),
            call@.wf(),
            cells@ == before + plain_cells(all.subrange(from as int, index as int)),
            cells.len() == index,
            next_of(all, index as int, false) == next_of(all, from as int, false),
        decreases call.args.len() - index,
    {
        proof {
            lemma_views_take(call.args@, index as int);
            assert(all.subrange(from as int, index + 1) =~= all.subrange(
                from as int,
                index as int,
            ).push(all[index as int]));
        }
        let cell = call.args[index].to_jvalue(0);
        cells.push(cell);
        assert(cells@ =~= before + plain_cells(all.subrange(from as int, index + 1)));
        index = index + 1;
    }
    proof {
        lemma_next_of(all, from as int, false);
        lemma_encoding_extends(all, before, strings@, from as int, index as int);
    }
    if index < call.args.len() {
        let text: String = match &call.args[index] {
            Value::Str(text) => text.clone(),
            _ => String::new(),
        };
        let request = Request::NewString { text };
        let next = Dispatch { call, phase: Phase::AwaitString { method, cells, strings, index } };
        Turn::Ask(next, request)
    } else {
        let slot: usize = match call.member {
            Member::Constructor => NEW_OBJECT_A,
            Member::Static => dispatch_slot(true, &call.return_type),
            Member::Instance => dispatch_slot(false, &call.return_type),
        };
        let request = Request::Invoke { slot, target: call.target, method, args: cells };
        Turn::Ask(Dispatch { call, phase: Phase::AwaitResult { strings } }, request)
    }
}

fn release(call: Call, strings: Vec<u64>, from: usize, outcome: Outcome) -> (turn: Turn<
    Dispatch,
    Outcome,
>)
    requires
        call@.wf(),
    ensures
        agrees(turn, call@.spec_release(strings@, from as int, outcome_view(outcome))),
{
    if from < strings.len() {
        let request = Request::DeleteLocalRef { object: strings[from] };
        Turn::Ask(
            Dispatch { call, phase: Phase::Releasing { strings, index: from, outcome } },
            request,
        )
    } else {
        Turn::Done(outcome)
    }
}

fn finish(call: Call, cell: jvalue, strings: Vec<u64>) -> (turn: Turn<Dispatch, Outcome>)
    requires
        call@.wf(),
    ensures
        agrees(turn, call@.spec_finish(cell, strings@)),
{
    if matches!(call.member, Member::Constructor) {
        release(call, strings, 0, Ok(Value::Object(Object { raw: cell.l() })))
    } else if matches!(call.return_type, Type::Str) {
        let request = Request::ReadString { string: cell.l() };
        Turn::Ask(Dispatch { call, phase: Phase::AwaitText { cell, strings } }, request)
    } else {
        let value = Value::from_jvalue(cell, &call.return_type, String::new());
        release(call, strings, 0, Ok(value))
    }
}

fn start(call: Call) -> (turn: Turn<Dispatch, Outcome>)
    requires
        call@.wf(),
    ensures
        agrees(turn, call@.spec_start()),
{
    if matches!(call.member, Member::Instance) {
        let request = Request::ObjectClass { object: call.target };
        Turn::Ask(Dispatch { call, phase: Phase::AwaitClass }, request)
    } else {
        let class = call.target;
        let names: Vec<String> = Vec::new();
        proof {
            assert(texts(names@) =~= Seq::empty());
            assert(call@.args.take(0) =~= Seq::empty());
        }
        begin_naming(call, class, names, 0)
    }
}

impl Dispatch {
    /// Whether the call can go on from a reply.
    pub fn expects(&self, reply: &Reply) -> (yes: bool)
        ensures
            yes == self@.accepts(reply@),
    {
        match (&self.phase, reply) {
            (Phase::AwaitClass, Reply::Handle(_)) => true,
            (Phase::Naming { query, .. }, _) => query.expects(reply),
            (Phase::AwaitMember, Reply::Handle(_)) => true,
            (Phase::AwaitLookupFlag, Reply::Flag(_)) => true,
            (Phase::AwaitString { .. }, Reply::Handle(_)) => true,
            (Phase::AwaitResult { .. }, Reply::Cell(_)) => true,
            (Phase::AwaitFlag { .. }, Reply::Flag(_)) => true,
            (Phase::Translating { translation, .. }, _) => translation.expects(reply),
            (Phase::AwaitText { .. }, Reply::Text(_)) => true,
            (Phase::Releasing { .. }, Reply::Nothing) => true,
            _ => false,
        }
    }

    /// Takes the reply to the request that the call waits on, and says
    /// what comes next: another request, or the outcome of the call.
    pub fn step(self, reply: Reply) -> (turn: Turn<Dispatch, Outcome>)
        requires
            self@.wf(),
            self@.accepts(reply@),
        ensures
            agrees(turn, self@.spec_step(reply@)),
    {
        let Dispatch { call, phase } = self;
        assert(self@.call == call@ && self@.phase == phase@);
        match (phase, reply) {
            (Phase::AwaitClass, Reply::Handle(class)) => {
                let names: Vec<String> = Vec::new();
                proof {
                    assert(texts(names@) =~= Seq::empty());
                    assert(call@.args.take(0) =~= Seq::empty());
                }
                begin_naming(call, class, names, 0)
            },
            (Phase::Naming { class, names, index, query }, reply) => match query.step(reply) {
                Turn::Ask(next, request) => Turn::Ask(
                    Dispatch { call, phase: Phase::Naming { class, names, index, query: next } },
                    request,
                ),
                Turn::Done(name) => {
                    let mut names = names;
                    assert(index < call.args.len());
                    proof {
                        lemma_views_take(call.args@, index as int);
                        assert(texts(names@).push(name@) =~= texts(names@.push(name)));
                    }
                    names.push(name);
                    begin_naming(call, class, names, index + 1)
                },
            },
            (Phase::AwaitMember, Reply::Handle(method)) => {
                if method == 0 {
                    Turn::Ask(
                        Dispatch { call, phase: Phase::AwaitLookupFlag },
                        Request::ExceptionCheck,
                    )
                } else {
                    assert(call@.args.take(0) =~= Seq::empty());
                    begin_encoding(call, method, Vec::new(), Vec::new(), 0)
                }
            },
            (Phase::AwaitLookupFlag, Reply::Flag(pending)) => {
                if pending {
                    Turn::Ask(
                        Dispatch {
                            call,
                            phase: Phase::Translating {
                                lookup: true,
                                strings: Vec::new(),
                                translation: Translation::AwaitThrown,
                            },
                        },
                        Request::ExceptionOccurred,
                    )
                } else {
                    Turn::Done(Err(Error::not_found(None)))
                }
            },
            (Phase::AwaitString { method, cells, strings, index }, Reply::Handle(string)) => {
                let mut cells = cells;
                let mut strings = strings;
                assert(index < call.args.len());
                proof {
                    lemma_views_take(call.args@, index as int);
                    lemma_string_cell(call@.args, cells@, strings@, index as int, string);
                }
                let cell = call.args[index].to_jvalue(string);
                cells.push(cell);
                strings.push(string);
                begin_encoding(call, method, cells, strings, index + 1)
            },
            (Phase::AwaitResult { strings }, Reply::Cell(cell)) => Turn::Ask(
                Dispatch { call, phase: Phase::AwaitFlag { cell, strings } },
                Request::ExceptionCheck,
            ),
            (Phase::AwaitFlag { cell, strings }, Reply::Flag(pending)) => {
                if pending {
                    Turn::Ask(
                        Dispatch {
                            call,
                            phase: Phase::Translating {
                                lookup: false,
                                strings,
                                translation: Translation::AwaitThrown,
                            },
                        },
                        Request::ExceptionOccurred,
                    )
                } else {
                    finish(call, cell, strings)
                }
            },
            (Phase::Translating { lookup, strings, translation }, reply) => match translation.step(
                reply,
            ) {
                Turn::Ask(next, request) => Turn::Ask(
                    Dispatch {
                        call,
                        phase: Phase::Translating { lookup, strings, translation: next },
                    },
                    request,
                ),
                Turn::Done(error) => {
                    if lookup {
                        let raised = match error {
                            Error::Exception(info) => Some(info),
                            _ => None,
                        };
                        release(call, strings, 0, Err(Error::not_found(raised)))
                    } else {
                        release(call, strings, 0, Err(error))
                    }
                },
            },
            (Phase::AwaitText { cell, strings }, Reply::Text(text)) => {
                let value = Value::from_jvalue(cell, &call.return_type, text);
                release(call, strings, 0, Ok(value))
            },
            (Phase::Releasing { strings, index, outcome }, Reply::Nothing) => {
                assert(index < strings.len());
                release(call, strings, index + 1, outcome)
            },
            _ => Turn::Done(Err(Error::not_found(None))),
        }
    }
}

/// Whether none of the values is `Void`.
pub open spec fn no_void(args: Seq<Value>) -> bool {
    forall|i: int| 0 <= i < args.len() ==> !(#[trigger] args[i] is Void)
}

impl Class {
    /// Begins the creation of an instance of this class. The arguments
    /// are for the constructor, which is chosen by their types.
    pub fn instantiate(&self, args: Vec<Value>) -> (turn: Turn<Dispatch, Outcome>)
        requires
            no_void(args@),
        ensures
            agrees(
                turn,
                (CallView {
                    member: Member::Constructor,
                    target: self.raw,
                    name: constructor_name(),
                    args: views(args@),
                    return_type: Type::Void,
                }).spec_start(),
            ),
    {
        let call = Call {
            member: Member::Constructor,
            target: self.raw,
            name: "<init>".to_owned(),
            args,
            return_type: Type::Void,
        };
        start(call)
    }

    /// Begins the call of a static method of this class. A method that
    /// returns nothing gives `Value::Void`.
    pub fn call_static(&self, name: &str, args: Vec<Value>, return_type: Type) -> (turn: Turn<
        Dispatch,
        Outcome,
    >)
        requires
            no_void(args@),
        ensures
            agrees(
                turn,
                (CallView {
                    member: Member::Static,
                    target: self.raw,
                    name: name@,
                    args: views(args@),
                    return_type,
                }).spec_start(),
            ),
    {
        let call = Call {
            member: Member::Static,
            target: self.raw,
            name: name.to_owned(),
            args,
            return_type,
        };
        start(call)
    }
}

impl Object {
    /// Begins the call of a method of this object. The method is chosen by
    /// its name, the types of the arguments and the return type. A method
    /// that returns nothing gives `Value::Void`.
    pub fn call(&self, name: &str, args: Vec<Value>, return_type: Type) -> (turn: Turn<
        Dispatch,
        Outcome,
    >)
        requires
            no_void(args@),
        ensures
            agrees(
                turn,
                (CallView {
                    member: Member::Instance,
                    target: self.raw,
                    name: name@,
                    args: views(args@),
                    return_type,
                }).spec_start(),
            ),
    {
        let call = Call {
            member: Member::Instance,
            target: self.raw,
            name: name.to_owned(),
            args,
            return_type,
        };
        start(call)
    }
}

} // verus!
