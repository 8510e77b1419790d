//! A call of a member, as a sequence of requests to the runtime: what a
//! call is, the states it goes through, what follows each reply of the
//! runtime, and what holds of every call.

use vstd::prelude::*;
use crate::codec::spec_decode;
use crate::error::ErrorView;
use crate::ffi::jvalue;
use crate::naming::Naming;
use crate::protocol::{ReplyView, RequestView, Step};
use crate::signature::{object_count, spec_function_signature};
use crate::table::{spec_dispatch_slot, spec_entry_at, CallEntry, CallForm, ENTRIES, NEW_OBJECT_A};
use crate::translate::TranslationView;
use crate::value::{Object, Type, ValueView};

verus! {

/// The kind of member that a call is for.
#[derive(Debug, Clone, Copy, PartialEq, Eq)]
pub enum Member {
    /// A constructor of a class: the call makes a new object.
    Constructor,
    /// A static method of a class.
    Static,
    /// A method of an object.
    Instance,
}

/// The name under which the runtime knows every constructor.
pub open spec fn constructor_name() -> Seq<char> {
    "<init>"@
}

/// A call as its caller stated it.
pub struct CallView {
    /// The kind of member.
    pub member: Member,
    /// The class, for a constructor or a static method; the object, for a
    /// method of an object.
    pub target: u64,
    /// The member's name.
    pub name: Seq<char>,
    /// The arguments.
    pub args: Seq<ValueView>,
    /// The type that the member returns; `Void` for a constructor.
    pub return_type: Type,
}

/// What a call waits on.
pub enum PhaseView {
    /// The class of the object whose method is called.
    AwaitClass,
    /// The query for the class name of the object argument at `index`;
    /// `names` holds the names of the object arguments before it.
    Naming { class: u64, names: Seq<Seq<char>>, index: int, query: Naming },
    /// The identifier of the member.
    AwaitMember,
    /// Whether the lookup that found no member raised an exception.
    AwaitLookupFlag,
    /// The runtime string for the string argument at `index`; `cells`
    /// holds the cells of the arguments before it, and `strings` the
    /// runtime strings made for those of them that are strings.
    AwaitString { method: u64, cells: Seq<jvalue>, strings: Seq<u64>, index: int },
    /// The cell that the member returns.
    AwaitResult { strings: Seq<u64> },
    /// Whether the member threw.
    AwaitFlag { cell: jvalue, strings: Seq<u64> },
    /// The translation of the pending exception, raised by the lookup or
    /// thrown by the member.
    Translating { lookup: bool, strings: Seq<u64>, translation: TranslationView },
    /// The text of the string that the member returned.
    AwaitText { cell: jvalue, strings: Seq<u64> },
    /// The release of the runtime string at `index` of `strings`; the
    /// outcome of the call is known.
    Releasing { strings: Seq<u64>, index: int, outcome: OutcomeView },
}

/// A call in progress.
pub struct DispatchView {
    pub call: CallView,
    pub phase: PhaseView,
}

/// How a call ends, with text as sequences of characters.
pub type OutcomeView = Result<ValueView, ErrorView>;

/// What a call comes to after a reply: the state in which it goes on,
/// with its next request, or its outcome.
pub type DispatchStep = Step<(DispatchView, RequestView), OutcomeView>;

/// The first place at or after `from` whose value is an object (if
/// `object` holds) or a string (if not); the length of the list if there
/// is none.
pub open spec fn next_of(args: Seq<ValueView>, from: int, object: bool) -> int
    decreases args.len() - from,
{
    if from < 0 || from >= args.len() {
        args.len() as int
    } else if (object && args[from] is Object) || (!object && args[from] is Str) {
        from
    } else {
        next_of(args, from + 1, object)
    }
}

/// The cells of values none of which is a string.
pub open spec fn plain_cells(args: Seq<ValueView>) -> Seq<jvalue> {
    args.map_values(|v: ValueView| jvalue { data: v.spec_encode(0) })
}

/// Whether the cells carry the values: there is one cell for each value,
/// and it is the cell that encodes the value; for a string, with the
/// reference in the cell as the runtime string made from its text.
pub open spec fn carries(args: Seq<ValueView>, cells: Seq<jvalue>) -> bool {
    &&& cells.len() == args.len()
    &&& forall|j: int|
        0 <= j < args.len() ==> (#[trigger] cells[j]).data == args[j].spec_encode(cells[j].data)
}

/// The references in the cells of the strings among the values, in order.
pub open spec fn string_cells(args: Seq<ValueView>, cells: Seq<jvalue>) -> Seq<u64>
    decreases args.len(),
{
    if args.len() == 0 {
        Seq::empty()
    } else if args.last() is Str {
        string_cells(args.drop_last(), cells.drop_last()).push(cells.last().data)
    } else {
        string_cells(args.drop_last(), cells.drop_last())
    }
}

impl CallView {
    /// A call is well formed if no argument is `Void`: a method takes
    /// nothing of that type.
    pub open spec fn wf(self) -> bool {
        forall|i: int| 0 <= i < self.args.len() ==> !(#[trigger] self.args[i] is Void)
    }

    /// The slot through which the member is called: the entry that makes
    /// an object, for a constructor, and else the array-form entry for the
    /// return type's category, among the static entries or the others.
    pub open spec fn spec_slot(self) -> usize {
        match self.member {
            Member::Constructor => NEW_OBJECT_A,
            Member::Static => spec_dispatch_slot(true, self.return_type) as usize,
            Member::Instance => spec_dispatch_slot(false, self.return_type) as usize,
        }
    }

    /// How the call begins: a method of an object needs the object's
    /// class first; a constructor or a static method has its class.
    pub open spec fn spec_start(self) -> DispatchStep {
        if self.member is Instance {
            Step::Ask(
                (
                    DispatchView { call: self, phase: PhaseView::AwaitClass },
                    RequestView::ObjectClass { object: self.target },
                ),
            )
        } else {
            self.spec_begin_naming(self.target, Seq::empty(), 0)
        }
    }

    /// The signature needs the class name of each object among the
    /// arguments. With the names of those before `from` in `names`: the
    /// next object is asked for its class name; after the last, the member
    /// is looked up in `class` by its name and the signature.
    pub open spec fn spec_begin_naming(
        self,
        class: u64,
        names: Seq<Seq<char>>,
        from: int,
    ) -> DispatchStep {
        let index = next_of(self.args, from, true);
        if index < self.args.len() {
            let query = Naming::AwaitClass { object: self.args[index]->Object_0.raw };
            Step::Ask(
                (
                    DispatchView {
                        call: self,
                        phase: PhaseView::Naming { class, names, index, query },
                    },
                    query.spec_request(),
                ),
            )
        } else {
            Step::Ask(
                (
                    DispatchView { call: self, phase: PhaseView::AwaitMember },
                    RequestView::Method {
                        class,
                        name: self.name,
                        signature: spec_function_signature(self.args, names, self.return_type),
                        is_static: self.member is Static,
                    },
                ),
            )
        }
    }

    /// The arguments are encoded in their order. With the cells of those
    /// before `from` in `cells`, and in `strings` the runtime strings made
    /// so far: the arguments up to the next string get their cells; the
    /// runtime is asked to make that string; after the last argument the
    /// member is called.
    pub open spec fn spec_begin_encoding(
        self,
        method: u64,
        cells: Seq<jvalue>,
        strings: Seq<u64>,
        from: int,
    ) -> DispatchStep {
        let index = next_of(self.args, from, false);
        let cells = cells + plain_cells(self.args.subrange(from, index));
        if index < self.args.len() {
            Step::Ask(
                (
                    DispatchView {
                        call: self,
                        phase: PhaseView::AwaitString { method, cells, strings, index },
                    },
                    RequestView::NewString { text: self.args[index]->Str_0 },
                ),
            )
        } else {
            Step::Ask(
                (
                    DispatchView { call: self, phase: PhaseView::AwaitResult { strings } },
                    RequestView::Invoke {
                        slot: self.spec_slot(),
                        target: self.target,
                        method,
                        args: cells,
                    },
                ),
            )
        }
    }

    /// What a call that did not throw returned in `cell`: the new object,
    /// for a constructor; a string, whose text must be read first; or the
    /// value of the return type that the cell holds.
    pub open spec fn spec_finish(self, cell: jvalue, strings: Seq<u64>) -> DispatchStep {
        if self.member is Constructor {
            self.spec_release(strings, 0, Ok(ValueView::Object(Object { raw: cell.data })))
        } else if self.return_type is Str {
            Step::Ask(
                (
                    DispatchView { call: self, phase: PhaseView::AwaitText { cell, strings } },
                    RequestView::ReadString { string: cell.data },
                ),
            )
        } else {
            self.spec_release(
                strings,
                0,
                Ok(spec_decode(cell.data, self.return_type, Seq::empty())),
            )
        }
    }

    /// The release point of the runtime strings that the call made for its
    /// string arguments: when the outcome of the call is known, the
    /// strings are given up one by one, in the order in which they were
    /// made, and the call ends after the last.
    pub open spec fn spec_release(
        self,
        strings: Seq<u64>,
        from: int,
        outcome: OutcomeView,
    ) -> DispatchStep {
        if 0 <= from < strings.len() {
            Step::Ask(
                (
                    DispatchView {
                        call: self,
                        phase: PhaseView::Releasing { strings, index: from, outcome },
                    },
                    RequestView::DeleteLocalRef { object: strings[from] },
                ),
            )
        } else {
            Step::Done(outcome)
        }
    }
}

impl DispatchView {
    /// The state is well formed: the call is, and the place at which the
    /// arguments are being named or encoded holds an argument of the kind
    /// that is waited for, with the names or cells that belong before it;
    /// the runtime strings that the call holds are those in the cells of
    /// its string arguments.
    pub open spec fn wf(self) -> bool {
        &&& self.call.wf()
        &&& self.phase is AwaitClass ==> self.call.member is Instance
        &&& self.phase matches PhaseView::Naming { class, names, index, .. } ==> {
            &&& 0 <= index < self.call.args.len()
            &&& self.call.args[index] is Object
            &&& names.len() == object_count(self.call.args.take(index))
            &&& !(self.call.member is Instance) ==> class == self.call.target
        }
        &&& self.phase matches PhaseView::AwaitString { cells, strings, index, .. } ==> {
            &&& 0 <= index < self.call.args.len()
            &&& self.call.args[index] is Str
            &&& carries(self.call.args.take(index), cells)
            &&& strings == string_cells(self.call.args.take(index), cells)
        }
        &&& self.phase matches PhaseView::Releasing { strings, index, .. } ==> 0 <= index
            < strings.len()
    }

    /// The runtime strings that the call has made for its string arguments
    /// and not given up yet.
    pub open spec fn held(self) -> Seq<u64> {
        match self.phase {
            PhaseView::AwaitString { strings, .. } => strings,
            PhaseView::AwaitResult { strings } => strings,
            PhaseView::AwaitFlag { strings, .. } => strings,
            PhaseView::Translating { strings, .. } => strings,
            PhaseView::AwaitText { strings, .. } => strings,
            PhaseView::Releasing { strings, index, .. } => strings.subrange(
                index,
                strings.len() as int,
            ),
            _ => Seq::empty(),
        }
    }

    /// Whether an exception is pending in the runtime that the call has
    /// not cleared yet.
    pub open spec fn pending(self) -> bool {
        self.phase matches PhaseView::Translating { translation, .. } && translation.pending()
    }

    /// Whether the call can go on from a reply: the reply answers the
    /// request that the call waits on.
    pub open spec fn accepts(self, reply: ReplyView) -> bool {
        match self.phase {
            PhaseView::AwaitClass => reply is Handle,
            PhaseView::Naming { query, .. } => query.accepts(reply),
            PhaseView::AwaitMember => reply is Handle,
            PhaseView::AwaitLookupFlag => reply is Flag,
            PhaseView::AwaitString { .. } => reply is Handle,
            PhaseView::AwaitResult { .. } => reply is Cell,
            PhaseView::AwaitFlag { .. } => reply is Flag,
            PhaseView::Translating { translation, .. } => translation.accepts(reply),
            PhaseView::AwaitText { .. } => reply is Text,
            PhaseView::Releasing { .. } => reply is Nothing,
        }
    }

    /// What follows a reply.
    ///
    /// A member that the lookup did not find (a null identifier) is not
    /// called: the call ends with `NotFound`, which holds the exception
    /// that the lookup raised, if one is pending. After the member was
    /// called, the runtime is asked first of all whether an exception is
    /// pending; if so, the call ends with the exception, translated, and
    /// the returned cell is not looked at. Before the call ends, the
    /// runtime strings made for its string arguments are given up.
    pub open spec fn spec_step(self, reply: ReplyView) -> DispatchStep
        recommends
            self.wf(),
            self.accepts(reply),
    {
        let call = self.call;
        match (self.phase, reply) {
            (PhaseView::AwaitClass, ReplyView::Handle(class)) => call.spec_begin_naming(
                class,
                Seq::empty(),
                0,
            ),
            (PhaseView::Naming { class, names, index, query }, _) => match query.spec_step(reply) {
                Step::Ask(next) => Step::Ask(
                    (
                        DispatchView {
                            call,
                            phase: PhaseView::Naming { class, names, index, query: next },
                        },
                        next.spec_request(),
                    ),
                ),
                Step::Done(name) => call.spec_begin_naming(class, names.push(name), index + 1),
            },
            (PhaseView::AwaitMember, ReplyView::Handle(method)) => if method == 0 {
                Step::Ask(
                    (
                        DispatchView { call, phase: PhaseView::AwaitLookupFlag },
                        RequestView::ExceptionCheck,
                    ),
                )
            } else {
                call.spec_begin_encoding(method, Seq::empty(), Seq::empty(), 0)
            },
            (PhaseView::AwaitLookupFlag, ReplyView::Flag(pending)) => if pending {
                Step::Ask(
                    (
                        DispatchView {
                            call,
                            phase: PhaseView::Translating {
                                lookup: true,
                                strings: Seq::empty(),
                                translation: TranslationView::AwaitThrown,
                            },
                        },
                        RequestView::ExceptionOccurred,
                    ),
                )
            } else {
                Step::Done(Err(ErrorView::NotFound(None)))
            },
            (
                PhaseView::AwaitString { method, cells, strings, index },
                ReplyView::Handle(string),
            ) => call.spec_begin_encoding(
                method,
                cells.push(jvalue { data: call.args[index].spec_encode(string) }),
                strings.push(string),
                index + 1,
            ),
            (PhaseView::AwaitResult { strings }, ReplyView::Cell(cell)) => Step::Ask(
                (
                    DispatchView { call, phase: PhaseView::AwaitFlag { cell, strings } },
                    RequestView::ExceptionCheck,
                ),
            ),
            (PhaseView::AwaitFlag { cell, strings }, ReplyView::Flag(pending)) => if pending {
                Step::Ask(
                    (
                        DispatchView {
                            call,
                            phase: PhaseView::Translating {
                                lookup: false,
                                strings,
                                translation: TranslationView::AwaitThrown,
                            },
                        },
                        RequestView::ExceptionOccurred,
                    ),
                )
            } else {
                call.spec_finish(cell, strings)
            },
            (
                PhaseView::Translating { lookup, strings, translation },
                _,
            ) => match translation.spec_step(reply) {
                Step::Ask(next) => Step::Ask(
                    (
                        DispatchView {
                            call,
                            phase: PhaseView::Translating { lookup, strings, translation: next },
                        },
                        next.spec_request(),
                    ),
                ),
                Step::Done(error) => call.spec_release(
                    strings,
                    0,
                    if lookup {
                        Err(
                            ErrorView::NotFound(
                                match error {
                                    ErrorView::Exception(info) => Some(info),
                                    _ => None,
                                },
                            ),
                        )
                    } else {
                        Err(error)
                    },
                ),
            },
            (PhaseView::AwaitText { cell, strings }, ReplyView::Text(text)) => call.spec_release(
                strings,
                0,
                Ok(spec_decode(cell.data, call.return_type, text)),
            ),
            (
                PhaseView::Releasing { strings, index, outcome },
                ReplyView::Nothing,
            ) => call.spec_release(strings, index + 1, outcome),
            _ => Step::Done(Err(ErrorView::NotFound(None))),
        }
    }
}

/// While an exception is pending, a call asks the runtime for nothing but
/// the exception and its clearing, and it does not end before the
/// exception was cleared. A flag that says that an exception is pending is
/// followed at once by the request for the exception.
pub proof fn lemma_dispatch_drains_first(state: DispatchView, reply: ReplyView)
    requires
        state.wf(),
        state.accepts(reply),
    ensures
        match state.spec_step(reply) {
            Step::Ask((next, request)) => {
                &&& next.pending() ==> request.drains()
                &&& !state.pending() && next.pending() ==> reply == ReplyView::Flag(true)
                    && request is ExceptionOccurred
                &&& reply == ReplyView::Flag(true) ==> next.pending()
            },
            Step::Done(_) => !state.pending() && reply != ReplyView::Flag(true),
        },
{
}

/// After every call of the member, the runtime is asked whether an
/// exception is pending, whatever the call returned: the returned cell is
/// kept aside until the runtime has answered.
pub proof fn lemma_checked_after_every_call(state: DispatchView, cell: jvalue)
    requires
        state.wf(),
        state.phase is AwaitResult,
    ensures
        state.spec_step(ReplyView::Cell(cell)) matches Step::Ask((next, request))
            && request is ExceptionCheck && next.phase is AwaitFlag && next.phase->AwaitFlag_cell
            == cell,
{
}

/// Whatever a call asks the runtime to call goes through an entry of the
/// function table that is vetted: the entry that makes an object, for the
/// constructor, or a call entry of the table's layout. The member itself
/// is called through the array-form entry of its return type's category.
pub proof fn lemma_invoke_slots(state: DispatchView, reply: ReplyView)
    requires
        state.wf(),
        state.accepts(reply),
    ensures
        state.spec_step(reply) matches Step::Ask((next, RequestView::Invoke { slot, .. })) ==> {
            &&& slot < ENTRIES
            &&& slot == NEW_OBJECT_A || spec_entry_at(slot as int) is Some
            &&& next.phase is AwaitResult ==> slot == state.call.spec_slot() && (
            state.call.member is Constructor || spec_entry_at(slot as int) == Some(
                CallEntry {
                    is_static: state.call.member is Static,
                    group: state.call.return_type.spec_group(),
                    form: CallForm::Array,
                },
            ))
        },
{
}

/// The outcome that a step arrives at, if it arrives at one: the outcome
/// with which the call ends, or the outcome that the call keeps while it
/// gives up its runtime strings.
pub open spec fn outcome_of(step: DispatchStep) -> Option<OutcomeView> {
    match step {
        Step::Done(outcome) => Some(outcome),
        Step::Ask((next, _)) => match next.phase {
            PhaseView::Releasing { outcome, .. } => Some(outcome),
            _ => None,
        },
    }
}

/// Each way in which a call can arrive at its outcome has one kind of
/// outcome. A value comes only after the runtime said that no exception is
/// pending; `NotFound` without an exception only after it said so of a
/// lookup that found nothing; `NotFound` with an exception only from the
/// translation of what the lookup raised; and `Exception` only from the
/// translation of what the member threw. While the runtime strings are
/// given up, the outcome stays what it is.
pub proof fn lemma_dispatch_outcomes(state: DispatchView, reply: ReplyView)
    requires
        state.wf(),
        state.accepts(reply),
        outcome_of(state.spec_step(reply)) is Some,
    ensures
        match (state.phase, outcome_of(state.spec_step(reply))->0) {
            (PhaseView::Releasing { outcome: kept, .. }, outcome) => outcome == kept,
            (PhaseView::AwaitFlag { .. }, outcome) => reply == ReplyView::Flag(false)
                && outcome is Ok,
            (PhaseView::AwaitText { .. }, outcome) => outcome is Ok,
            (PhaseView::AwaitLookupFlag, outcome) => reply == ReplyView::Flag(false) && outcome
                == Err::<ValueView, ErrorView>(ErrorView::NotFound(None)),
            (PhaseView::Translating { lookup, .. }, Err(ErrorView::NotFound(Some(_)))) => lookup,
            (PhaseView::Translating { lookup, .. }, Err(ErrorView::Exception(_))) => !lookup,
            _ => false,
        },
{
}

/// The runtime strings that a call makes for its string arguments are
/// held from the reply that brings them until they are given up, and a
/// call does not end while it holds one. A reply to the request for a new
/// string adds the string to those held; a reply to a release takes the
/// released string, the first of those held, from them; no other reply
/// changes what is held.
pub proof fn lemma_strings_are_released(state: DispatchView, reply: ReplyView)
    requires
        state.wf(),
        state.accepts(reply),
    ensures
        match state.spec_step(reply) {
            Step::Ask((next, request)) => {
                &&& next.wf()
                &&& next.held() == if state.phase is AwaitString {
                    state.held().push(reply->Handle_0)
                } else if state.phase is Releasing {
                    state.held().drop_first()
                } else {
                    state.held()
                }
                &&& request is DeleteLocalRef <==> next.phase is Releasing
                &&& next.phase is Releasing ==> request == (RequestView::DeleteLocalRef {
                    object: next.held().first(),
                })
            },
            Step::Done(_) => state.held().len() == 0 || (state.phase is Releasing
                && state.held().len() == 1),
        },
{
    match state.spec_step(reply) {
        Step::Ask((next, request)) => {
            lemma_step_keeps_wf(state, reply);
            if state.phase is Releasing {
                assert(next.held() =~= state.held().drop_first());
            } else if state.phase is AwaitString {
                assert(next.held() =~= state.held().push(reply->Handle_0));
            } else {
                assert(next.held() =~= state.held());
            }
        },
        Step::Done(_) => {},
    }
}

/// A step leads from a well-formed state to a well-formed state.
pub proof fn lemma_step_keeps_wf(state: DispatchView, reply: ReplyView)
    requires
        state.wf(),
        state.accepts(reply),
    ensures
        state.spec_step(reply) matches Step::Ask((next, _)) ==> next.wf(),
{
    let args = state.call.args;
    match state.phase {
        PhaseView::AwaitClass => {
            lemma_next_of(args, 0, true);
            assert(args.take(0) =~= Seq::empty());
            lemma_object_count_skip(args, 0, next_of(args, 0, true));
        },
        PhaseView::Naming { index, query, .. } => {
            if query.spec_step(reply) is Done {
                lemma_next_of(args, index + 1, true);
                assert(args.take(index + 1).drop_last() =~= args.take(index));
                lemma_object_count_skip(args, index + 1, next_of(args, index + 1, true));
            }
        },
        PhaseView::AwaitMember => {
            lemma_next_of(args, 0, false);
            assert(args.take(0) =~= Seq::empty());
            lemma_encoding_extends(
                args,
                Seq::empty(),
                Seq::empty(),
                0,
                next_of(args, 0, false),
            );
        },
        PhaseView::AwaitString { cells, strings, index, .. } => {
            let string = reply->Handle_0;
            lemma_next_of(args, index + 1, false);
            lemma_string_cell(args, cells, strings, index, string);
            lemma_encoding_extends(
                args,
                cells.push(jvalue { data: args[index].spec_encode(string) }),
                strings.push(string),
                index + 1,
                next_of(args, index + 1, false),
            );
        },
        _ => {},
    }
}

/// The search for the next object or string ends at or after the place
/// where it began and not after the end of the list; it ends at a value of
/// the kind that is looked for, if it ends inside the list; and it passes
/// none of that kind.
pub proof fn lemma_next_of(args: Seq<ValueView>, from: int, object: bool)
    requires
        0 <= from <= args.len(),
    ensures
        from <= next_of(args, from, object) <= args.len(),
        next_of(args, from, object) < args.len() ==> (if object {
            args[next_of(args, from, object)] is Object
        } else {
            args[next_of(args, from, object)] is Str
        }),
        forall|i: int|
            from <= i < next_of(args, from, object) ==> !(if object {
                #[trigger] args[i] is Object
            } else {
                args[i] is Str
            }),
    decreases args.len() - from,
{
    if from < args.len() && !((object && args[from] is Object) || (!object && args[from] is Str)) {
        lemma_next_of(args, from + 1, object);
    }
}

/// Values that are no objects do not count among the objects.
pub proof fn lemma_object_count_skip(args: Seq<ValueView>, from: int, to: int)
    requires
        0 <= from <= to <= args.len(),
        forall|i: int| from <= i < to ==> !(#[trigger] args[i] is Object),
    ensures
        object_count(args.take(to)) == object_count(args.take(from)),
    decreases to - from,
{
    if from < to {
        assert(args.take(to).drop_last() =~= args.take(to - 1));
        lemma_object_count_skip(args, from, to - 1);
    }
}

/// Cells that carry the values before a place go on carrying the values
/// up to a later place, if the values between the two places are no
/// strings and get their own cells; and the cells of the strings stay
/// what they are.
pub proof fn lemma_encoding_extends(
    args: Seq<ValueView>,
    cells: Seq<jvalue>,
    strings: Seq<u64>,
    from: int,
    to: int,
)
    requires
        0 <= from <= to <= args.len(),
        carries(args.take(from), cells),
        strings == string_cells(args.take(from), cells),
        forall|i: int| from <= i < to ==> !(#[trigger] args[i] is Str),
    ensures
        carries(args.take(to), cells + plain_cells(args.subrange(from, to))),
        string_cells(args.take(to), cells + plain_cells(args.subrange(from, to))) == strings,
    decreases to - from,
{
    if from == to {
        assert(cells + plain_cells(args.subrange(from, to)) =~= cells);
    } else {
        lemma_encoding_extends(args, cells, strings, from, to - 1);
        let before = cells + plain_cells(args.subrange(from, to - 1));
        let cell = jvalue { data: args[to - 1].spec_encode(0) };
        let after = cells + plain_cells(args.subrange(from, to));
        assert(after =~= before.push(cell));
        assert(after.drop_last() =~= before);
        assert(args.take(to).drop_last() =~= args.take(to - 1));
        assert forall|j: int| 0 <= j < to implies (#[trigger] after[j]).data == args.take(
            to,
        )[j].spec_encode(after[j].data) by {
            if j < to - 1 {
                assert(after[j] == before[j]);
                assert(args.take(to)[j] == args.take(to - 1)[j]);
            }
        }
    }
}

/// Cells that carry the values before a string go on carrying the values
/// up to and with the string, once the string has the cell of its runtime
/// string; and that runtime string is the last among the cells of the
/// strings.
pub proof fn lemma_string_cell(
    args: Seq<ValueView>,
    cells: Seq<jvalue>,
    strings: Seq<u64>,
    index: int,
    string: u64,
)
    requires
        0 <= index < args.len(),
        args[index] is Str,
        carries(args.take(index), cells),
        strings == string_cells(args.take(index), cells),
    ensures
        carries(
            args.take(index + 1),
            cells.push(jvalue { data: args[index].spec_encode(string) }),
        ),
        string_cells(
            args.take(index + 1),
            cells.push(jvalue { data: args[index].spec_encode(string) }),
        ) == strings.push(string),
{
    let after = cells.push(jvalue { data: args[index].spec_encode(string) });
    assert(after.drop_last() =~= cells);
    assert(args.take(index + 1).drop_last() =~= args.take(index));
    assert forall|j: int| 0 <= j < index + 1 implies (#[trigger] after[j]).data == args.take(
        index + 1,
    )[j].spec_encode(after[j].data) by {
        if j < index {
            assert(after[j] == cells[j]);
            assert(args.take(index + 1)[j] == args.take(index)[j]);
        }
    }
}

/// When the member is looked up, it is looked up by the name that the
/// caller gave, among the static methods exactly for a static method, and
/// by the signature of the call's arguments and return type, with the
/// class names that the runtime gave for the objects among the arguments,
/// one for each in order. A constructor or a static method is looked up in
/// the class that the call is made on; a method of an object in the class
/// that the runtime gave for the object.
pub proof fn lemma_lookup_request(state: DispatchView, reply: ReplyView)
    requires
        state.wf(),
        state.accepts(reply),
    ensures
        state.spec_step(reply) matches Step::Ask(
            (next, RequestView::Method { class, name, signature, is_static }),
        ) ==> next.phase is AwaitMember ==> {
            let names = match state.phase {
                PhaseView::Naming { names, .. } => names.push(reply->Text_0),
                _ => Seq::empty(),
            };
            &&& name == state.call.name
            &&& is_static == (state.call.member is Static)
            &&& names.len() == object_count(state.call.args)
            &&& signature == spec_function_signature(
                state.call.args,
                names,
                state.call.return_type,
            )
            &&& !(state.call.member is Instance) ==> class == state.call.target
            &&& state.phase is AwaitClass ==> class == reply->Handle_0
        },
{
    let args = state.call.args;
    match state.phase {
        PhaseView::AwaitClass => {
            lemma_next_of(args, 0, true);
            assert(args.take(0) =~= Seq::empty());
            lemma_object_count_skip(args, 0, next_of(args, 0, true));
            assert(args.take(args.len() as int) =~= args);
        },
        PhaseView::Naming { index, query, .. } => {
            if query.spec_step(reply) is Done {
                lemma_next_of(args, index + 1, true);
                assert(args.take(index + 1).drop_last() =~= args.take(index));
                lemma_object_count_skip(args, index + 1, next_of(args, index + 1, true));
                assert(args.take(args.len() as int) =~= args);
            }
        },
        _ => {},
    }
}

/// When the member is called, the cells that it is called with carry the
/// arguments of the call, one cell for each argument in order; and the
/// runtime strings that the call holds are those in the cells of its
/// string arguments, in order.
pub proof fn lemma_invoke_arguments(state: DispatchView, reply: ReplyView)
    requires
        state.wf(),
        state.accepts(reply),
    ensures
        state.spec_step(reply) matches Step::Ask((next, RequestView::Invoke { args, target, .. }))
            ==> next.phase is AwaitResult ==> {
            &&& target == state.call.target
            &&& carries(state.call.args, args)
            &&& next.held() == string_cells(state.call.args, args)
        },
{
    let all = state.call.args;
    match state.phase {
        PhaseView::AwaitMember => {
            lemma_next_of(all, 0, false);
            assert(all.take(0) =~= Seq::empty());
            lemma_encoding_extends(all, Seq::empty(), Seq::empty(), 0, next_of(all, 0, false));
            assert(all.take(all.len() as int) =~= all);
        },
        PhaseView::AwaitString { cells, strings, index, .. } => {
            let string = reply->Handle_0;
            lemma_next_of(all, index + 1, false);
            lemma_string_cell(all, cells, strings, index, string);
            lemma_encoding_extends(
                all,
                cells.push(jvalue { data: all[index].spec_encode(string) }),
                strings.push(string),
                index + 1,
                next_of(all, index + 1, false),
            );
            assert(all.take(all.len() as int) =~= all);
        },
        _ => {},
    }
}

/// Where none of the values from `from` on is of the kind that is looked
/// for, the search ends at the length of the list.
proof fn lemma_next_of_none(args: Seq<ValueView>, from: int, object: bool)
    requires
        0 <= from <= args.len(),
        forall|i: int|
            from <= i < args.len() ==> !(if object {
                #[trigger] args[i] is Object
            } else {
                args[i] is Str
            }),
    ensures
        next_of(args, from, object) == args.len(),
    decreases args.len() - from,
{
    if from < args.len() {
        lemma_next_of_none(args, from + 1, object);
    }
}

/// A call whose arguments are numbers, characters and booleans, of a
/// constructor or a static method, goes through four requests. The member
/// is looked up in the class by its name and signature. If it is found, it
/// is called through the slot of its return type with the cells of the
/// arguments. Then the runtime is asked whether an exception is pending.
/// If none is, the call ends with the new object or with the value that
/// the returned cell holds; a returned string is read first. If the member
/// is not found, the runtime is asked about an exception instead, and with
/// none pending the call ends with `NotFound`.
pub proof fn lemma_plain_call(call: CallView, method: u64, cell: jvalue)
    requires
        !(call.member is Instance),
        forall|i: int| 0 <= i < call.args.len() ==> (#[trigger] call.args[i]).is_primitive(),
        method != 0,
    ensures
        call.wf(),
        ({
            let lookup = DispatchView { call, phase: PhaseView::AwaitMember };
            let missing = DispatchView { call, phase: PhaseView::AwaitLookupFlag };
            let invoke = DispatchView {
                call,
                phase: PhaseView::AwaitResult { strings: Seq::empty() },
            };
            let check = DispatchView {
                call,
                phase: PhaseView::AwaitFlag { cell, strings: Seq::empty() },
            };
            &&& call.spec_start() == DispatchStep::Ask(
                (
                    lookup,
                    RequestView::Method {
                        class: call.target,
                        name: call.name,
                        signature: spec_function_signature(
                            call.args,
                            Seq::empty(),
                            call.return_type,
                        ),
                        is_static: call.member is Static,
                    },
                ),
            )
            &&& lookup.spec_step(ReplyView::Handle(0)) == DispatchStep::Ask(
                (missing, RequestView::ExceptionCheck),
            )
            &&& missing.spec_step(ReplyView::Flag(false)) == DispatchStep::Done(
                Err(ErrorView::NotFound(None)),
            )
            &&& lookup.spec_step(ReplyView::Handle(method)) == DispatchStep::Ask(
                (
                    invoke,
                    RequestView::Invoke {
                        slot: call.spec_slot(),
                        target: call.target,
                        method,
                        args: plain_cells(call.args),
                    },
                ),
            )
            &&& invoke.spec_step(ReplyView::Cell(cell)) == DispatchStep::Ask(
                (check, RequestView::ExceptionCheck),
            )
            &&& check.spec_step(ReplyView::Flag(false)) == if call.member is Constructor {
                DispatchStep::Done(Ok(ValueView::Object(Object { raw: cell.data })))
            } else if call.return_type is Str {
                DispatchStep::Ask(
                    (
                        DispatchView {
                            call,
                            phase: PhaseView::AwaitText { cell, strings: Seq::empty() },
                        },
                        RequestView::ReadString { string: cell.data },
                    ),
                )
            } else {
                DispatchStep::Done(Ok(spec_decode(cell.data, call.return_type, Seq::empty())))
            }
        }),
{
    lemma_next_of_none(call.args, 0, true);
    lemma_next_of_none(call.args, 0, false);
    assert(call.args.subrange(0, call.args.len() as int) =~= call.args);
    assert(Seq::<jvalue>::empty() + plain_cells(call.args) =~= plain_cells(call.args));
}

} // verus!
