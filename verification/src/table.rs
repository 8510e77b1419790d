//! The layout of the runtime's function table: the slots of the entries
//! that the bridge uses, the layout of the call entries, and the place of
//! each return type in it. A call is dispatched to a slot that is computed
//! from the return type; the table's order is fixed by the runtime, so the
//! computation is held against a description of that order.

use vstd::prelude::*;
use crate::value::Type;

verus! {

/// The number of entries of the function table.
pub const ENTRIES: usize = 229;

/// The slot of the entry that finds a class by its name.
pub const FIND_CLASS: usize = 6;

/// The slot of the entry that gives the superclass of a class.
pub const GET_SUPERCLASS: usize = 10;

/// The slot of the entry that gives the pending exception.
pub const EXCEPTION_OCCURRED: usize = 15;

/// The slot of the entry that clears the pending exception.
pub const EXCEPTION_CLEAR: usize = 17;

/// The slot of the entry that gives up a local reference.
pub const DELETE_LOCAL_REF: usize = 23;

/// The slot of the entry that creates an object and runs a constructor on
/// an array of cells.
pub const NEW_OBJECT_A: usize = 30;

/// The slot of the entry that gives the class of an object.
pub const GET_OBJECT_CLASS: usize = 31;

/// The slot of the entry that tells whether an object is an instance of a
/// class.
pub const IS_INSTANCE_OF: usize = 32;

/// The slot of the entry that looks up a method of an object.
pub const GET_METHOD_ID: usize = 33;

/// The slot of the first call entry for methods of an object.
pub const CALL_METHOD: usize = 34;

/// The slot of the entry that looks up a static method.
pub const GET_STATIC_METHOD_ID: usize = 113;

/// The slot of the first call entry for static methods of a class.
pub const CALL_STATIC_METHOD: usize = 114;

/// The slot of the entry that makes a string of the runtime from text.
pub const NEW_STRING_UTF: usize = 167;

/// The slot of the entry that gives the text of a string of the runtime.
pub const GET_STRING_UTF_CHARS: usize = 169;

/// The slot of the entry that takes back the text that was given.
pub const RELEASE_STRING_UTF_CHARS: usize = 170;

/// The slot of the entry that tells whether an exception is pending.
pub const EXCEPTION_CHECK: usize = 228;

/// The return categories for which the function table holds call entries,
/// in the order in which the table lists them.
#[derive(Debug, Clone, Copy, PartialEq, Eq)]
pub enum ReturnGroup {
    Object,
    Boolean,
    Byte,
    Char,
    Short,
    Int,
    Long,
    Float,
    Double,
    Void,
}

/// The number of return categories.
pub const RETURN_GROUPS: usize = 10;

impl ReturnGroup {
    /// The position of this category among the categories of the table.
    pub open spec fn spec_ordinal(self) -> int {
        match self {
            ReturnGroup::Object => 0,
            ReturnGroup::Boolean => 1,
            ReturnGroup::Byte => 2,
            ReturnGroup::Char => 3,
            ReturnGroup::Short => 4,
            ReturnGroup::Int => 5,
            ReturnGroup::Long => 6,
            ReturnGroup::Float => 7,
            ReturnGroup::Double => 8,
            ReturnGroup::Void => 9,
        }
    }

    /// The category at a position of the table; `Void`, the last one, for
    /// every position that is not below it.
    pub open spec fn spec_at(ordinal: int) -> ReturnGroup {
        if ordinal == 0 {
            ReturnGroup::Object
        } else if ordinal == 1 {
            ReturnGroup::Boolean
        } else if ordinal == 2 {
            ReturnGroup::Byte
        } else if ordinal == 3 {
            ReturnGroup::Char
        } else if ordinal == 4 {
            ReturnGroup::Short
        } else if ordinal == 5 {
            ReturnGroup::Int
        } else if ordinal == 6 {
            ReturnGroup::Long
        } else if ordinal == 7 {
            ReturnGroup::Float
        } else if ordinal == 8 {
            ReturnGroup::Double
        } else {
            ReturnGroup::Void
        }
    }

    /// The category at a position of the table, if the position is one.
    pub fn from_ordinal(ordinal: usize) -> (group: Option<ReturnGroup>)
        ensures
            group is Some <==> ordinal < RETURN_GROUPS,
            group is Some ==> group->0 == ReturnGroup::spec_at(ordinal as int)
                && group->0.spec_ordinal() == ordinal,
    {
        if ordinal == 0 {
            Some(ReturnGroup::Object)
        } else if ordinal == 1 {
            Some(ReturnGroup::Boolean)
        } else if ordinal == 2 {
            Some(ReturnGroup::Byte)
        } else if ordinal == 3 {
            Some(ReturnGroup::Char)
        } else if ordinal == 4 {
            Some(ReturnGroup::Short)
        } else if ordinal == 5 {
            Some(ReturnGroup::Int)
        } else if ordinal == 6 {
            Some(ReturnGroup::Long)
        } else if ordinal == 7 {
            Some(ReturnGroup::Float)
        } else if ordinal == 8 {
            Some(ReturnGroup::Double)
        } else if ordinal == 9 {
            Some(ReturnGroup::Void)
        } else {
            None
        }
    }
}

/// The three entries that the table holds for each return category, in the
/// table's order: arguments in the call itself, as a variadic list, or as an
/// array of cells.
#[derive(Debug, Clone, Copy, PartialEq, Eq)]
pub enum CallForm {
    Plain,
    Variadic,
    Array,
}

/// The number of entries for each return category.
pub const CALL_FORMS: usize = 3;

/// What a call entry of the function table is for.
#[derive(Debug, Clone, Copy, PartialEq, Eq)]
pub struct CallEntry {
    /// Whether the entry calls a static method of a class.
    pub is_static: bool,
    /// The return category of the methods that it calls.
    pub group: ReturnGroup,
    /// How it takes the arguments.
    pub form: CallForm,
}

/// The form at a position inside a return category's entries.
pub open spec fn spec_form_at(position: int) -> CallForm {
    if position == 0 {
        CallForm::Plain
    } else if position == 1 {
        CallForm::Variadic
    } else {
        CallForm::Array
    }
}

/// The layout of the call entries: ten return categories of three forms
/// each, from `CALL_METHOD` for methods of an object and from
/// `CALL_STATIC_METHOD` for static methods. No other slot is a call entry
/// that this library dispatches to.
pub open spec fn spec_entry_at(slot: int) -> Option<CallEntry> {
    if CALL_METHOD <= slot < CALL_METHOD + RETURN_GROUPS * CALL_FORMS {
        Some(
            CallEntry {
                is_static: false,
                group: ReturnGroup::spec_at((slot - CALL_METHOD) / 3),
                form: spec_form_at((slot - CALL_METHOD) % 3),
            },
        )
    } else if CALL_STATIC_METHOD <= slot < CALL_STATIC_METHOD + RETURN_GROUPS * CALL_FORMS {
        Some(
            CallEntry {
                is_static: true,
                group: ReturnGroup::spec_at((slot - CALL_STATIC_METHOD) / 3),
                form: spec_form_at((slot - CALL_STATIC_METHOD) % 3),
            },
        )
    } else {
        None
    }
}

/// The call entry at a slot of the function table, if the slot holds one.
pub fn entry_at(slot: usize) -> (entry: Option<CallEntry>)
    ensures
        entry == spec_entry_at(slot as int),
{
    let is_static = slot >= CALL_STATIC_METHOD;
    let base: usize = if is_static {
        CALL_STATIC_METHOD
    } else {
        CALL_METHOD
    };
    if slot < base || slot - base >= RETURN_GROUPS * CALL_FORMS {
        return None;
    }
    let within: usize = slot - base;
    let position: usize = within % 3;
    let form = if position == 0 {
        CallForm::Plain
    } else if position == 1 {
        CallForm::Variadic
    } else {
        CallForm::Array
    };
    match ReturnGroup::from_ordinal(within / 3) {
        Some(group) => Some(CallEntry { is_static, group, form }),
        None => None,
    }
}

impl Type {
    /// The return category whose call entries serve methods that return
    /// this type. Strings and objects are both returned as references, by
    /// the entries for objects.
    pub open spec fn spec_group(self) -> ReturnGroup {
        match self {
            Type::Object(_) => ReturnGroup::Object,
            Type::Str => ReturnGroup::Object,
            Type::Boolean => ReturnGroup::Boolean,
            Type::Byte => ReturnGroup::Byte,
            Type::Char => ReturnGroup::Char,
            Type::Short => ReturnGroup::Short,
            Type::Int => ReturnGroup::Int,
            Type::Long => ReturnGroup::Long,
            Type::Float => ReturnGroup::Float,
            Type::Double => ReturnGroup::Double,
            Type::Void => ReturnGroup::Void,
        }
    }

    /// The type's ordinal: how many return categories the table lists
    /// before the one of this type.
    pub open spec fn spec_offset(self) -> int {
        self.spec_group().spec_ordinal()
    }

    /// Returns the type's ordinal: the position, among the return
    /// categories of the function table, of the entries that call a method
    /// returning this type.
    pub fn offset(&self) -> (ordinal: usize)
        ensures
            ordinal == self.spec_offset(),
            ordinal < RETURN_GROUPS,
            ReturnGroup::spec_at(ordinal as int) == self.spec_group(),
    {
        match self {
            Type::Object(_) => 0,
            Type::Str => 0,
            Type::Boolean => 1,
            Type::Byte => 2,
            Type::Char => 3,
            Type::Short => 4,
            Type::Int => 5,
            Type::Long => 6,
            Type::Float => 7,
            Type::Double => 8,
            Type::Void => 9,
        }
    }
}

/// The slot through which a method returning `return_type` is called with
/// its arguments in an array of cells: the array-form entry for objects,
/// among the static entries or the others, and three slots on for each
/// ordinal of the type.
pub open spec fn spec_dispatch_slot(is_static: bool, return_type: Type) -> int {
    (if is_static {
        CALL_STATIC_METHOD
    } else {
        CALL_METHOD
    }) + 2 + return_type.spec_offset() * 3
}

/// Returns the slot through which a method returning `return_type` is
/// called with its arguments in an array of cells. The slot holds the
/// array-form entry of the type's return category.
pub fn dispatch_slot(is_static: bool, return_type: &Type) -> (slot: usize)
    ensures
        slot == spec_dispatch_slot(is_static, *return_type),
        spec_entry_at(slot as int) == Some(
            CallEntry { is_static, group: return_type.spec_group(), form: CallForm::Array },
        ),
{
    let base: usize = if is_static {
        CALL_STATIC_METHOD + 2
    } else {
        CALL_METHOD + 2
    };
    base + return_type.offset() * CALL_FORMS
}

/// Every type has an ordinal below the number of return categories, and it
/// is the position of the type's own category in the table.
pub proof fn lemma_offset_mirrors_table(kind: Type)
    ensures
        0 <= kind.spec_offset() < RETURN_GROUPS,
        ReturnGroup::spec_at(kind.spec_offset()) == kind.spec_group(),
{
}

/// No ordinal is left out: each position below the number of return
/// categories is the ordinal of a type.
pub proof fn lemma_offset_no_gaps(ordinal: int)
    requires
        0 <= ordinal < RETURN_GROUPS,
    ensures
        exists|kind: Type| kind.spec_offset() == ordinal,
{
    let kind = match ReturnGroup::spec_at(ordinal) {
        ReturnGroup::Object => Type::Str,
        ReturnGroup::Boolean => Type::Boolean,
        ReturnGroup::Byte => Type::Byte,
        ReturnGroup::Char => Type::Char,
        ReturnGroup::Short => Type::Short,
        ReturnGroup::Int => Type::Int,
        ReturnGroup::Long => Type::Long,
        ReturnGroup::Float => Type::Float,
        ReturnGroup::Double => Type::Double,
        ReturnGroup::Void => Type::Void,
    };
    assert(kind.spec_offset() == ordinal);
}

/// No ordinal is used twice, but for references: two types with the same
/// ordinal are the same type, or both are returned as references (a string
/// or an object of some class).
pub proof fn lemma_offset_no_duplicates(first: Type, second: Type)
    requires
        first.spec_offset() == second.spec_offset(),
    ensures
        first == second || (first.is_reference() && second.is_reference()),
{
}

/// Two calls are dispatched to the same slot only if both are static or
/// both are not and their return types have the same return category.
pub proof fn lemma_slots_distinct(
    first_static: bool,
    first: Type,
    second_static: bool,
    second: Type,
)
    requires
        spec_dispatch_slot(first_static, first) == spec_dispatch_slot(second_static, second),
    ensures
        first_static == second_static,
        first.spec_group() == second.spec_group(),
{
}

} // verus!
