//! The value codec: a native value into a 64-bit cell of the runtime, and a
//! cell back into a native value of an expected type.

use vstd::prelude::*;
use crate::ffi::{jvalue, low16, low32, low8, sign_extended, signed, JNI_TRUE};
use crate::value::{Object, Type, Value, ValueView};

verus! {

/// The character that stands for a 16-bit code that is no character of its
/// own (one half of a surrogate pair).
pub const REPLACEMENT: char = '\u{FFFD}';

/// Whether a number is the code of a character: any number up to `0x10FFFF`
/// outside the surrogate range.
pub open spec fn is_scalar(code: int) -> bool {
    0 <= code < 0xD800 || 0xE000 <= code <= 0x10_FFFF
}

/// `char::from_u32` of std: the character with the given code, and `None`
/// exactly for a number that is the code of no character.
#[verifier::external_body]
fn char_from_u32(code: u32) -> (c: Option<char>)
    ensures
        c is Some <==> is_scalar(code as int),
        c is Some ==> c->0 as int == code as int,
{
    char::from_u32(code)
}

impl ValueView {
    /// Whether the value is of the given type. An object is of every class
    /// type: the library does not know the class of a reference.
    pub open spec fn has_type(self, kind: Type) -> bool {
        match self {
            ValueView::Boolean(_) => kind is Boolean,
            ValueView::Byte(_) => kind is Byte,
            ValueView::Char(_) => kind is Char,
            ValueView::Short(_) => kind is Short,
            ValueView::Int(_) => kind is Int,
            ValueView::Long(_) => kind is Long,
            ValueView::Float(_) => kind is Float,
            ValueView::Double(_) => kind is Double,
            ValueView::Str(_) => kind is Str,
            ValueView::Object(_) => kind is Object,
            ValueView::Void => kind is Void,
        }
    }

    /// The cell that carries the value to the runtime. A boolean is 1 or 0;
    /// a signed number is widened with its sign; a character is its code; a
    /// bit pattern is widened with zeros; an object is its reference; a
    /// string is `string`, the reference of the runtime string made from
    /// its text. `Void` has no cell.
    pub open spec fn spec_encode(self, string: u64) -> u64
        recommends
            !(self is Void),
    {
        match self {
            ValueView::Boolean(v) => if v { 1u64 } else { 0u64 },
            ValueView::Byte(v) => sign_extended(v as int) as u64,
            ValueView::Char(v) => v as u64,
            ValueView::Short(v) => sign_extended(v as int) as u64,
            ValueView::Int(v) => sign_extended(v as int) as u64,
            ValueView::Long(v) => sign_extended(v as int) as u64,
            ValueView::Float(v) => v as u64,
            ValueView::Double(v) => v,
            ValueView::Str(_) => string,
            ValueView::Object(v) => v.raw,
            ValueView::Void => 0u64,
        }
    }
}

/// The character for a 16-bit code of the runtime: the character with that
/// code, or [`REPLACEMENT`] for one half of a surrogate pair.
pub open spec fn spec_char(code: int) -> char {
    if is_scalar(code) {
        code as char
    } else {
        REPLACEMENT
    }
}

/// The value of type `kind` that a cell holds: read from the low bits of
/// the cell, as many as the type is wide, and from no others. A boolean is
/// true exactly for 1. A string is `text`, the text of the runtime string
/// that the cell refers to.
pub open spec fn spec_decode(data: u64, kind: Type, text: Seq<char>) -> ValueView {
    match kind {
        Type::Boolean => ValueView::Boolean(low8(data) == 1),
        Type::Byte => ValueView::Byte(signed(low8(data), 0x80) as i8),
        Type::Char => ValueView::Char(spec_char(low16(data))),
        Type::Short => ValueView::Short(signed(low16(data), 0x8000) as i16),
        Type::Int => ValueView::Int(signed(low32(data), 0x8000_0000) as i32),
        Type::Long => ValueView::Long(signed(data as int, 0x8000_0000_0000_0000) as i64),
        Type::Float => ValueView::Float(low32(data) as u32),
        Type::Double => ValueView::Double(data),
        Type::Str => ValueView::Str(text),
        Type::Void => ValueView::Void,
        Type::Object(_) => ValueView::Object(Object { raw: data }),
    }
}

impl Value {
    /// Converts the value into a cell to pass to the runtime as an
    /// argument. `string` is the reference of the runtime string made from
    /// the text, where the value is a `Str`; it is not read otherwise.
    pub fn to_jvalue(&self, string: u64) -> (cell: jvalue)
        requires
            !(self is Void),
        ensures
            cell.data == self@.spec_encode(string),
    {
        let data: u64 = match self {
            Value::Boolean(v) => if *v {
                1
            } else {
                0
            },
            Value::Byte(v) => {
                let v: i8 = *v;
                assert(v as u64 == if v < 0 {
                    v + 0x1_0000_0000_0000_0000
                } else {
                    v as int
                }) by (bit_vector);
                v as u64
            },
            Value::Char(v) => {
                let code: u32 = *v as u32;
                code as u64
            },
            Value::Short(v) => {
                let v: i16 = *v;
                assert(v as u64 == if v < 0 {
                    v + 0x1_0000_0000_0000_0000
                } else {
                    v as int
                }) by (bit_vector);
                v as u64
            },
            Value::Int(v) => {
                let v: i32 = *v;
                assert(v as u64 == if v < 0 {
                    v + 0x1_0000_0000_0000_0000
                } else {
                    v as int
                }) by (bit_vector);
                v as u64
            },
            Value::Long(v) => {
                let v: i64 = *v;
                assert(v as u64 == if v < 0 {
                    v + 0x1_0000_0000_0000_0000
                } else {
                    v as int
                }) by (bit_vector);
                v as u64
            },
            Value::Float(v) => *v as u64,
            Value::Double(v) => *v,
            Value::Object(v) => v.raw,
            Value::Str(_) => string,
            Value::Void => 0,
        };
        jvalue { data }
    }

    /// Converts a cell that the runtime returned into the value of type
    /// `kind` that it holds. `text` is the text of the runtime string that
    /// the cell refers to, where `kind` is `Str`; it is dropped otherwise.
    pub fn from_jvalue(value: jvalue, kind: &Type, text: String) -> (v: Value)
        ensures
            v@ == spec_decode(value.data, *kind, text@),
    {
        match kind {
            Type::Boolean => Value::Boolean(value.z() == JNI_TRUE),
            Type::Byte => Value::Byte(value.b()),
            Type::Char => {
                let code: u16 = value.c();
                match char_from_u32(code as u32) {
                    Some(c) => {
                        Value::Char(c)
                    },
                    None => {
                        Value::Char(REPLACEMENT)
                    },
                }
            },
            Type::Short => Value::Short(value.s()),
            Type::Int => Value::Int(value.i()),
            Type::Long => Value::Long(value.j()),
            Type::Float => Value::Float(value.f()),
            Type::Double => Value::Double(value.d()),
            Type::Void => Value::Void,
            Type::Object(_) => Value::Object(Object { raw: value.l() }),
            Type::Str => Value::Str(text),
        }
    }
}

/// A number, a character or a boolean comes back from its cell as it went
/// in: decoding the cell of a primitive value, at the value's own type,
/// gives the value. A character must have a code of at most 16 bits, since
/// the runtime's characters are that wide.
pub proof fn lemma_codec_round_trip(v: ValueView, kind: Type, string: u64, text: Seq<char>)
    requires
        v.is_primitive(),
        v.has_type(kind),
        v is Char ==> v->Char_0 as int <= 0xFFFF,
    ensures
        spec_decode(v.spec_encode(string), kind, text) == v,
{
}

} // verus!
