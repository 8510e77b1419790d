//! Types and values of the runtime as native data, and the text by which
//! the runtime names a type in a member's signature.

use vstd::prelude::*;

verus! {

/// An opaque reference to an object of the runtime. The library never looks
/// inside the reference: it hands it back to the runtime as it came.
#[derive(Debug, Clone, Copy, PartialEq, Eq)]
pub struct Object {
    pub raw: u64,
}

/// An opaque reference to a class of the runtime.
#[derive(Debug, Clone, Copy, PartialEq, Eq)]
pub struct Class {
    pub raw: u64,
}

/// The type of a value that a method takes or returns.
#[derive(Debug, Clone, Copy, PartialEq, Eq)]
pub enum Type {
    Boolean,
    Byte,
    Char,
    Short,
    Int,
    Long,
    Float,
    Double,
    Str,
    Void,
    /// An object of the class with this fully qualified name, its packages
    /// separated by `/`, as in `java/lang/String`.
    Object(&'static str),
}

/// The fully qualified name of the runtime's string class.
pub open spec fn string_class() -> Seq<char> {
    seq!['j', 'a', 'v', 'a', '/', 'l', 'a', 'n', 'g', '/', 'S', 't', 'r', 'i', 'n', 'g']
}

/// How a signature names a class: `L`, the fully qualified name, `;`.
pub open spec fn class_descriptor(name: Seq<char>) -> Seq<char> {
    seq!['L'] + name + seq![';']
}

impl Type {
    /// Whether a value of this type is a reference to an object of the
    /// runtime rather than a number.
    pub open spec fn is_reference(self) -> bool {
        self is Str || self is Object
    }

    /// The fixed text with which the type's name in a signature begins: the
    /// whole name for every type but a class, which has its own name
    /// appended (see [`Type::descriptor`]).
    pub open spec fn spec_signature(self) -> Seq<char> {
        match self {
            Type::Boolean => seq!['Z'],
            Type::Byte => seq!['B'],
            Type::Char => seq!['C'],
            Type::Short => seq!['S'],
            Type::Int => seq!['I'],
            Type::Long => seq!['J'],
            Type::Float => seq!['F'],
            Type::Double => seq!['D'],
            Type::Str => class_descriptor(string_class()),
            Type::Void => seq!['V'],
            Type::Object(_) => seq!['L'],
        }
    }

    /// The name of the type in a signature: one letter for a number, a
    /// boolean or void, and `L`, the class name and `;` for a reference.
    pub open spec fn descriptor(self) -> Seq<char> {
        match self {
            Type::Object(name) => class_descriptor(name@),
            _ => self.spec_signature(),
        }
    }

    /// The fixed text with which the type's name in a signature begins.
    pub fn signature(&self) -> (code: &'static str)
        ensures
            code@ == self.spec_signature(),
    {
        proof {
            reveal_strlit("Z");
            reveal_strlit("B");
            reveal_strlit("C");
            reveal_strlit("S");
            reveal_strlit("I");
            reveal_strlit("J");
            reveal_strlit("F");
            reveal_strlit("D");
            reveal_strlit("Ljava/lang/String;");
            reveal_strlit("V");
            reveal_strlit("L");
        }
        let code = match self {
            Type::Boolean => "Z",
            Type::Byte => "B",
            Type::Char => "C",
            Type::Short => "S",
            Type::Int => "I",
            Type::Long => "J",
            Type::Float => "F",
            Type::Double => "D",
            Type::Str => "Ljava/lang/String;",
            Type::Void => "V",
            Type::Object(_) => "L",
        };
        assert(code@ =~= self.spec_signature());
        code
    }
}

/// A value passed to a method or returned by one. A single- or
/// double-precision number is held as its bit pattern.
#[derive(Debug, Clone, PartialEq, Eq)]
pub enum Value {
    Boolean(bool),
    Byte(i8),
    Char(char),
    Short(i16),
    Int(i32),
    Long(i64),
    Float(u32),
    Double(u64),
    Str(String),
    Object(Object),
    Void,
}

/// What a [`Value`] holds, with text as a sequence of characters.
pub enum ValueView {
    Boolean(bool),
    Byte(i8),
    Char(char),
    Short(i16),
    Int(i32),
    Long(i64),
    Float(u32),
    Double(u64),
    Str(Seq<char>),
    Object(Object),
    Void,
}

impl View for Value {
    type V = ValueView;

    open spec fn view(&self) -> ValueView {
        match self {
            Value::Boolean(v) => ValueView::Boolean(*v),
            Value::Byte(v) => ValueView::Byte(*v),
            Value::Char(v) => ValueView::Char(*v),
            Value::Short(v) => ValueView::Short(*v),
            Value::Int(v) => ValueView::Int(*v),
            Value::Long(v) => ValueView::Long(*v),
            Value::Float(v) => ValueView::Float(*v),
            Value::Double(v) => ValueView::Double(*v),
            Value::Str(v) => ValueView::Str(v@),
            Value::Object(v) => ValueView::Object(*v),
            Value::Void => ValueView::Void,
        }
    }
}

/// The texts of a list of strings, in order.
pub open spec fn texts(strings: Seq<String>) -> Seq<Seq<char>> {
    strings.map_values(|s: String| s@)
}

/// The views of a list of values, in order.
pub open spec fn views(values: Seq<Value>) -> Seq<ValueView> {
    values.map_values(|v: Value| v@)
}

impl ValueView {
    /// The fixed text with which the name of the value's type in a
    /// signature begins: as for [`Type::spec_signature`].
    pub open spec fn spec_signature(self) -> Seq<char> {
        match self {
            ValueView::Boolean(_) => seq!['Z'],
            ValueView::Byte(_) => seq!['B'],
            ValueView::Char(_) => seq!['C'],
            ValueView::Short(_) => seq!['S'],
            ValueView::Int(_) => seq!['I'],
            ValueView::Long(_) => seq!['J'],
            ValueView::Float(_) => seq!['F'],
            ValueView::Double(_) => seq!['D'],
            ValueView::Str(_) => class_descriptor(string_class()),
            ValueView::Void => seq!['V'],
            ValueView::Object(_) => seq!['L'],
        }
    }

    /// Whether the value is a number, a character or a boolean.
    pub open spec fn is_primitive(self) -> bool {
        !(self is Str) && !(self is Object) && !(self is Void)
    }
}

impl Value {
    /// The fixed text with which the name of the value's type in a
    /// signature begins.
    pub fn signature(&self) -> (code: &'static str)
        ensures
            code@ == self@.spec_signature(),
    {
        proof {
            reveal_strlit("Z");
            reveal_strlit("B");
            reveal_strlit("C");
            reveal_strlit("S");
            reveal_strlit("I");
            reveal_strlit("J");
            reveal_strlit("F");
            reveal_strlit("D");
            reveal_strlit("Ljava/lang/String;");
            reveal_strlit("V");
            reveal_strlit("L");
        }
        let code = match self {
            Value::Boolean(_) => "Z",
            Value::Byte(_) => "B",
            Value::Char(_) => "C",
            Value::Short(_) => "S",
            Value::Int(_) => "I",
            Value::Long(_) => "J",
            Value::Float(_) => "F",
            Value::Double(_) => "D",
            Value::Str(_) => "Ljava/lang/String;",
            Value::Void => "V",
            Value::Object(_) => "L",
        };
        assert(code@ =~= self@.spec_signature());
        code
    }

    /// The boolean that the value holds.
    pub fn as_bool(self) -> (value: bool)
        requires
            self is Boolean,
        ensures
            self@ == ValueView::Boolean(value),
    {
        match self {
            Value::Boolean(value) => value,
            _ => unreached(),
        }
    }

    /// The byte that the value holds.
    pub fn as_byte(self) -> (value: i8)
        requires
            self is Byte,
        ensures
            self@ == ValueView::Byte(value),
    {
        match self {
            Value::Byte(value) => value,
            _ => unreached(),
        }
    }

    /// The character that the value holds.
    pub fn as_char(self) -> (value: char)
        requires
            self is Char,
        ensures
            self@ == ValueView::Char(value),
    {
        match self {
            Value::Char(value) => value,
            _ => unreached(),
        }
    }

    /// The short that the value holds.
    pub fn as_short(self) -> (value: i16)
        requires
            self is Short,
        ensures
            self@ == ValueView::Short(value),
    {
        match self {
            Value::Short(value) => value,
            _ => unreached(),
        }
    }

    /// The int that the value holds.
    pub fn as_int(self) -> (value: i32)
        requires
            self is Int,
        ensures
            self@ == ValueView::Int(value),
    {
        match self {
            Value::Int(value) => value,
            _ => unreached(),
        }
    }

    /// The long that the value holds.
    pub fn as_long(self) -> (value: i64)
        requires
            self is Long,
        ensures
            self@ == ValueView::Long(value),
    {
        match self {
            Value::Long(value) => value,
            _ => unreached(),
        }
    }

    /// The bit pattern of the single-precision number that the value holds.
    pub fn as_float(self) -> (value: u32)
        requires
            self is Float,
        ensures
            self@ == ValueView::Float(value),
    {
        match self {
            Value::Float(value) => value,
            _ => unreached(),
        }
    }

    /// The bit pattern of the double-precision number that the value holds.
    pub fn as_double(self) -> (value: u64)
        requires
            self is Double,
        ensures
            self@ == ValueView::Double(value),
    {
        match self {
            Value::Double(value) => value,
            _ => unreached(),
        }
    }

    /// The object that the value holds.
    pub fn as_object(self) -> (value: Object)
        requires
            self is Object,
        ensures
            self@ == ValueView::Object(value),
    {
        match self {
            Value::Object(value) => value,
            _ => unreached(),
        }
    }

    /// The text that the value holds.
    pub fn as_str(self) -> (value: String)
        requires
            self is Str,
        ensures
            self@ == ValueView::Str(value@),
    {
        match self {
            Value::Str(value) => value,
            _ => unreached(),
        }
    }
}

} // verus!
