//! The signature builder: from the arguments of a call and its return type
//! to the text by which the runtime looks a member up, `(arguments)return`.

use vstd::prelude::*;
use vstd::string::*;
use crate::value::{class_descriptor, string_class, texts, Type, Value, ValueView, views};

verus! {

/// How many of the values are objects.
pub open spec fn object_count(args: Seq<ValueView>) -> nat
    decreases args.len(),
{
    if args.len() == 0 {
        0
    } else {
        object_count(args.drop_last()) + if args.last() is Object {
            1nat
        } else {
            0nat
        }
    }
}

/// The argument part of a signature: the type names of the arguments, one
/// after the other. The class of the k-th object among the arguments is
/// named by the k-th of `names`.
pub open spec fn spec_arguments(args: Seq<ValueView>, names: Seq<Seq<char>>) -> Seq<char>
    decreases args.len(),
{
    if args.len() == 0 {
        Seq::empty()
    } else {
        let before = args.drop_last();
        if args.last() is Object {
            spec_arguments(before, names) + class_descriptor(names[object_count(before) as int])
        } else {
            spec_arguments(before, names) + args.last().spec_signature()
        }
    }
}

/// The signature of a member that takes `args` and returns `return_type`:
/// `(`, the type names of the arguments, `)`, the type name of the result.
pub open spec fn spec_function_signature(
    args: Seq<ValueView>,
    names: Seq<Seq<char>>,
    return_type: Type,
) -> Seq<char> {
    seq!['('] + spec_arguments(args, names) + seq![')'] + return_type.descriptor()
}

/// Returns the signature of a method with the given arguments and return
/// type. `class_names` holds the fully qualified class name of each object
/// among the arguments, in their order, as the runtime gave it.
pub fn function_signature(args: &[Value], class_names: &[String], return_type: &Type) -> (sig:
    String)
    requires
        class_names@.len() == object_count(views(args@)),
    ensures
        sig@ == spec_function_signature(views(args@), texts(class_names@), *return_type),
{
    let ghost all = views(args@);
    let ghost names = texts(class_names@);
    let mut sig = String::new();
    proof {
        reveal_strlit("(");
        reveal_strlit(")");
        reveal_strlit(";");
    }
    sig.append("(");
    assert(sig@ =~= seq!['('] + spec_arguments(all.take(0), names));
    let mut i: usize = 0;
    let mut objects: usize = 0;
    while i < args.len()
        invariant
            i <= args.len(),
            all == views(args@),
            names == texts(class_names@),
            class_names@.len() == object_count(all),
            objects == object_count(all.take(i as int)),
            sig@ == seq!['('] + spec_arguments(all.take(i as int), names),
            ";"@ == seq![';'],
        decreases args.len() - i,
    {
        let arg = &args[i];
        proof {
            assert(all.take(i + 1).drop_last() =~= all.take(i as int));
            assert(all.take(i + 1).last() == arg@);
            lemma_object_count_take(all, i + 1);
        }
        sig.append(arg.signature());
        if let Value::Object(_) = arg {
            sig.append(class_names[objects].as_str());
            sig.append(";");
            objects = objects + 1;
        }
        assert(sig@ =~= seq!['('] + spec_arguments(all.take(i + 1), names));
        i = i + 1;
    }
    assert(all.take(i as int) =~= all);
    sig.append(")");
    sig.append(return_type.signature());
    if let Type::Object(name) = return_type {
        sig.append(name);
        sig.append(";");
    }
    assert(sig@ =~= spec_function_signature(all, names, *return_type));
    sig
}

/// No more objects are among the first values of a list than in the whole
/// list.
proof fn lemma_object_count_take(args: Seq<ValueView>, n: int)
    requires
        0 <= n <= args.len(),
    ensures
        object_count(args.take(n)) <= object_count(args),
    decreases args.len() - n,
{
    if n < args.len() {
        assert(args.take(n + 1).drop_last() =~= args.take(n));
        lemma_object_count_take(args, n + 1);
    } else {
        assert(args.take(n) =~= args);
    }
}

/// How many characters of the argument part are type letters and
/// delimiters: one letter for each number, character, boolean or void, and
/// the two delimiters `L` and `;` for each string or object.
pub open spec fn code_chars(args: Seq<ValueView>) -> nat
    decreases args.len(),
{
    if args.len() == 0 {
        0
    } else {
        code_chars(args.drop_last()) + if args.last() is Str || args.last() is Object {
            2nat
        } else {
            1nat
        }
    }
}

/// How many characters of the argument part belong to class names: the
/// name of the string class for each string, and its own class name for
/// each object.
pub open spec fn name_chars(args: Seq<ValueView>, names: Seq<Seq<char>>) -> nat
    decreases args.len(),
{
    if args.len() == 0 {
        0
    } else {
        let before = args.drop_last();
        name_chars(before, names) + if args.last() is Str {
            string_class().len()
        } else if args.last() is Object {
            names[object_count(before) as int].len()
        } else {
            0nat
        }
    }
}

impl Type {
    /// How many characters of the type's name in a signature are type
    /// letters and delimiters.
    pub open spec fn code_chars(self) -> nat {
        if self.is_reference() {
            2
        } else {
            1
        }
    }

    /// How many characters of the type's name in a signature belong to a
    /// class name.
    pub open spec fn name_chars(self) -> nat {
        match self {
            Type::Str => string_class().len(),
            Type::Object(name) => name@.len(),
            _ => 0,
        }
    }
}

/// Whether two values are of the same kind: both objects, or both not and
/// named alike in a signature.
pub open spec fn same_kind(a: ValueView, b: ValueView) -> bool {
    (a is Object <==> b is Object) && a.spec_signature() == b.spec_signature()
}

/// The signature is a function of the call's shape alone: two argument
/// lists whose values are pairwise of the same kind, with the same class
/// names and the same return type, have the same signature. In particular
/// equal arguments give equal signatures.
pub proof fn lemma_signature_stable(
    first: Seq<ValueView>,
    second: Seq<ValueView>,
    names: Seq<Seq<char>>,
    return_type: Type,
)
    requires
        first.len() == second.len(),
        forall|i: int| 0 <= i < first.len() ==> same_kind(#[trigger] first[i], second[i]),
    ensures
        spec_function_signature(first, names, return_type) == spec_function_signature(
            second,
            names,
            return_type,
        ),
{
    lemma_arguments_stable(first, second, names);
}

/// The argument part alone is a function of the call's shape.
proof fn lemma_arguments_stable(
    first: Seq<ValueView>,
    second: Seq<ValueView>,
    names: Seq<Seq<char>>,
)
    requires
        first.len() == second.len(),
        forall|i: int| 0 <= i < first.len() ==> same_kind(#[trigger] first[i], second[i]),
    ensures
        object_count(first) == object_count(second),
        spec_arguments(first, names) == spec_arguments(second, names),
    decreases first.len(),
{
    if first.len() > 0 {
        assert(same_kind(first[first.len() - 1], second[first.len() - 1]));
        assert forall|i: int| 0 <= i < first.drop_last().len() implies same_kind(
            #[trigger] first.drop_last()[i],
            second.drop_last()[i],
        ) by {
            assert(same_kind(first[i], second[i]));
        }
        lemma_arguments_stable(first.drop_last(), second.drop_last(), names);
    }
}

/// The argument part has one character for each type letter and delimiter
/// and one for each character of a class name, and no others.
pub proof fn lemma_arguments_len(args: Seq<ValueView>, names: Seq<Seq<char>>)
    ensures
        spec_arguments(args, names).len() == code_chars(args) + name_chars(args, names),
    decreases args.len(),
{
    if args.len() > 0 {
        lemma_arguments_len(args.drop_last(), names);
    }
}

/// The length of a signature: the two parentheses, one character for each
/// number, character, boolean or void among the arguments and the return
/// type, two delimiters for each string or object among them, and the
/// characters of their class names.
pub proof fn lemma_signature_len(
    args: Seq<ValueView>,
    names: Seq<Seq<char>>,
    return_type: Type,
)
    ensures
        spec_function_signature(args, names, return_type).len() == 2 + code_chars(args)
            + name_chars(args, names) + return_type.code_chars() + return_type.name_chars(),
{
    lemma_arguments_len(args, names);
}

/// The type names of the arguments, one for each argument.
pub open spec fn spec_descriptors(args: Seq<ValueView>, names: Seq<Seq<char>>) -> Seq<Seq<char>>
    decreases args.len(),
{
    if args.len() == 0 {
        Seq::empty()
    } else {
        let before = args.drop_last();
        spec_descriptors(before, names).push(
            if args.last() is Object {
                class_descriptor(names[object_count(before) as int])
            } else {
                args.last().spec_signature()
            },
        )
    }
}

/// The texts of a list, one after the other.
pub open spec fn concat(parts: Seq<Seq<char>>) -> Seq<char>
    decreases parts.len(),
{
    if parts.len() == 0 {
        Seq::empty()
    } else {
        parts.first() + concat(parts.drop_first())
    }
}

/// Whether a text is the one-letter name of a type in a signature.
pub open spec fn is_letter(text: Seq<char>) -> bool {
    text.len() == 1 && (text[0] == 'Z' || text[0] == 'B' || text[0] == 'C' || text[0] == 'S'
        || text[0] == 'I' || text[0] == 'J' || text[0] == 'F' || text[0] == 'D' || text[0] == 'V')
}

/// Whether a text names a class in a signature: `L`, a name without `;`,
/// and `;`.
pub open spec fn is_class_name(text: Seq<char>) -> bool {
    &&& text.len() >= 2
    &&& text[0] == 'L'
    &&& text[text.len() - 1] == ';'
    &&& forall|i: int| 1 <= i < text.len() - 1 ==> text[i] != ';'
}

/// Whether every text of a list is the name of a type in a signature.
pub open spec fn are_descriptors(parts: Seq<Seq<char>>) -> bool {
    forall|i: int| 0 <= i < parts.len() ==> is_letter(#[trigger] parts[i]) || is_class_name(parts[i])
}

/// Whether the class names fit the arguments: there is one for each
/// object among the arguments, and none of them holds a `;`.
pub open spec fn names_fit(args: Seq<ValueView>, names: Seq<Seq<char>>) -> bool {
    &&& names.len() == object_count(args)
    &&& forall|k: int, j: int|
        0 <= k < names.len() && 0 <= j < names[k].len() ==> #[trigger] names[k][j] != ';'
}

proof fn lemma_concat_push(parts: Seq<Seq<char>>, last: Seq<char>)
    ensures
        concat(parts.push(last)) == concat(parts) + last,
    decreases parts.len(),
{
    if parts.len() == 0 {
        let one = parts.push(last);
        assert(one.first() == last);
        assert(one.drop_first() =~= Seq::<Seq<char>>::empty());
        assert(concat(one.drop_first()) =~= Seq::<char>::empty());
        assert(concat(one) == last + concat(one.drop_first()));
        assert(concat(parts) =~= Seq::<char>::empty());
        assert(concat(one) =~= concat(parts) + last);
    } else {
        assert(parts.push(last).drop_first() =~= parts.drop_first().push(last));
        lemma_concat_push(parts.drop_first(), last);
        assert(concat(parts.push(last)) =~= concat(parts) + last);
    }
}

/// The argument part of a signature is made of the type names of the
/// arguments, and each of them is the name of a type.
proof fn lemma_arguments_are_descriptors(args: Seq<ValueView>, names: Seq<Seq<char>>)
    requires
        object_count(args) <= names.len(),
        forall|k: int, j: int|
            0 <= k < names.len() && 0 <= j < names[k].len() ==> #[trigger] names[k][j] != ';',
    ensures
        spec_arguments(args, names) == concat(spec_descriptors(args, names)),
        spec_descriptors(args, names).len() == args.len(),
        are_descriptors(spec_descriptors(args, names)),
    decreases args.len(),
{
    if args.len() > 0 {
        let before = args.drop_last();
        lemma_arguments_are_descriptors(before, names);
        let last = spec_descriptors(args, names).last();
        lemma_concat_push(spec_descriptors(before, names), last);
        if args.last() is Object {
            let name = names[object_count(before) as int];
            assert forall|i: int| 1 <= i < last.len() - 1 implies last[i] != ';' by {
                assert(last[i] == name[i - 1]);
            }
            assert(is_class_name(last));
        } else if args.last() is Str {
            assert(is_class_name(last));
        } else {
            assert(is_letter(last));
        }
        assert forall|i: int| 0 <= i < spec_descriptors(args, names).len() implies is_letter(
            #[trigger] spec_descriptors(args, names)[i],
        ) || is_class_name(spec_descriptors(args, names)[i]) by {
            if i < before.len() {
                assert(spec_descriptors(args, names)[i] == spec_descriptors(before, names)[i]);
            }
        }
    }
}

/// Two names of types of which one begins where the other begins, in the
/// same text, are the same name.
proof fn lemma_descriptor_prefix(
    first: Seq<char>,
    first_rest: Seq<char>,
    second: Seq<char>,
    second_rest: Seq<char>,
)
    requires
        is_letter(first) || is_class_name(first),
        is_letter(second) || is_class_name(second),
        first + first_rest == second + second_rest,
    ensures
        first == second,
        first_rest == second_rest,
{
    let text = first + first_rest;
    assert(text[0] == first[0] && text[0] == second[0]);
    if is_letter(first) {
        assert(is_letter(second));
    } else {
        assert(is_class_name(second));
        if first.len() < second.len() {
            assert(text[first.len() - 1] == first[first.len() - 1]);
            assert(text[first.len() - 1] == second[first.len() - 1]);
        } else if second.len() < first.len() {
            assert((second + second_rest)[second.len() - 1] == second[second.len() - 1]);
            assert(text[second.len() - 1] == first[second.len() - 1]);
        }
    }
    assert(first.len() == second.len());
    assert(first =~= second) by {
        assert forall|i: int| 0 <= i < first.len() implies first[i] == second[i] by {
            assert(text[i] == first[i]);
            assert((second + second_rest)[i] == second[i]);
        }
    }
    assert(first_rest =~= second_rest) by {
        assert(first_rest.len() == second_rest.len()) by {
            assert(text.len() == first.len() + first_rest.len());
            assert((second + second_rest).len() == second.len() + second_rest.len());
        }
        assert forall|i: int| 0 <= i < first_rest.len() implies first_rest[i]
            == second_rest[i] by {
            assert(text[first.len() + i] == first_rest[i]);
            assert((second + second_rest)[second.len() + i] == second_rest[i]);
        }
    }
}

/// A text that is made of names of types and then goes on with `)` is made
/// of them in one way only.
proof fn lemma_descriptors_unique(
    first: Seq<Seq<char>>,
    first_rest: Seq<char>,
    second: Seq<Seq<char>>,
    second_rest: Seq<char>,
)
    requires
        are_descriptors(first),
        are_descriptors(second),
        first_rest.len() > 0 && first_rest[0] == ')',
        second_rest.len() > 0 && second_rest[0] == ')',
        concat(first) + first_rest == concat(second) + second_rest,
    ensures
        first == second,
        first_rest == second_rest,
    decreases first.len(),
{
    let text = concat(first) + first_rest;
    if first.len() == 0 {
        if second.len() > 0 {
            assert(is_letter(second[0]) || is_class_name(second[0]));
            assert((concat(second) + second_rest)[0] == second[0][0]);
            assert(text[0] == ')');
            assert(false);
        }
        assert(first =~= second);
        assert(first_rest =~= concat(first) + first_rest);
        assert(second_rest =~= concat(second) + second_rest);
    } else {
        assert(is_letter(first[0]) || is_class_name(first[0]));
        if second.len() == 0 {
            assert(text[0] == first[0][0]);
            assert((concat(second) + second_rest)[0] == ')');
            assert(false);
        }
        assert(is_letter(second[0]) || is_class_name(second[0]));
        let first_tail = concat(first.drop_first()) + first_rest;
        let second_tail = concat(second.drop_first()) + second_rest;
        assert(first[0] + first_tail =~= text);
        assert(second[0] + second_tail =~= concat(second) + second_rest);
        lemma_descriptor_prefix(first[0], first_tail, second[0], second_tail);
        assert(are_descriptors(first.drop_first())) by {
            assert forall|i: int| 0 <= i < first.drop_first().len() implies is_letter(
                #[trigger] first.drop_first()[i],
            ) || is_class_name(first.drop_first()[i]) by {
                assert(first.drop_first()[i] == first[i + 1]);
            }
        }
        assert(are_descriptors(second.drop_first())) by {
            assert forall|i: int| 0 <= i < second.drop_first().len() implies is_letter(
                #[trigger] second.drop_first()[i],
            ) || is_class_name(second.drop_first()[i]) by {
                assert(second.drop_first()[i] == second[i + 1]);
            }
        }
        lemma_descriptors_unique(
            first.drop_first(),
            first_rest,
            second.drop_first(),
            second_rest,
        );
        assert(first =~= seq![first[0]] + first.drop_first());
        assert(second =~= seq![second[0]] + second.drop_first());
    }
}

/// A signature encodes the shape of a call uniquely: two calls with the
/// same signature have the same number of arguments, each argument of the
/// one has the type name of the argument of the other at its place, and
/// the return types have the same type name. The class names must fit the
/// arguments.
pub proof fn lemma_signature_unique(
    first: Seq<ValueView>,
    first_names: Seq<Seq<char>>,
    first_return: Type,
    second: Seq<ValueView>,
    second_names: Seq<Seq<char>>,
    second_return: Type,
)
    requires
        names_fit(first, first_names),
        names_fit(second, second_names),
        spec_function_signature(first, first_names, first_return) == spec_function_signature(
            second,
            second_names,
            second_return,
        ),
    ensures
        first.len() == second.len(),
        spec_descriptors(first, first_names) == spec_descriptors(second, second_names),
        first_return.descriptor() == second_return.descriptor(),
{
    lemma_arguments_are_descriptors(first, first_names);
    lemma_arguments_are_descriptors(second, second_names);
    let first_rest = seq![')'] + first_return.descriptor();
    let second_rest = seq![')'] + second_return.descriptor();
    let first_text = spec_function_signature(first, first_names, first_return);
    let second_text = spec_function_signature(second, second_names, second_return);
    assert(first_text =~= seq!['('] + (spec_arguments(first, first_names) + first_rest));
    assert(second_text =~= seq!['('] + (spec_arguments(second, second_names) + second_rest));
    assert(spec_arguments(first, first_names) + first_rest =~= first_text.subrange(
        1,
        first_text.len() as int,
    ));
    assert(spec_arguments(second, second_names) + second_rest =~= second_text.subrange(
        1,
        second_text.len() as int,
    ));
    lemma_descriptors_unique(
        spec_descriptors(first, first_names),
        first_rest,
        spec_descriptors(second, second_names),
        second_rest,
    );
    assert(first_return.descriptor() =~= first_rest.subrange(1, first_rest.len() as int));
    assert(second_return.descriptor() =~= second_rest.subrange(1, second_rest.len() as int));
}

} // verus!
