use rjni::{function_signature, Object, Type, Value};

#[test]
fn no_arguments_and_nothing_returned() {
    assert_eq!(function_signature(&[], &[], &Type::Void), "()V");
}

#[test]
fn every_primitive_has_its_letter() {
    let args = [
        Value::Boolean(true),
        Value::Byte(1),
        Value::Char('c'),
        Value::Short(2),
        Value::Int(3),
        Value::Long(4),
        Value::Float(0),
        Value::Double(0),
    ];
    assert_eq!(function_signature(&args, &[], &Type::Int), "(ZBCSIJFD)I");
}

#[test]
fn every_return_type_has_its_name() {
    assert_eq!(function_signature(&[], &[], &Type::Boolean), "()Z");
    assert_eq!(function_signature(&[], &[], &Type::Byte), "()B");
    assert_eq!(function_signature(&[], &[], &Type::Char), "()C");
    assert_eq!(function_signature(&[], &[], &Type::Short), "()S");
    assert_eq!(function_signature(&[], &[], &Type::Int), "()I");
    assert_eq!(function_signature(&[], &[], &Type::Long), "()J");
    assert_eq!(function_signature(&[], &[], &Type::Float), "()F");
    assert_eq!(function_signature(&[], &[], &Type::Double), "()D");
    assert_eq!(function_signature(&[], &[], &Type::Str), "()Ljava/lang/String;");
    assert_eq!(
        function_signature(&[], &[], &Type::Object("java/util/List")),
        "()Ljava/util/List;"
    );
}

#[test]
fn two_ints_to_int() {
    let args = [Value::Int(1), Value::Int(9)];
    assert_eq!(function_signature(&args, &[], &Type::Int), "(II)I");
}

#[test]
fn a_string_argument_names_the_string_class() {
    let args = [Value::Str("x".to_string()), Value::Int(1)];
    assert_eq!(
        function_signature(&args, &[], &Type::Str),
        "(Ljava/lang/String;I)Ljava/lang/String;"
    );
}

#[test]
fn object_arguments_take_their_names_in_order() {
    let args = [
        Value::Object(Object { raw: 1 }),
        Value::Long(0),
        Value::Object(Object { raw: 2 }),
    ];
    let names = ["a/First".to_string(), "b/Second".to_string()];
    assert_eq!(
        function_signature(&args, &names, &Type::Void),
        "(La/First;JLb/Second;)V"
    );
}

#[test]
fn a_void_argument_has_the_void_letter() {
    assert_eq!(function_signature(&[Value::Void], &[], &Type::Void), "(V)V");
}

#[test]
fn equal_arguments_give_the_same_signature() {
    let first = [Value::Int(1), Value::Str("a".to_string()), Value::Boolean(false)];
    let second = [Value::Int(1), Value::Str("a".to_string()), Value::Boolean(false)];
    let once = function_signature(&first, &[], &Type::Long);
    let twice = function_signature(&first, &[], &Type::Long);
    let other = function_signature(&second, &[], &Type::Long);
    assert_eq!(once, twice);
    assert_eq!(once, other);
}

#[test]
fn the_signature_depends_on_the_kinds_of_the_values_only() {
    let first = [Value::Int(1), Value::Str("a".to_string())];
    let second = [Value::Int(-500), Value::Str("something else".to_string())];
    assert_eq!(
        function_signature(&first, &[], &Type::Void),
        function_signature(&second, &[], &Type::Void)
    );
}

#[test]
fn the_length_counts_letters_delimiters_and_names() {
    let args = [
        Value::Int(1),
        Value::Str("a".to_string()),
        Value::Object(Object { raw: 3 }),
        Value::Double(0),
    ];
    let names = ["p/Q".to_string()];
    let signature = function_signature(&args, &names, &Type::Object("r/S"));
    assert_eq!(signature, "(ILjava/lang/String;Lp/Q;D)Lr/S;");
    // two parentheses; two letters; three references of two delimiters
    // each; the names of 16, 3 and 3 characters
    assert_eq!(signature.chars().count(), 2 + 2 + 3 * 2 + 16 + 3 + 3);
}

#[test]
fn type_and_value_begin_their_names_alike() {
    assert_eq!(Type::Boolean.signature(), "Z");
    assert_eq!(Type::Byte.signature(), "B");
    assert_eq!(Type::Char.signature(), "C");
    assert_eq!(Type::Short.signature(), "S");
    assert_eq!(Type::Int.signature(), "I");
    assert_eq!(Type::Long.signature(), "J");
    assert_eq!(Type::Float.signature(), "F");
    assert_eq!(Type::Double.signature(), "D");
    assert_eq!(Type::Str.signature(), "Ljava/lang/String;");
    assert_eq!(Type::Void.signature(), "V");
    assert_eq!(Type::Object("a/B").signature(), "L");
    assert_eq!(Value::Boolean(true).signature(), "Z");
    assert_eq!(Value::Byte(0).signature(), "B");
    assert_eq!(Value::Char('a').signature(), "C");
    assert_eq!(Value::Short(0).signature(), "S");
    assert_eq!(Value::Int(0).signature(), "I");
    assert_eq!(Value::Long(0).signature(), "J");
    assert_eq!(Value::Float(0).signature(), "F");
    assert_eq!(Value::Double(0).signature(), "D");
    assert_eq!(Value::Str(String::new()).signature(), "Ljava/lang/String;");
    assert_eq!(Value::Void.signature(), "V");
    assert_eq!(Value::Object(Object { raw: 0 }).signature(), "L");
}

#[test]
fn different_shapes_have_different_signatures() {
    let object = Value::Object(Object { raw: 1 });
    let name = ["a/B".to_string()];
    let shapes: Vec<(Vec<Value>, &[String], Type)> = vec![
        (vec![], &[], Type::Void),
        (vec![], &[], Type::Int),
        (vec![Value::Int(0)], &[], Type::Void),
        (vec![Value::Int(0)], &[], Type::Int),
        (vec![Value::Int(0), Value::Int(0)], &[], Type::Void),
        (vec![Value::Long(0)], &[], Type::Void),
        (vec![Value::Int(0), Value::Long(0)], &[], Type::Void),
        (vec![Value::Long(0), Value::Int(0)], &[], Type::Void),
        (vec![Value::Str(String::new())], &[], Type::Void),
        (vec![object.clone()], &name, Type::Void),
        (vec![object.clone(), Value::Int(0)], &name, Type::Void),
        (vec![Value::Int(0), object.clone()], &name, Type::Void),
        (vec![], &[], Type::Str),
        (vec![], &[], Type::Object("a/B")),
    ];
    let signatures: Vec<String> = shapes
        .iter()
        .map(|(args, names, kind)| function_signature(args, names, kind))
        .collect();
    for (i, first) in signatures.iter().enumerate() {
        for (j, second) in signatures.iter().enumerate() {
            assert_eq!(first == second, i == j, "{} and {}", first, second);
        }
    }
}

#[test]
fn a_string_and_an_object_of_the_string_class_are_named_alike() {
    let object = [Value::Object(Object { raw: 1 })];
    let names = ["java/lang/String".to_string()];
    assert_eq!(
        function_signature(&object, &names, &Type::Object("java/lang/String")),
        function_signature(&[Value::Str(String::new())], &[], &Type::Str)
    );
}
