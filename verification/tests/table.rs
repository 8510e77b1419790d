use rjni::table::{
    dispatch_slot, entry_at, CallEntry, CallForm, ReturnGroup, CALL_METHOD, CALL_STATIC_METHOD,
    DELETE_LOCAL_REF, ENTRIES, EXCEPTION_CHECK, EXCEPTION_CLEAR, EXCEPTION_OCCURRED, FIND_CLASS,
    GET_METHOD_ID, GET_OBJECT_CLASS, GET_STATIC_METHOD_ID, GET_STRING_UTF_CHARS, GET_SUPERCLASS,
    IS_INSTANCE_OF, NEW_OBJECT_A, NEW_STRING_UTF, RELEASE_STRING_UTF_CHARS, RETURN_GROUPS,
};
use rjni::Type;

fn all_types() -> Vec<Type> {
    vec![
        Type::Boolean,
        Type::Byte,
        Type::Char,
        Type::Short,
        Type::Int,
        Type::Long,
        Type::Float,
        Type::Double,
        Type::Str,
        Type::Void,
        Type::Object("java/lang/Object"),
    ]
}

#[test]
fn ordinals_follow_the_order_of_the_table() {
    assert_eq!(Type::Object("a/B").offset(), 0);
    assert_eq!(Type::Str.offset(), 0);
    assert_eq!(Type::Boolean.offset(), 1);
    assert_eq!(Type::Byte.offset(), 2);
    assert_eq!(Type::Char.offset(), 3);
    assert_eq!(Type::Short.offset(), 4);
    assert_eq!(Type::Int.offset(), 5);
    assert_eq!(Type::Long.offset(), 6);
    assert_eq!(Type::Float.offset(), 7);
    assert_eq!(Type::Double.offset(), 8);
    assert_eq!(Type::Void.offset(), 9);
}

#[test]
fn ordinals_leave_no_gap_and_repeat_only_for_references() {
    let mut seen = vec![0usize; RETURN_GROUPS];
    for kind in all_types() {
        let ordinal = kind.offset();
        assert!(ordinal < RETURN_GROUPS);
        seen[ordinal] += 1;
    }
    assert_eq!(seen, vec![2, 1, 1, 1, 1, 1, 1, 1, 1, 1]);
}

#[test]
fn ordinals_name_the_category_at_their_place() {
    let groups = [
        ReturnGroup::Object,
        ReturnGroup::Boolean,
        ReturnGroup::Byte,
        ReturnGroup::Char,
        ReturnGroup::Short,
        ReturnGroup::Int,
        ReturnGroup::Long,
        ReturnGroup::Float,
        ReturnGroup::Double,
        ReturnGroup::Void,
    ];
    for (place, group) in groups.iter().enumerate() {
        assert_eq!(ReturnGroup::from_ordinal(place), Some(*group));
    }
    assert_eq!(ReturnGroup::from_ordinal(10), None);
    assert_eq!(ReturnGroup::from_ordinal(usize::MAX), None);
    assert_eq!(ReturnGroup::from_ordinal(Type::Int.offset()), Some(ReturnGroup::Int));
    assert_eq!(ReturnGroup::from_ordinal(Type::Str.offset()), Some(ReturnGroup::Object));
    assert_eq!(ReturnGroup::from_ordinal(Type::Void.offset()), Some(ReturnGroup::Void));
}

#[test]
fn the_blocks_start_where_the_runtime_puts_them() {
    assert_eq!(NEW_OBJECT_A, 30);
    assert_eq!(CALL_METHOD, 34);
    assert_eq!(CALL_STATIC_METHOD, 114);
}

#[test]
fn slots_are_three_apart() {
    assert_eq!(dispatch_slot(false, &Type::Object("a/B")), 36);
    assert_eq!(dispatch_slot(false, &Type::Str), 36);
    assert_eq!(dispatch_slot(false, &Type::Boolean), 39);
    assert_eq!(dispatch_slot(false, &Type::Int), 51);
    assert_eq!(dispatch_slot(false, &Type::Void), 63);
    assert_eq!(dispatch_slot(true, &Type::Str), 116);
    assert_eq!(dispatch_slot(true, &Type::Int), 131);
    assert_eq!(dispatch_slot(true, &Type::Double), 140);
    assert_eq!(dispatch_slot(true, &Type::Void), 143);
}

#[test]
fn every_dispatch_slot_is_the_array_entry_of_its_category() {
    for kind in all_types() {
        for is_static in [false, true] {
            let slot = dispatch_slot(is_static, &kind);
            let entry = entry_at(slot).unwrap();
            assert_eq!(entry.is_static, is_static);
            assert_eq!(entry.form, CallForm::Array);
            assert_eq!(Some(entry.group), ReturnGroup::from_ordinal(kind.offset()));
        }
    }
}

#[test]
fn the_table_has_three_forms_for_each_category() {
    assert_eq!(
        entry_at(34),
        Some(CallEntry { is_static: false, group: ReturnGroup::Object, form: CallForm::Plain })
    );
    assert_eq!(
        entry_at(35),
        Some(CallEntry { is_static: false, group: ReturnGroup::Object, form: CallForm::Variadic })
    );
    assert_eq!(
        entry_at(36),
        Some(CallEntry { is_static: false, group: ReturnGroup::Object, form: CallForm::Array })
    );
    assert_eq!(
        entry_at(37),
        Some(CallEntry { is_static: false, group: ReturnGroup::Boolean, form: CallForm::Plain })
    );
    assert_eq!(
        entry_at(63),
        Some(CallEntry { is_static: false, group: ReturnGroup::Void, form: CallForm::Array })
    );
    assert_eq!(
        entry_at(114),
        Some(CallEntry { is_static: true, group: ReturnGroup::Object, form: CallForm::Plain })
    );
    assert_eq!(
        entry_at(143),
        Some(CallEntry { is_static: true, group: ReturnGroup::Void, form: CallForm::Array })
    );
}

#[test]
fn slots_outside_the_two_blocks_are_no_call_entries() {
    assert_eq!(entry_at(0), None);
    assert_eq!(entry_at(30), None);
    assert_eq!(entry_at(33), None);
    assert_eq!(entry_at(64), None);
    assert_eq!(entry_at(93), None);
    assert_eq!(entry_at(113), None);
    assert_eq!(entry_at(144), None);
    assert_eq!(entry_at(usize::MAX), None);
}

#[test]
fn the_two_blocks_hold_sixty_entries() {
    let entries = (0..300).filter(|slot| entry_at(*slot).is_some()).count();
    assert_eq!(entries, 60);
}

#[test]
fn the_named_entries_are_where_the_runtime_puts_them() {
    assert_eq!(FIND_CLASS, 6);
    assert_eq!(GET_SUPERCLASS, 10);
    assert_eq!(EXCEPTION_OCCURRED, 15);
    assert_eq!(EXCEPTION_CLEAR, 17);
    assert_eq!(DELETE_LOCAL_REF, 23);
    assert_eq!(GET_OBJECT_CLASS, 31);
    assert_eq!(IS_INSTANCE_OF, 32);
    assert_eq!(GET_METHOD_ID, 33);
    assert_eq!(GET_STATIC_METHOD_ID, 113);
    assert_eq!(NEW_STRING_UTF, 167);
    assert_eq!(GET_STRING_UTF_CHARS, 169);
    assert_eq!(RELEASE_STRING_UTF_CHARS, 170);
    assert_eq!(EXCEPTION_CHECK, 228);
    assert_eq!(ENTRIES, 229);
    for slot in [
        FIND_CLASS,
        GET_SUPERCLASS,
        EXCEPTION_OCCURRED,
        EXCEPTION_CLEAR,
        DELETE_LOCAL_REF,
        NEW_OBJECT_A,
        GET_OBJECT_CLASS,
        IS_INSTANCE_OF,
        GET_METHOD_ID,
        GET_STATIC_METHOD_ID,
        NEW_STRING_UTF,
        GET_STRING_UTF_CHARS,
        RELEASE_STRING_UTF_CHARS,
        EXCEPTION_CHECK,
    ] {
        assert!(slot < ENTRIES);
        assert_eq!(entry_at(slot), None);
    }
}
