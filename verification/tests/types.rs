use interp_core::types::Type;

fn all_types() -> Vec<Type> {
    vec![
        Type::TInteger,
        Type::TBool,
        Type::TReal,
        Type::TString,
        Type::TVoid,
        Type::TFunction(Box::new(Some(Type::TBool)), vec![Type::TInteger, Type::TReal]),
        Type::TFunction(Box::new(None), vec![]),
        Type::TList(Box::new(Type::TString)),
        Type::TTuple(vec![Type::TInteger, Type::TList(Box::new(Type::TAny))]),
        Type::TMaybe(Box::new(Type::TInteger)),
        Type::TResult(Box::new(Type::TBool), Box::new(Type::TString)),
        Type::TAny,
    ]
}

#[test]
fn clone_of_a_type_is_equal_to_it() {
    for kind in all_types() {
        assert_eq!(kind.clone(), kind);
    }
}

#[test]
fn types_are_compared_by_structure() {
    let types = all_types();
    for (i, a) in types.iter().enumerate() {
        for (j, b) in types.iter().enumerate() {
            assert_eq!(a == b, i == j);
        }
    }
}

#[test]
fn only_maybe_and_result_are_monadic() {
    let expected = [
        false, false, false, false, false, false, false, false, false, true, true, false,
    ];
    for (kind, monadic) in all_types().iter().zip(expected) {
        assert_eq!(kind.is_monadic(), monadic);
    }
}

#[test]
fn unwrapped_type_of_a_maybe_is_its_inner_type() {
    assert_eq!(Type::TMaybe(Box::new(Type::TInteger)).unwrapped(), Some(Type::TInteger));
    assert_eq!(
        Type::TMaybe(Box::new(Type::TMaybe(Box::new(Type::TBool)))).unwrapped(),
        Some(Type::TMaybe(Box::new(Type::TBool)))
    );
}

#[test]
fn unwrapped_type_of_a_result_is_its_success_type() {
    assert_eq!(
        Type::TResult(Box::new(Type::TBool), Box::new(Type::TString)).unwrapped(),
        Some(Type::TBool)
    );
}

#[test]
fn other_types_have_no_unwrapped_type() {
    assert_eq!(Type::TInteger.unwrapped(), None);
    assert_eq!(Type::TAny.unwrapped(), None);
    assert_eq!(Type::TList(Box::new(Type::TMaybe(Box::new(Type::TInteger)))).unwrapped(), None);
}
