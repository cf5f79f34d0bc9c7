use interp_core::ast::{Expression, Function, Statement};
use interp_core::env::{Environment, TestEnvironment};
use interp_core::frame::Frame;
use interp_core::types::Type;

fn named(name: &str) -> Function {
    Function { name: name.to_string(), kind: None, params: None, body: None }
}

#[test]
fn new_environment_starts_at_top_level() {
    let env: Environment<i32> = Environment::new();
    assert_eq!(env.scope, Function::new());
    assert_eq!(env.recursion, 0);
    assert_eq!(env.scope_name(), "__main__");
    assert_eq!(env.scope_key(), ("__main__".to_string(), 0));
    assert!(env.stack.contains_key(&("__main__".to_string(), 0)));
    assert!(!env.stack.contains_key(&("__main__".to_string(), 1)));
    let root = env.get_frame(env.scope_key());
    assert_eq!(root.parent_function, None);
    assert_eq!(root.parent_key, None);
    assert_eq!(env.search_frame("x".to_string()), None);
    assert_eq!(env.scope_return(), None);
}

#[test]
fn top_level_function_has_only_a_name() {
    let f = Function::new();
    assert_eq!(f.name, "__main__");
    assert_eq!(f.kind, None);
    assert_eq!(f.params, None);
    assert_eq!(f.body, None);
}

#[test]
fn new_frame_is_empty_and_keeps_its_links() {
    let frame: Frame<i32> = Frame::new(Some(named("f")), Some(("f".to_string(), 3)));
    assert_eq!(frame.parent_function, Some(named("f")));
    assert_eq!(frame.parent_key, Some(("f".to_string(), 3)));
    assert_eq!(frame.variables.get(&"x".to_string()), None);
    assert_eq!(frame.tests.get(&"t".to_string()), None);
}

#[test]
fn insert_variable_binds_in_the_active_frame() {
    let mut env: Environment<i32> = Environment::new();
    env.insert_variable("x".to_string(), 1);
    env.insert_variable("y".to_string(), 2);
    assert_eq!(env.search_frame("x".to_string()), Some(&1));
    assert_eq!(env.search_frame("y".to_string()), Some(&2));
    assert_eq!(env.search_frame("z".to_string()), None);
}

#[test]
fn insert_variable_overwrites_an_earlier_binding() {
    let mut env: Environment<i32> = Environment::new();
    env.insert_variable("x".to_string(), 1);
    env.insert_variable("x".to_string(), 5);
    assert_eq!(env.search_frame("x".to_string()), Some(&5));
}

#[test]
fn insert_variable_without_an_active_frame_changes_nothing() {
    let mut env: Environment<i32> = Environment::new();
    env.scope = named("nowhere");
    env.insert_variable("x".to_string(), 1);
    env.insert_test("t".to_string(), named("t"));
    assert!(!env.stack.contains_key(&("nowhere".to_string(), 0)));
    let root = env.get_frame(("__main__".to_string(), 0));
    assert_eq!(root.variables.get(&"x".to_string()), None);
    assert_eq!(root.tests.get(&"t".to_string()), None);
}

#[test]
fn insert_test_registers_in_the_active_frame() {
    let mut env: Environment<i32> = Environment::new();
    let test = Function {
        name: "adds".to_string(),
        kind: Some(Type::TVoid),
        params: Some(vec![]),
        body: Some(Box::new(Statement::AssertTrue(Box::new(Expression::CTrue), "ok".to_string()))),
    };
    env.insert_test("adds".to_string(), test.clone());
    let root = env.get_frame(env.scope_key());
    assert_eq!(root.tests.get(&"adds".to_string()), Some(&test));
    assert_eq!(root.tests.get(&"other".to_string()), None);
    assert_eq!(env.search_frame("adds".to_string()), None);
}

#[test]
fn insert_frame_keys_the_frame_by_name_and_depth() {
    let mut env: Environment<i32> = Environment::new();
    env.insert_frame(named("f"));
    assert_eq!(env.scope, named("f"));
    assert_eq!(env.recursion, 1);
    assert_eq!(env.scope_key(), ("f".to_string(), 1));
    let frame = env.get_frame(("f".to_string(), 1));
    assert_eq!(frame.parent_function, Some(Function::new()));
    assert_eq!(frame.parent_key, Some(("__main__".to_string(), 0)));
    assert!(env.stack.contains_key(&("__main__".to_string(), 0)));
}

#[test]
fn remove_frame_restores_the_caller() {
    let mut env: Environment<i32> = Environment::new();
    env.insert_frame(named("f"));
    env.insert_frame(named("g"));
    assert_eq!(env.scope_key(), ("g".to_string(), 2));
    env.remove_frame();
    assert_eq!(env.scope, named("f"));
    assert_eq!(env.scope_key(), ("f".to_string(), 1));
    assert!(!env.stack.contains_key(&("g".to_string(), 2)));
    env.remove_frame();
    assert_eq!(env.scope, Function::new());
    assert_eq!(env.scope_key(), ("__main__".to_string(), 0));
    assert!(!env.stack.contains_key(&("f".to_string(), 1)));
}

#[test]
fn frames_of_a_recursive_function_are_isolated() {
    let mut env: Environment<i32> = Environment::new();
    let depth = 4;
    for level in 1..=depth {
        env.insert_frame(named("f"));
        assert_eq!(env.search_frame("n".to_string()), None);
        env.insert_variable("n".to_string(), level);
        env.insert_variable(format!("only_{}", level), level * 10);
    }
    for level in (1..=depth).rev() {
        assert_eq!(env.scope_key(), ("f".to_string(), level));
        assert_eq!(env.search_frame("n".to_string()), Some(&level));
        assert_eq!(env.search_frame(format!("only_{}", level)), Some(&(level * 10)));
        if level < depth {
            assert_eq!(env.search_frame(format!("only_{}", level + 1)), None);
        }
        for outer in 1..level {
            let frame = env.get_frame(("f".to_string(), outer));
            assert_eq!(frame.variables.get(&"n".to_string()), Some(&outer));
        }
        env.remove_frame();
    }
    assert_eq!(env.search_frame("n".to_string()), None);
}

#[test]
fn outer_bindings_are_unchanged_after_an_inner_call_returns() {
    let mut env: Environment<i32> = Environment::new();
    env.insert_frame(named("f"));
    env.insert_variable("x".to_string(), 1);
    env.insert_frame(named("f"));
    env.insert_variable("x".to_string(), 2);
    env.insert_variable("y".to_string(), 3);
    env.remove_frame();
    assert_eq!(env.search_frame("x".to_string()), Some(&1));
    assert_eq!(env.search_frame("y".to_string()), None);
}

#[test]
fn balanced_calls_restore_depth_and_scope() {
    let mut env: Environment<i32> = Environment::new();
    env.insert_frame(named("start"));
    let scope = env.scope.clone();
    let recursion = env.recursion;
    env.insert_frame(named("a"));
    env.insert_frame(named("b"));
    env.remove_frame();
    env.insert_frame(named("c"));
    env.insert_frame(named("a"));
    env.remove_frame();
    env.remove_frame();
    env.remove_frame();
    assert_eq!(env.recursion, recursion);
    assert_eq!(env.scope, scope);
    assert_eq!(env.scope_key(), ("start".to_string(), 1));
}

#[test]
fn return_slot_is_the_variable_named_after_the_function() {
    let mut env: Environment<Expression> = Environment::new();
    env.insert_frame(named("f"));
    assert_eq!(env.scope_return(), None);
    env.insert_variable("f".to_string(), Expression::CInt(42));
    assert_eq!(env.scope_return(), Some(&Expression::CInt(42)));
    env.insert_variable("other".to_string(), Expression::CInt(7));
    assert_eq!(env.scope_return(), Some(&Expression::CInt(42)));
}

#[test]
fn a_variable_named_like_the_function_takes_the_return_slot() {
    let mut env: Environment<i32> = Environment::new();
    env.insert_frame(named("f"));
    env.set_return(1);
    env.insert_variable("f".to_string(), 2);
    assert_eq!(env.scope_return(), Some(&2));
}

#[test]
fn outer_variable_is_not_found_in_a_nested_frame() {
    let mut env: Environment<i32> = Environment::new();
    env.insert_frame(named("outer"));
    env.insert_variable("x".to_string(), 1);
    env.insert_frame(named("inner"));
    assert_eq!(env.search_frame("x".to_string()), None);
    env.insert_variable("y".to_string(), 2);
    assert_eq!(env.search_frame("x".to_string()), None);
    env.remove_frame();
    assert_eq!(env.search_frame("x".to_string()), Some(&1));
}

#[test]
fn test_environment_has_its_label_and_a_fresh_environment() {
    let test_env: TestEnvironment<i32> = TestEnvironment::new();
    assert_eq!(test_env.name, "__test__");
    assert_eq!(test_env.env.scope_key(), ("__main__".to_string(), 0));
    assert_eq!(test_env.env.search_frame("x".to_string()), None);
}

#[test]
fn test_environment_is_isolated_from_the_program() {
    let main_env: Environment<i32> = Environment::new();
    let mut test_env: TestEnvironment<i32> = TestEnvironment::new();
    let test = named("checks_x");
    test_env.env.insert_test("checks_x".to_string(), test.clone());
    test_env.env.insert_frame(test);
    test_env.env.insert_variable("x".to_string(), 1);
    assert_eq!(test_env.env.search_frame("x".to_string()), Some(&1));
    assert_eq!(main_env.search_frame("x".to_string()), None);
    assert_eq!(main_env.scope_key(), ("__main__".to_string(), 0));
    assert!(!main_env.stack.contains_key(&("checks_x".to_string(), 1)));
    let root = main_env.get_frame(main_env.scope_key());
    assert_eq!(root.tests.get(&"checks_x".to_string()), None);
}

#[test]
fn set_return_fills_the_return_slot() {
    let mut env: Environment<Expression> = Environment::new();
    env.insert_frame(named("f"));
    env.set_return(Expression::CString("done".to_string()));
    assert_eq!(env.scope_return(), Some(&Expression::CString("done".to_string())));
    assert_eq!(env.search_frame("f".to_string()), Some(&Expression::CString("done".to_string())));
}

#[test]
fn enter_call_binds_the_arguments_in_order() {
    let mut env: Environment<i32> = Environment::new();
    env.insert_variable("a".to_string(), 100);
    env.enter_call(
        named("f"),
        vec![("a".to_string(), 1), ("b".to_string(), 2), ("a".to_string(), 3)],
    );
    assert_eq!(env.scope_key(), ("f".to_string(), 1));
    assert_eq!(env.search_frame("a".to_string()), Some(&3));
    assert_eq!(env.search_frame("b".to_string()), Some(&2));
    let frame = env.get_frame(env.scope_key());
    assert_eq!(frame.parent_key, Some(("__main__".to_string(), 0)));
}

#[test]
fn leave_call_hands_out_the_result_and_restores_the_caller() {
    let mut env: Environment<i32> = Environment::new();
    env.insert_variable("a".to_string(), 100);
    env.enter_call(named("f"), vec![("a".to_string(), 1)]);
    env.set_return(9);
    assert_eq!(env.leave_call(), Some(9));
    assert_eq!(env.scope_key(), ("__main__".to_string(), 0));
    assert_eq!(env.search_frame("a".to_string()), Some(&100));
    assert_eq!(env.search_frame("f".to_string()), None);
    assert!(!env.stack.contains_key(&("f".to_string(), 1)));
}

#[test]
fn leave_call_without_a_result_hands_out_nothing() {
    let mut env: Environment<i32> = Environment::new();
    env.enter_call(named("f"), vec![("a".to_string(), 1)]);
    assert_eq!(env.leave_call(), None);
    assert_eq!(env.recursion, 0);
}

#[test]
fn cloned_environment_is_independent() {
    let mut env: Environment<i32> = Environment::new();
    env.insert_frame(named("f"));
    env.insert_variable("x".to_string(), 1);
    let mut copy = env.clone();
    assert_eq!(copy.scope_key(), ("f".to_string(), 1));
    assert_eq!(copy.search_frame("x".to_string()), Some(&1));
    copy.insert_variable("x".to_string(), 2);
    copy.remove_frame();
    assert_eq!(env.search_frame("x".to_string()), Some(&1));
    assert_eq!(env.scope_key(), ("f".to_string(), 1));
    assert_eq!(copy.scope_key(), ("__main__".to_string(), 0));
}

#[test]
fn environments_are_equal_whatever_the_order_of_their_bindings() {
    let mut first: Environment<i32> = Environment::new();
    first.insert_variable("x".to_string(), 1);
    first.insert_variable("y".to_string(), 2);
    let mut second: Environment<i32> = Environment::new();
    second.insert_variable("y".to_string(), 2);
    second.insert_variable("x".to_string(), 1);
    assert_eq!(first, second);
    second.insert_variable("x".to_string(), 3);
    assert_ne!(first, second);
    second.insert_variable("x".to_string(), 1);
    second.insert_frame(named("f"));
    assert_ne!(first, second);
    second.remove_frame();
    assert_eq!(first, second);
}

#[test]
fn a_whole_call_leaves_the_environment_as_it_was() {
    let mut env: Environment<i32> = Environment::new();
    env.insert_variable("x".to_string(), 1);
    env.insert_test("t".to_string(), named("t"));
    env.insert_frame(named("f"));
    env.insert_variable("x".to_string(), 10);
    let before = env.clone();
    env.enter_call(named("f"), vec![("x".to_string(), 2), ("y".to_string(), 3)]);
    env.insert_variable("z".to_string(), 4);
    env.insert_test("u".to_string(), named("u"));
    env.insert_frame(named("g"));
    env.insert_variable("x".to_string(), 5);
    env.remove_frame();
    env.set_return(6);
    assert_eq!(env.leave_call(), Some(6));
    assert_eq!(env, before);
}

#[test]
fn cloned_test_environment_is_equal_to_it() {
    let mut test_env: TestEnvironment<i32> = TestEnvironment::new();
    test_env.name = "suite".to_string();
    test_env.env.insert_variable("x".to_string(), 1);
    let copy = test_env.clone();
    assert_eq!(copy, test_env);
    assert_eq!(copy.name, "suite");
}

#[test]
fn registered_tests_can_be_listed() {
    let mut env: Environment<i32> = Environment::new();
    env.insert_test("first".to_string(), named("first"));
    env.insert_test("second".to_string(), named("second"));
    env.insert_test("first".to_string(), named("first_again"));
    let frame = env.get_frame(env.scope_key());
    let mut names: Vec<(String, String)> = frame
        .tests
        .entries()
        .iter()
        .map(|(name, test)| (name.clone(), test.name.clone()))
        .collect();
    names.sort();
    assert_eq!(
        names,
        vec![
            ("first".to_string(), "first_again".to_string()),
            ("second".to_string(), "second".to_string()),
        ]
    );
}
