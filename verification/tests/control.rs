use interp_core::ast::{Expression, Function, Statement};
use interp_core::control::{next_step, AssertionRecord, Outcome, Step};
use interp_core::env::{Environment, TestEnvironment};
use interp_core::monadic::{propagate, unwrap, EvalError, Propagation};

enum Flow {
    Value(Expression),
    Return(Expression),
}

/// Evaluates the constants and the result and maybe forms.
fn evaluate(exp: &Expression) -> Result<Flow, EvalError> {
    match exp {
        Expression::COk(inner) => wrap(inner, Expression::COk),
        Expression::CErr(inner) => wrap(inner, Expression::CErr),
        Expression::CJust(inner) => wrap(inner, Expression::CJust),
        Expression::Unwrap(inner) => match evaluate(inner)? {
            Flow::Value(value) => Ok(Flow::Value(unwrap(value)?)),
            early => Ok(early),
        },
        Expression::Propagate(inner) => match evaluate(inner)? {
            Flow::Value(value) => match propagate(value)? {
                Propagation::Proceed(inner) => Ok(Flow::Value(inner)),
                Propagation::Return(failure) => Ok(Flow::Return(failure)),
            },
            early => Ok(early),
        },
        constant => Ok(Flow::Value(constant.clone())),
    }
}

fn wrap(inner: &Expression, tag: fn(Box<Expression>) -> Expression) -> Result<Flow, EvalError> {
    match evaluate(inner)? {
        Flow::Value(value) => Ok(Flow::Value(tag(Box::new(value)))),
        early => Ok(early),
    }
}

struct Host {
    env: TestEnvironment<Expression>,
    evaluated_assertions: Vec<String>,
    records: Vec<AssertionRecord>,
}

impl Host {
    fn new() -> Host {
        let mut env = TestEnvironment::new();
        env.env.insert_frame(Function {
            name: "f".to_string(),
            kind: None,
            params: None,
            body: None,
        });
        Host { env, evaluated_assertions: vec![], records: vec![] }
    }

    fn execute(&mut self, stmt: &Statement) -> Outcome<(), EvalError> {
        match stmt {
            Statement::Assignment(name, exp, _) => match evaluate(exp) {
                Ok(Flow::Value(value)) => {
                    self.env.env.insert_variable(name.clone(), value);
                    Outcome::Continue
                }
                Ok(Flow::Return(value)) => {
                    self.env.env.set_return(value);
                    Outcome::Returned(())
                }
                Err(error) => Outcome::Failed(error),
            },
            Statement::Return(exp) => match evaluate(exp) {
                Ok(Flow::Value(value)) | Ok(Flow::Return(value)) => {
                    self.env.env.set_return(value);
                    Outcome::Returned(())
                }
                Err(error) => Outcome::Failed(error),
            },
            Statement::AssertTrue(exp, message) => {
                self.evaluated_assertions.push(message.clone());
                match evaluate(exp) {
                    Ok(Flow::Value(value)) => {
                        let passed = value == Expression::CTrue;
                        self.records.push(self.env.record(message, passed));
                        Outcome::Continue
                    }
                    Ok(Flow::Return(value)) => {
                        self.env.env.set_return(value);
                        Outcome::Returned(())
                    }
                    Err(error) => Outcome::Failed(error),
                }
            }
            Statement::Block(stmts) => self.run(stmts),
            _ => Outcome::Continue,
        }
    }

    fn run(&mut self, stmts: &Vec<Statement>) -> Outcome<(), EvalError> {
        let mut last = Outcome::Continue;
        let mut index = 0;
        loop {
            match next_step(last, stmts.get(index)) {
                Step::Execute => last = self.execute(&stmts[index]),
                Step::Verdict(passed) => {
                    if let Statement::AssertFails(message) = &stmts[index] {
                        self.records.push(self.env.record(message, passed));
                    }
                    last = Outcome::Continue;
                }
                Step::Done(outcome) => return outcome,
            }
            index += 1;
        }
    }
}

fn assign(name: &str, exp: Expression) -> Statement {
    Statement::Assignment(name.to_string(), Box::new(exp), None)
}

fn record(message: &str, passed: bool) -> AssertionRecord {
    AssertionRecord { test: "__test__".to_string(), message: message.to_string(), passed }
}

#[test]
fn propagate_of_an_error_ends_the_function_before_the_next_statement() {
    let body = Statement::Block(vec![
        assign(
            "x",
            Expression::Propagate(Box::new(Expression::CErr(Box::new(Expression::CInt(1))))),
        ),
        Statement::AssertTrue(Box::new(Expression::CTrue), "unreachable".to_string()),
    ]);
    let mut host = Host::new();
    assert_eq!(host.execute(&body), Outcome::Returned(()));
    assert!(host.evaluated_assertions.is_empty());
    assert!(host.records.is_empty());
    assert_eq!(
        host.env.env.scope_return(),
        Some(&Expression::CErr(Box::new(Expression::CInt(1))))
    );
    assert_eq!(host.env.env.search_frame("x".to_string()), None);
    assert_eq!(
        host.env.env.leave_call(),
        Some(Expression::CErr(Box::new(Expression::CInt(1))))
    );
}

#[test]
fn propagate_of_a_success_goes_on_with_the_inner_value() {
    let body = Statement::Block(vec![
        assign(
            "x",
            Expression::Propagate(Box::new(Expression::COk(Box::new(Expression::CInt(1))))),
        ),
        Statement::AssertTrue(Box::new(Expression::CTrue), "reached".to_string()),
    ]);
    let mut host = Host::new();
    assert_eq!(host.execute(&body), Outcome::Continue);
    assert_eq!(host.evaluated_assertions, vec!["reached".to_string()]);
    assert_eq!(host.records, vec![record("reached", true)]);
    assert_eq!(host.env.env.search_frame("x".to_string()), Some(&Expression::CInt(1)));
    assert_eq!(host.env.env.scope_return(), None);
}

#[test]
fn return_skips_the_rest_of_the_block() {
    let body = Statement::Block(vec![
        Statement::Return(Box::new(Expression::CInt(7))),
        assign("x", Expression::CInt(1)),
    ]);
    let mut host = Host::new();
    assert_eq!(host.execute(&body), Outcome::Returned(()));
    assert_eq!(host.env.env.scope_return(), Some(&Expression::CInt(7)));
    assert_eq!(host.env.env.search_frame("x".to_string()), None);
}

#[test]
fn unwrap_evaluates_to_the_inner_value_or_fails() {
    let mut host = Host::new();
    let ok = assign(
        "x",
        Expression::Unwrap(Box::new(Expression::CJust(Box::new(Expression::CInt(5))))),
    );
    assert_eq!(host.execute(&ok), Outcome::Continue);
    assert_eq!(host.env.env.search_frame("x".to_string()), Some(&Expression::CInt(5)));
    let bad = assign("y", Expression::Unwrap(Box::new(Expression::CNothing)));
    assert_eq!(host.execute(&bad), Outcome::Failed(EvalError::UnwrapViolation));
    assert_eq!(host.env.env.search_frame("y".to_string()), None);
    assert_eq!(host.env.env.scope_key(), ("f".to_string(), 1));
}

#[test]
fn assert_fails_after_a_failure_records_a_pass() {
    let body = vec![
        assign("x", Expression::Unwrap(Box::new(Expression::CNothing))),
        Statement::AssertFails("expected failure".to_string()),
    ];
    let mut host = Host::new();
    assert_eq!(host.run(&body), Outcome::Continue);
    assert_eq!(host.records, vec![record("expected failure", true)]);
}

#[test]
fn assert_fails_after_a_success_records_a_failure_with_its_message() {
    let body = vec![
        assign("x", Expression::CInt(1)),
        Statement::AssertFails("expected failure".to_string()),
    ];
    let mut host = Host::new();
    assert_eq!(host.run(&body), Outcome::Continue);
    assert_eq!(host.records, vec![record("expected failure", false)]);
}

#[test]
fn a_failure_that_nothing_expects_ends_the_block() {
    let body = vec![
        assign("x", Expression::Unwrap(Box::new(Expression::CErr(Box::new(Expression::CInt(1)))))),
        assign("y", Expression::CInt(2)),
        Statement::AssertFails("too late".to_string()),
    ];
    let mut host = Host::new();
    assert_eq!(host.run(&body), Outcome::Failed(EvalError::UnwrapViolation));
    assert!(host.records.is_empty());
    assert_eq!(host.env.env.search_frame("y".to_string()), None);
}

#[test]
fn next_step_covers_every_case() {
    let fails = Statement::AssertFails("m".to_string());
    let other = Statement::VarDeclaration("x".to_string());
    type O = Outcome<i32, EvalError>;
    assert_eq!(next_step(O::Continue, None), Step::Done(O::Continue));
    assert_eq!(next_step(O::Continue, Some(&other)), Step::Execute);
    assert_eq!(next_step(O::Continue, Some(&fails)), Step::Verdict(false));
    assert_eq!(next_step(O::Returned(3), None), Step::Done(O::Returned(3)));
    assert_eq!(next_step(O::Returned(3), Some(&other)), Step::Done(O::Returned(3)));
    assert_eq!(next_step(O::Returned(3), Some(&fails)), Step::Done(O::Returned(3)));
    assert_eq!(
        next_step(O::Failed(EvalError::NotMonadic), None),
        Step::Done(O::Failed(EvalError::NotMonadic))
    );
    assert_eq!(
        next_step(O::Failed(EvalError::NotMonadic), Some(&other)),
        Step::Done(O::Failed(EvalError::NotMonadic))
    );
    assert_eq!(next_step(O::Failed(EvalError::NotMonadic), Some(&fails)), Step::Verdict(true));
}

#[test]
fn outcome_halts_unless_it_continues() {
    type O = Outcome<i32, EvalError>;
    assert!(!O::Continue.halts());
    assert!(O::Returned(1).halts());
    assert!(O::Failed(EvalError::UnwrapViolation).halts());
}

#[test]
fn record_carries_the_label_of_the_test_environment() {
    let mut env: TestEnvironment<i32> = TestEnvironment::new();
    assert_eq!(env.record(&"is positive".to_string(), true), record("is positive", true));
    env.name = "arithmetic".to_string();
    assert_eq!(
        env.record(&"is positive".to_string(), false),
        AssertionRecord {
            test: "arithmetic".to_string(),
            message: "is positive".to_string(),
            passed: false,
        }
    );
}

#[test]
fn test_run_leaves_the_program_environment_untouched() {
    let main_env: Environment<Expression> = Environment::new();
    let mut host = Host::new();
    let test = Function {
        name: "binds_x".to_string(),
        kind: None,
        params: None,
        body: Some(Box::new(Statement::Block(vec![assign("x", Expression::CInt(1))]))),
    };
    host.env.env.insert_test("binds_x".to_string(), test.clone());
    host.env.env.enter_call(test.clone(), vec![]);
    let body = test.body.clone().unwrap();
    assert_eq!(host.execute(&body), Outcome::Continue);
    assert_eq!(host.env.env.search_frame("x".to_string()), Some(&Expression::CInt(1)));
    assert_eq!(main_env.search_frame("x".to_string()), None);
    assert_eq!(main_env.recursion, 0);
}
