//! How statements follow one another, how a call begins and ends, and what
//! a test run records.

use vstd::prelude::*;
use crate::ast::{Function, Name, Statement, StatementView};
use crate::env::{Environment, TestEnvironment};
use crate::frame::Frame;

verus! {

/// How the execution of a statement ended.
#[derive(Debug, PartialEq)]
pub enum Outcome<V, E> {
    /// The statement is done and the next one may run.
    Continue,
    /// The active function returns this value: no further statement of its
    /// body runs.
    Returned(V),
    /// The evaluation failed with this error.
    Failed(E),
}

impl<V, E> Outcome<V, E> {
    /// Whether the statements that follow must be skipped.
    pub fn halts(&self) -> (res: bool)
        ensures
            res == !(self is Continue),
    {
        match self {
            Outcome::Continue => false,
            _ => true,
        }
    }
}

/// What to do next in a sequence of statements.
#[derive(Debug, PartialEq)]
pub enum Step<V, E> {
    /// Execute the next statement.
    Execute,
    /// The next statement is `AssertFails`: record that it passed (`true`)
    /// or that it failed with its message (`false`), and go on after it.
    Verdict(bool),
    /// The sequence has ended with this outcome.
    Done(Outcome<V, E>),
}

/// The step that follows a statement that ended with `last`, where `next` is
/// the statement after it in the sequence, if there is one.
///
/// A return ends the sequence. A failure ends it too, unless the next
/// statement is `AssertFails`, which then passes. After a statement that went
/// through, `AssertFails` fails, any other statement is executed, and the
/// end of the sequence ends it.
pub open spec fn step_after<V, E>(last: Outcome<V, E>, next: Option<StatementView>) -> Step<V, E> {
    match last {
        Outcome::Returned(value) => Step::Done(Outcome::Returned(value)),
        Outcome::Failed(error) => match next {
            Some(StatementView::AssertFails(_)) => Step::Verdict(true),
            _ => Step::Done(Outcome::Failed(error)),
        },
        Outcome::Continue => match next {
            None => Step::Done(Outcome::Continue),
            Some(StatementView::AssertFails(_)) => Step::Verdict(false),
            Some(_) => Step::Execute,
        },
    }
}

/// Once a function has returned, no statement of the sequence is executed
/// and no assertion of it is judged, whatever comes next.
pub proof fn lemma_return_ends_sequence<V, E>(value: V, next: Option<StatementView>)
    ensures
        step_after::<V, E>(Outcome::Returned(value), next) == Step::<V, E>::Done(
            Outcome::Returned(value),
        ),
{
}

/// `AssertFails` passes right after a statement that failed, and fails
/// right after a statement that went through.
pub proof fn lemma_assert_fails_pairing<V, E>(error: E, message: Seq<char>)
    ensures
        step_after::<V, E>(Outcome::Failed(error), Some(StatementView::AssertFails(message)))
            == Step::<V, E>::Verdict(true),
        step_after::<V, E>(Outcome::Continue, Some(StatementView::AssertFails(message)))
            == Step::<V, E>::Verdict(false),
{
}

/// A failure that no `AssertFails` expects ends the sequence: no later
/// statement is executed.
pub proof fn lemma_failure_ends_sequence<V, E>(error: E, next: Option<StatementView>)
    requires
        !(next is Some && next->0 is AssertFails),
    ensures
        step_after::<V, E>(Outcome::Failed(error), next) == Step::<V, E>::Done(
            Outcome::Failed(error),
        ),
{
}

/// Model of an optional statement.
pub open spec fn statement_option_view(stmt: Option<&Statement>) -> Option<StatementView> {
    match stmt {
        Some(s) => Some(s@),
        None => None,
    }
}

/// Decides what follows a statement that ended with `last` in a sequence
/// whose next statement is `next`.
pub fn next_step<V, E>(last: Outcome<V, E>, next: Option<&Statement>) -> (res: Step<V, E>)
    ensures
        res == step_after(last, statement_option_view(next)),
{
    match last {
        Outcome::Returned(value) => Step::Done(Outcome::Returned(value)),
        Outcome::Failed(error) => match next {
            Some(Statement::AssertFails(_)) => Step::Verdict(true),
            _ => Step::Done(Outcome::Failed(error)),
        },
        Outcome::Continue => match next {
            None => Step::Done(Outcome::Continue),
            Some(Statement::AssertFails(_)) => Step::Verdict(false),
            Some(_) => Step::Execute,
        },
    }
}

/// The record of one assertion of a test run.
#[derive(Debug, PartialEq)]
pub struct AssertionRecord {
    /// The label of the test environment under which the assertion ran.
    pub test: Name,
    /// The message of the assertion.
    pub message: String,
    /// Whether the assertion held.
    pub passed: bool,
}

impl<A> TestEnvironment<A> {
    /// The record of an assertion with the given message that ran under
    /// this test environment.
    pub fn record(&self, message: &String, passed: bool) -> (res: AssertionRecord)
        ensures
            res.test@ == self@.name,
            res.message@ == message@,
            res.passed == passed,
    {
        AssertionRecord { test: self.name.clone(), message: message.clone(), passed }
    }
}

/// Model of a list of bindings.
pub open spec fn binding_models<A>(bindings: Seq<(Name, A)>) -> Seq<(Seq<char>, A)> {
    Seq::new(bindings.len(), |i: int| (bindings[i].0@, bindings[i].1))
}

impl<A> Environment<A> {
    /// Executes `Return` on its evaluated operand: leaves `value` in the
    /// slot from which `scope_return` takes the result of the active
    /// function.
    pub fn set_return(&mut self, value: A)
        ensures
            final(self)@ == old(self)@.insert_variable(old(self)@.scope.name, value),
            old(self)@.has_current_frame() ==> final(self)@.scope_return() == Some(value),
            old(self)@.wf() ==> final(self)@.wf(),
    {
        let name = self.scope_name();
        self.insert_variable(name, value);
    }

    /// Enters a call to `func`: pushes its frame and binds each argument in
    /// it, first to last.
    pub fn enter_call(&mut self, func: Function, bindings: Vec<(Name, A)>)
        requires
            old(self).recursion < i32::MAX,
        ensures
            final(self)@ == old(self)@.enter_call(func@, binding_models(bindings@)),
            old(self)@.wf() ==> final(self)@.wf(),
    {
        let ghost items = bindings@;
        let ghost all = binding_models(items);
        self.insert_frame(func);
        let ghost entered = self@;
        for binding in it: bindings
            invariant
                it.seq() == items,
                all == binding_models(items),
                self@ == entered.bind_all(all.take(it.index() as int)),
                old(self)@.wf() ==> self@.wf(),
        {
            let ghost done = it.index() as int;
            let (name, value) = binding;
            self.insert_variable(name, value);
            proof {
                assert(all.take(done + 1).drop_last() =~= all.take(done));
                assert(all.take(done + 1).last() == (name@, value));
            }
        }
        assert(all.take(items.len() as int) =~= all);
    }

    /// Leaves the active call and hands out the result that it left in its
    /// return slot, if any.
    pub fn leave_call(&mut self) -> (res: Option<A>)
        requires
            old(self)@.can_remove_frame(),
            old(self).recursion > i32::MIN,
        ensures
            final(self)@ == old(self)@.remove_frame(),
            res == old(self)@.scope_return(),
            old(self)@.wf() ==> final(self)@.wf(),
    {
        proof {
            if self@.wf() {
                self@.lemma_remove_frame_wf();
            }
        }
        let recursion = self.recursion - 1;
        let key = self.scope_key();
        let frame = self.stack.remove(&key).unwrap();
        let Frame { parent_function, parent_key: _, variables, tests: _ } = frame;
        let mut variables = variables;
        let res = variables.remove(&key.0);
        self.scope = parent_function.unwrap();
        self.recursion = recursion;
        assert(self@.stack =~= old(self)@.remove_frame().stack);
        res
    }
}

} // verus!
