//! What runs of calls, returns and bindings keep of the call stack.

use vstd::prelude::*;
use crate::ast::FunctionView;
use crate::env::EnvironmentView;

verus! {

/// One operation on the call stack.
pub enum StackOp<A> {
    /// A call enters the given function (`insert_frame`).
    Call(FunctionView),
    /// The active call returns (`remove_frame`).
    Return,
    /// A value is bound to a name in the active frame (`insert_variable`).
    Bind(Seq<char>, A),
    /// A test is registered under a name in the active frame (`insert_test`).
    Register(Seq<char>, FunctionView),
}

/// The environment after one operation.
pub open spec fn step<A>(env: EnvironmentView<A>, op: StackOp<A>) -> EnvironmentView<A> {
    match op {
        StackOp::Call(func) => env.insert_frame(func),
        StackOp::Return => env.remove_frame(),
        StackOp::Bind(name, value) => env.insert_variable(name, value),
        StackOp::Register(name, test) => env.insert_test(name, test),
    }
}

/// The environment after the operations of `ops`, first to last.
pub open spec fn run<A>(env: EnvironmentView<A>, ops: Seq<StackOp<A>>) -> EnvironmentView<A>
    decreases ops.len(),
{
    if ops.len() == 0 {
        env
    } else {
        step(run(env, ops.drop_last()), ops.last())
    }
}

/// The number of calls in `ops` less the number of returns.
pub open spec fn nesting<A>(ops: Seq<StackOp<A>>) -> int
    decreases ops.len(),
{
    if ops.len() == 0 {
        0
    } else {
        nesting(ops.drop_last()) + match ops.last() {
            StackOp::Call(_) => 1int,
            StackOp::Return => -1int,
            _ => 0int,
        }
    }
}

/// At no point of `ops` have more calls returned than were made.
pub open spec fn well_nested<A>(ops: Seq<StackOp<A>>) -> bool
    decreases ops.len(),
{
    ops.len() == 0 || (well_nested(ops.drop_last()) && nesting(ops) >= 0)
}

/// Every binding and every registration of `ops` is made while a call of
/// `ops` is active.
pub open spec fn binds_inside_calls<A>(ops: Seq<StackOp<A>>) -> bool
    decreases ops.len(),
{
    ops.len() == 0 || (binds_inside_calls(ops.drop_last()) && (ops.last() is Bind
        || ops.last() is Register ==> nesting(ops.drop_last()) >= 1))
}

/// What a well-nested run keeps of the environment that it started in.
spec fn kept<A>(env: EnvironmentView<A>, ops: Seq<StackOp<A>>) -> bool {
    let after = run(env, ops);
    let depth = nesting(ops);
    let home = env.scope_key();
    &&& after.wf()
    &&& after.recursion == env.recursion + depth
    &&& forall|k: (Seq<char>, int)|
        k.1 < env.recursion ==> (#[trigger] after.stack.contains_key(k)) == env.stack.contains_key(
            k,
        )
    &&& forall|k: (Seq<char>, int)|
        k.1 < env.recursion && #[trigger] after.stack.contains_key(k) ==> after.stack[k]
            == env.stack[k]
    &&& after.stack.contains_key(home)
    &&& after.stack[home].parent_function == env.stack[home].parent_function
    &&& after.stack[home].parent_key == env.stack[home].parent_key
    &&& binds_inside_calls(ops) ==> after.stack[home] == env.stack[home]
    &&& depth == 0 ==> after.scope == env.scope
    &&& depth > 0 ==> forall|k: (Seq<char>, int)| #[trigger]
        after.stack.contains_key(k) && k.1 == env.recursion + 1 ==> after.stack[k].parent_function
            == Some(env.scope)
}

/// By induction on the run: each operation keeps what the run has kept so
/// far.
proof fn lemma_kept<A>(env: EnvironmentView<A>, ops: Seq<StackOp<A>>)
    requires
        env.wf(),
        well_nested(ops),
    ensures
        kept(env, ops),
    decreases ops.len(),
{
    if ops.len() > 0 {
        let before = run(env, ops.drop_last());
        let after = run(env, ops);
        lemma_kept(env, ops.drop_last());
        assert(nesting(ops.drop_last()) >= 0);
        assert(env.stack.contains_key(env.scope_key()));
        match ops.last() {
            StackOp::Call(func) => {
                before.lemma_insert_frame_wf(func);
                assert forall|k: (Seq<char>, int)| #[trigger]
                    after.stack.contains_key(k) && k.1 == env.recursion + 1 implies after.stack[k]
                        .parent_function == Some(env.scope) by {
                    if k != (func.name, before.recursion + 1) {
                        assert(before.stack.contains_key(k));
                    }
                }
            },
            StackOp::Return => {
                before.lemma_remove_frame_wf();
                assert(before.stack.contains_key(before.scope_key()));
            },
            StackOp::Bind(name, value) => {
                before.lemma_insert_variable_wf(name, value);
                assert(before.stack.contains_key(before.scope_key()));
            },
            StackOp::Register(name, test) => {
                before.lemma_insert_test_wf(name, test);
                assert(before.stack.contains_key(before.scope_key()));
            },
        }
    }
}

/// A run ends as many levels deeper as it has made calls, less the returns.
/// So a run with as many returns as calls ends at the depth at which it
/// began, in whatever order they come.
pub proof fn lemma_run_depth<A>(env: EnvironmentView<A>, ops: Seq<StackOp<A>>)
    ensures
        run(env, ops).recursion == env.recursion + nesting(ops),
    decreases ops.len(),
{
    if ops.len() > 0 {
        lemma_run_depth(env, ops.drop_last());
    }
}

/// A run in which every return answers a call of the run, and every call
/// has returned, ends at the depth and in the function in which it began.
pub proof fn lemma_balanced_run_restores_scope<A>(env: EnvironmentView<A>, ops: Seq<StackOp<A>>)
    requires
        env.wf(),
        well_nested(ops),
        nesting(ops) == 0,
    ensures
        run(env, ops).recursion == env.recursion,
        run(env, ops).scope == env.scope,
        run(env, ops).wf(),
{
    lemma_kept(env, ops);
}

/// Whatever the calls of a run bind, register, call and return, every frame
/// that was on the stack before the run is still there and holds what it
/// held, during the run and after it.
pub proof fn lemma_outer_frames_unchanged<A>(env: EnvironmentView<A>, ops: Seq<StackOp<A>>)
    requires
        env.wf(),
        well_nested(ops),
        binds_inside_calls(ops),
    ensures
        forall|k: (Seq<char>, int)| #[trigger]
            env.stack.contains_key(k) ==> run(env, ops).stack.contains_key(k) && run(
                env,
                ops,
            ).stack[k] == env.stack[k],
{
    lemma_kept(env, ops);
    let after = run(env, ops);
    assert forall|k: (Seq<char>, int)| #[trigger]
        env.stack.contains_key(k) implies after.stack.contains_key(k) && after.stack[k]
        == env.stack[k] by {
        if k.1 == env.recursion {
            assert(env.stack.contains_key(env.scope_key()));
            assert(k == env.scope_key());
        }
    }
}

/// A run of complete calls leaves the environment exactly as it found it.
pub proof fn lemma_balanced_run_restores_environment<A>(
    env: EnvironmentView<A>,
    ops: Seq<StackOp<A>>,
)
    requires
        env.wf(),
        well_nested(ops),
        nesting(ops) == 0,
        binds_inside_calls(ops),
    ensures
        run(env, ops) == env,
{
    lemma_kept(env, ops);
    lemma_outer_frames_unchanged(env, ops);
    let after = run(env, ops);
    assert forall|k: (Seq<char>, int)| #[trigger]
        after.stack.contains_key(k) implies env.stack.contains_key(k) by {
        if k.1 == env.recursion {
            assert(after.stack.contains_key(env.scope_key()));
            assert(k == env.scope_key());
        }
    }
    assert(after.stack =~= env.stack);
}

/// A whole call leaves the caller's environment exactly as it was: after a
/// call has been entered with its arguments, its body has bound, registered,
/// called and returned at will, and the call has been left, no frame of the
/// caller or of its callers has changed, and the caller is active again at
/// its own depth.
pub proof fn lemma_call_restores_caller<A>(
    env: EnvironmentView<A>,
    func: FunctionView,
    bindings: Seq<(Seq<char>, A)>,
    body: Seq<StackOp<A>>,
)
    requires
        env.wf(),
        well_nested(body),
        nesting(body) == 0,
    ensures
        run(env.enter_call(func, bindings), body).can_remove_frame(),
        run(env.enter_call(func, bindings), body).remove_frame() == env,
{
    let pushed = env.insert_frame(func);
    let entered = env.enter_call(func, bindings);
    let home = pushed.scope_key();
    env.lemma_insert_frame_wf(func);
    pushed.lemma_bind_all_keeps(bindings);
    lemma_kept(entered, body);
    let after = run(entered, body);
    after.lemma_remove_frame_wf();
    let left = after.remove_frame();
    assert(entered.stack.contains_key(home));
    assert(after.stack.contains_key(home));
    assert forall|k: (Seq<char>, int)| k != home implies (#[trigger] entered.stack.contains_key(k)
        == env.stack.contains_key(k)) && (env.stack.contains_key(k) ==> entered.stack[k]
        == env.stack[k]) by {
        assert(entered.stack.remove(home).contains_key(k) == pushed.stack.remove(
            home,
        ).contains_key(k));
        if env.stack.contains_key(k) {
            assert(entered.stack.remove(home)[k] == pushed.stack.remove(home)[k]);
        }
    }
    assert forall|k: (Seq<char>, int)| #[trigger]
        left.stack.contains_key(k) == env.stack.contains_key(k) by {
        if left.stack.contains_key(k) {
            assert(after.stack.contains_key(k));
            if k.1 == after.recursion {
                assert(k == home);
            }
        }
        if env.stack.contains_key(k) {
            assert(k.1 < entered.recursion);
            assert(entered.stack.contains_key(k));
        }
    }
    assert forall|k: (Seq<char>, int)| #[trigger] left.stack.contains_key(k) implies left.stack[k]
        == env.stack[k] by {
        assert(after.stack.contains_key(k));
        assert(k.1 < entered.recursion);
        assert(entered.stack.contains_key(k));
    }
    assert(left.stack =~= env.stack);
}

} // verus!
