//! The call stack: one frame for each call that has not returned, and the
//! function and depth of the active one.

use vstd::prelude::*;
use crate::assoc::AssocMap;
use crate::ast::{Function, FunctionView, Name};
use crate::frame::{Frame, FrameView};

verus! {

broadcast use vstd::string::to_string_from_display_ensures_for_str;

/// The call stack of one pass over a program: the function that is active,
/// the depth of the active call, and one frame for each call that has not
/// returned, under the name of its function and its depth.
#[derive(Debug, PartialEq)]
pub struct Environment<A> {
    /// The active function.
    pub scope: Function,
    /// The depth of the active call: 0 at the top level.
    pub recursion: i32,
    /// The frames of the calls that have not returned, each under the name
    /// of its function and the depth of the call.
    pub stack: AssocMap<(Name, i32), Frame<A>>,
}

/// Mathematical model of an [`Environment`].
#[verifier::ext_equal]
pub struct EnvironmentView<A> {
    pub scope: FunctionView,
    pub recursion: int,
    pub stack: Map<(Seq<char>, int), FrameView<A>>,
}

impl<A> EnvironmentView<A> {
    /// The environment of a pass that has made no call yet: the top-level
    /// function at depth 0, with one empty frame that has no parent.
    pub open spec fn initial() -> Self {
        EnvironmentView {
            scope: FunctionView::top_level(),
            recursion: 0,
            stack: Map::empty().insert(
                (FunctionView::top_level_name(), 0int),
                FrameView::empty(None, None),
            ),
        }
    }

    /// The key of the active frame: the active function's name and the depth.
    pub open spec fn scope_key(self) -> (Seq<char>, int) {
        (self.scope.name, self.recursion)
    }

    /// Whether the stack holds a frame under the active key.
    pub open spec fn has_current_frame(self) -> bool {
        self.stack.contains_key(self.scope_key())
    }

    /// The active frame.
    pub open spec fn current_frame(self) -> FrameView<A>
        recommends
            self.has_current_frame(),
    {
        self.stack[self.scope_key()]
    }

    /// What the active frame binds to `name`. No other frame is looked at.
    pub open spec fn search_frame(self, name: Seq<char>) -> Option<A>
        recommends
            self.has_current_frame(),
    {
        if self.current_frame().variables.contains_key(name) {
            Some(self.current_frame().variables[name])
        } else {
            None
        }
    }

    /// What the active frame binds to the active function's own name: the
    /// slot in which a function leaves its result. The slot is an ordinary
    /// variable: a program that binds a variable with the name of its
    /// function writes to the same slot.
    pub open spec fn scope_return(self) -> Option<A>
        recommends
            self.has_current_frame(),
    {
        self.search_frame(self.scope.name)
    }

    /// The environment after a call to `func`: one level deeper, with an
    /// empty frame for `func` that links back to the caller.
    pub open spec fn insert_frame(self, func: FunctionView) -> Self {
        EnvironmentView {
            scope: func,
            recursion: self.recursion + 1,
            stack: self.stack.insert(
                (func.name, self.recursion + 1),
                FrameView::empty(Some(self.scope), Some(self.scope_key())),
            ),
        }
    }

    /// Whether the active call can return: its frame is there and records
    /// the function that made the call.
    pub open spec fn can_remove_frame(self) -> bool {
        self.has_current_frame() && self.current_frame().parent_function is Some
    }

    /// The environment after the active call has returned: its frame is
    /// gone, and the caller is active again, one level up.
    pub open spec fn remove_frame(self) -> Self
        recommends
            self.can_remove_frame(),
    {
        EnvironmentView {
            scope: self.current_frame().parent_function->0,
            recursion: self.recursion - 1,
            stack: self.stack.remove(self.scope_key()),
        }
    }

    /// The environment with `value` bound to `name` in the active frame, or
    /// unchanged where there is no active frame.
    pub open spec fn insert_variable(self, name: Seq<char>, value: A) -> Self {
        if self.has_current_frame() {
            EnvironmentView {
                stack: self.stack.insert(
                    self.scope_key(),
                    self.current_frame().with_variable(name, value),
                ),
                ..self
            }
        } else {
            self
        }
    }

    /// The environment with `test` registered under `name` in the active
    /// frame, or unchanged where there is no active frame.
    pub open spec fn insert_test(self, name: Seq<char>, test: FunctionView) -> Self {
        if self.has_current_frame() {
            EnvironmentView {
                stack: self.stack.insert(
                    self.scope_key(),
                    self.current_frame().with_test(name, test),
                ),
                ..self
            }
        } else {
            self
        }
    }

    /// The environment after each binding of `bindings` was made in the
    /// active frame, first to last.
    pub open spec fn bind_all(self, bindings: Seq<(Seq<char>, A)>) -> Self
        decreases bindings.len(),
    {
        if bindings.len() == 0 {
            self
        } else {
            self.bind_all(bindings.drop_last()).insert_variable(
                bindings.last().0,
                bindings.last().1,
            )
        }
    }

    /// The environment at the start of the body of a call to `func` with
    /// the given arguments.
    pub open spec fn enter_call(self, func: FunctionView, bindings: Seq<(Seq<char>, A)>) -> Self {
        self.insert_frame(func).bind_all(bindings)
    }

    /// The stack is that of a run of calls and returns from the initial
    /// environment: one frame at each depth from 0 to the active one, the
    /// active frame among them, the frame at depth 0 without a parent, and
    /// each other frame linked to the frame one level up, under the name of
    /// the function that it records as its caller.
    pub open spec fn wf(self) -> bool {
        &&& self.has_current_frame()
        &&& forall|k: (Seq<char>, int)| #[trigger]
            self.stack.contains_key(k) ==> 0 <= k.1 <= self.recursion
        &&& forall|k1: (Seq<char>, int), k2: (Seq<char>, int)|
            #![trigger self.stack.contains_key(k1), self.stack.contains_key(k2)]
            self.stack.contains_key(k1) && self.stack.contains_key(k2) && k1.1 == k2.1 ==> k1
                == k2
        &&& forall|k: (Seq<char>, int)| #[trigger]
            self.stack.contains_key(k) && k.1 == 0 ==> self.stack[k].parent_function is None
                && self.stack[k].parent_key is None
        &&& forall|k: (Seq<char>, int)| #[trigger]
            self.stack.contains_key(k) && k.1 > 0 ==> {
                &&& self.stack[k].parent_function is Some
                &&& self.stack[k].parent_key == Some(
                    (self.stack[k].parent_function->0.name, k.1 - 1),
                )
                &&& self.stack.contains_key((self.stack[k].parent_function->0.name, k.1 - 1))
            }
    }

    /// A call keeps a well-formed environment well formed.
    pub proof fn lemma_insert_frame_wf(self, func: FunctionView)
        requires
            self.wf(),
        ensures
            self.insert_frame(func).wf(),
            !self.stack.contains_key((func.name, self.recursion + 1)),
    {
        let after = self.insert_frame(func);
        let key = (func.name, self.recursion + 1);
        assert forall|k: (Seq<char>, int)| #[trigger] after.stack.contains_key(k) implies k == key
            || self.stack.contains_key(k) by {}
        assert(self.stack.contains_key(self.scope_key()));
    }

    /// In a well-formed environment the active call can return whenever it
    /// is not the top level, and the return leaves the environment well
    /// formed.
    pub proof fn lemma_remove_frame_wf(self)
        requires
            self.wf(),
            self.recursion > 0,
        ensures
            self.can_remove_frame(),
            self.remove_frame().wf(),
    {
        let after = self.remove_frame();
        let key = self.scope_key();
        assert(self.stack.contains_key(key));
        assert forall|k: (Seq<char>, int)| #[trigger] after.stack.contains_key(k) implies k.1
            <= after.recursion by {
            assert(self.stack.contains_key(k));
            if k.1 == self.recursion {
                assert(k == key);
            }
        }
    }

    /// A binding keeps a well-formed environment well formed.
    pub proof fn lemma_insert_variable_wf(self, name: Seq<char>, value: A)
        requires
            self.wf(),
        ensures
            self.insert_variable(name, value).wf(),
    {
        let after = self.insert_variable(name, value);
        assert forall|k: (Seq<char>, int)| #[trigger]
            after.stack.contains_key(k) == self.stack.contains_key(k) by {}
    }

    /// A registered test keeps a well-formed environment well formed.
    pub proof fn lemma_insert_test_wf(self, name: Seq<char>, test: FunctionView)
        requires
            self.wf(),
        ensures
            self.insert_test(name, test).wf(),
    {
        let after = self.insert_test(name, test);
        assert forall|k: (Seq<char>, int)| #[trigger]
            after.stack.contains_key(k) == self.stack.contains_key(k) by {}
    }

    /// Bindings change nothing but the variables of the active frame.
    pub proof fn lemma_bind_all_keeps(self, bindings: Seq<(Seq<char>, A)>)
        requires
            self.has_current_frame(),
        ensures
            self.bind_all(bindings).scope == self.scope,
            self.bind_all(bindings).recursion == self.recursion,
            self.bind_all(bindings).has_current_frame(),
            self.bind_all(bindings).current_frame().parent_function
                == self.current_frame().parent_function,
            self.bind_all(bindings).current_frame().parent_key == self.current_frame().parent_key,
            self.bind_all(bindings).current_frame().tests == self.current_frame().tests,
            self.bind_all(bindings).stack.remove(self.scope_key()) == self.stack.remove(
                self.scope_key(),
            ),
            self.wf() ==> self.bind_all(bindings).wf(),
        decreases bindings.len(),
    {
        if bindings.len() > 0 {
            let before = self.bind_all(bindings.drop_last());
            self.lemma_bind_all_keeps(bindings.drop_last());
            if self.wf() {
                before.lemma_insert_variable_wf(bindings.last().0, bindings.last().1);
            }
            assert(self.bind_all(bindings).stack.remove(self.scope_key()) =~= before.stack.remove(
                self.scope_key(),
            ));
        }
    }

    /// A binding is found again under its name, and hides no other binding
    /// of the active frame.
    pub proof fn lemma_search_after_insert(self, name: Seq<char>, value: A, other: Seq<char>)
        requires
            self.has_current_frame(),
        ensures
            self.insert_variable(name, value).search_frame(name) == Some(value),
            other != name ==> self.insert_variable(name, value).search_frame(other)
                == self.search_frame(other),
    {
    }

    /// A value bound to the active function's own name is what `scope_return`
    /// yields while that function stays active.
    pub proof fn lemma_return_slot(self, value: A)
        requires
            self.has_current_frame(),
        ensures
            self.insert_variable(self.scope.name, value).scope_return() == Some(value),
    {
    }

    /// The frame of a call that has just been entered binds no name.
    pub proof fn lemma_fresh_frame_binds_nothing(self, func: FunctionView, name: Seq<char>)
        ensures
            self.insert_frame(func).has_current_frame(),
            self.insert_frame(func).search_frame(name) is None,
    {
    }

    /// A name bound in the caller's frame is not found in the callee's,
    /// whatever the callee goes on to bind under other names.
    pub proof fn lemma_no_lexical_leak(
        self,
        name: Seq<char>,
        value: A,
        func: FunctionView,
        other: Seq<char>,
        other_value: A,
    )
        requires
            other != name,
        ensures
            self.insert_variable(name, value).insert_frame(func).search_frame(name) is None,
            self.insert_variable(name, value).insert_frame(func).insert_variable(
                other,
                other_value,
            ).search_frame(name) is None,
    {
    }
}

impl<A> View for Environment<A> {
    type V = EnvironmentView<A>;

    open spec fn view(&self) -> EnvironmentView<A> {
        EnvironmentView {
            scope: self.scope@,
            recursion: self.recursion as int,
            stack: self.stack@.map_values(|f: Frame<A>| f@),
        }
    }
}

impl<A> Environment<A> {
    /// The environment at the start of a pass.
    pub fn new() -> (res: Environment<A>)
        ensures
            res@ == EnvironmentView::<A>::initial(),
            res@.wf(),
    {
        let frame: Frame<A> = Frame::new(None, None);
        let scope = Function::new();
        let mut stack: AssocMap<(Name, i32), Frame<A>> = AssocMap::new();
        stack.insert(("__main__".to_string(), 0), frame);
        let res = Environment { scope, recursion: 0, stack };
        assert(res@.stack =~= EnvironmentView::<A>::initial().stack);
        res
    }

    /// The key of the active frame.
    pub fn scope_key(&self) -> (res: (Name, i32))
        ensures
            (res.0@, res.1 as int) == self@.scope_key(),
    {
        (self.scope_name(), self.recursion)
    }

    /// The name of the active function.
    pub fn scope_name(&self) -> (res: Name)
        ensures
            res@ == self@.scope.name,
    {
        self.scope.name.clone()
    }

    /// The result that the active function has left in its frame, if any:
    /// what the active frame binds to the function's own name.
    pub fn scope_return(&self) -> (res: Option<&A>)
        requires
            self@.has_current_frame(),
        ensures
            res is Some == self@.scope_return() is Some,
            res is Some ==> *res->0 == self@.scope_return()->0,
    {
        self.search_frame(self.scope_name())
    }

    /// The frame under `key`.
    pub fn get_frame(&self, key: (Name, i32)) -> (res: &Frame<A>)
        requires
            self@.stack.contains_key((key.0@, key.1 as int)),
        ensures
            res@ == self@.stack[(key.0@, key.1 as int)],
    {
        self.stack.get(&key).unwrap()
    }

    /// The value that the active frame binds to `name`, if any.
    pub fn search_frame(&self, name: Name) -> (res: Option<&A>)
        requires
            self@.has_current_frame(),
        ensures
            res is Some == self@.search_frame(name@) is Some,
            res is Some ==> *res->0 == self@.search_frame(name@)->0,
    {
        self.stack.get(&self.scope_key()).unwrap().variables.get(&name)
    }

    /// Enters a call to `func`.
    pub fn insert_frame(&mut self, func: Function)
        requires
            old(self).recursion < i32::MAX,
        ensures
            final(self)@ == old(self)@.insert_frame(func@),
            old(self)@.wf() ==> final(self)@.wf(),
    {
        proof {
            if self@.wf() {
                self@.lemma_insert_frame_wf(func@);
            }
        }
        let new_frame: Frame<A> = Frame::new(Some(self.scope.clone()), Some(self.scope_key()));
        self.stack.insert((func.name.clone(), self.scope_key().1 + 1), new_frame);
        self.scope = func;
        self.recursion += 1;
        assert(self@.stack =~= old(self)@.insert_frame(func@).stack);
    }

    /// Leaves the active call.
    pub fn remove_frame(&mut self)
        requires
            old(self)@.can_remove_frame(),
            old(self).recursion > i32::MIN,
        ensures
            final(self)@ == old(self)@.remove_frame(),
            old(self)@.wf() ==> final(self)@.wf(),
    {
        proof {
            if self@.wf() {
                self@.lemma_remove_frame_wf();
            }
        }
        let recursion = self.scope_key().1 - 1;
        let key = self.scope_key();
        self.scope = self.stack.remove(&key).unwrap().parent_function.unwrap();
        self.recursion = recursion;
        assert(self@.stack =~= old(self)@.remove_frame().stack);
    }

    /// Binds `kind` to `name` in the active frame, in place of what `name`
    /// was bound to there.
    pub fn insert_variable(&mut self, name: Name, kind: A)
        ensures
            final(self)@ == old(self)@.insert_variable(name@, kind),
            old(self)@.wf() ==> final(self)@.wf(),
    {
        proof {
            if self@.wf() {
                self@.lemma_insert_variable_wf(name@, kind);
            }
        }
        let key = self.scope_key();
        match self.stack.remove(&key) {
            Some(frame) => {
                let mut frame = frame;
                frame.variables.insert(name, kind);
                self.stack.insert(key, frame);
                assert(self@.stack =~= old(self)@.insert_variable(name@, kind).stack);
            },
            None => {
                assert(self@.stack =~= old(self)@.stack);
            },
        }
    }

    /// Registers `test` under `name` in the active frame, in place of the
    /// test that was registered there under that name.
    pub fn insert_test(&mut self, name: Name, test: Function)
        ensures
            final(self)@ == old(self)@.insert_test(name@, test@),
            old(self)@.wf() ==> final(self)@.wf(),
    {
        proof {
            if self@.wf() {
                self@.lemma_insert_test_wf(name@, test@);
            }
        }
        let key = self.scope_key();
        match self.stack.remove(&key) {
            Some(frame) => {
                let mut frame = frame;
                frame.tests.insert(name, test);
                assert(frame@.tests =~= old(self)@.current_frame().with_test(name@, test@).tests);
                self.stack.insert(key, frame);
                assert(self@.stack =~= old(self)@.insert_test(name@, test@).stack);
            },
            None => {
                assert(self@.stack =~= old(self)@.stack);
            },
        }
    }
}

impl<A: Clone> EnvironmentView<A> {
    /// Whether `other` may be a clone of this environment: the same active
    /// function and depth, and under each key a clone of the frame that is
    /// here.
    pub open spec fn cloned_as(self, other: Self) -> bool {
        &&& other.scope == self.scope
        &&& other.recursion == self.recursion
        &&& other.stack.dom() == self.stack.dom()
        &&& forall|k: (Seq<char>, int)| #[trigger]
            self.stack.contains_key(k) ==> self.stack[k].cloned_as(other.stack[k])
    }
}

impl<A: Clone> Clone for Environment<A> {
    /// An environment with the same active function and depth, and a clone
    /// of each frame.
    fn clone(&self) -> (res: Self)
        ensures
            self@.cloned_as(res@),
    {
        let stack = self.stack.clone();
        let res = Environment { scope: self.scope.clone(), recursion: self.recursion, stack };
        assert(res@.stack.dom() =~= self@.stack.dom());
        res
    }
}

/// An environment of its own for the run of a test, with the label under
/// which the run is reported.
#[derive(Debug, PartialEq)]
pub struct TestEnvironment<A> {
    /// The label of the test run.
    pub name: Name,
    /// The environment of the test run, shared with no other run.
    pub env: Environment<A>,
}

/// Mathematical model of a [`TestEnvironment`].
pub struct TestEnvironmentView<A> {
    pub name: Seq<char>,
    pub env: EnvironmentView<A>,
}

impl<A> TestEnvironmentView<A> {
    /// The label of a test environment that has not been given another.
    pub open spec fn default_name() -> Seq<char> {
        "__test__"@
    }

    /// The test environment at the start of a test run.
    pub open spec fn initial() -> Self {
        TestEnvironmentView { name: Self::default_name(), env: EnvironmentView::initial() }
    }
}

impl<A> View for TestEnvironment<A> {
    type V = TestEnvironmentView<A>;

    open spec fn view(&self) -> TestEnvironmentView<A> {
        TestEnvironmentView { name: self.name@, env: self.env@ }
    }
}

impl<A> TestEnvironment<A> {
    /// A fresh environment for a test run, labelled `__test__`.
    pub fn new() -> (res: TestEnvironment<A>)
        ensures
            res@ == TestEnvironmentView::<A>::initial(),
            res@.env.wf(),
    {
        TestEnvironment { name: "__test__".to_string(), env: Environment::<A>::new() }
    }
}

impl<A: Clone> Clone for TestEnvironment<A> {
    /// A test environment with the same label and a clone of the
    /// environment.
    fn clone(&self) -> (res: Self)
        ensures
            res@.name == self@.name,
            self@.env.cloned_as(res@.env),
    {
        TestEnvironment { name: self.name.clone(), env: self.env.clone() }
    }
}

} // verus!
