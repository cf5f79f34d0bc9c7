//! The frame of one activation of a function.

use vstd::prelude::*;
use crate::assoc::AssocMap;
use crate::ast::{Function, FunctionView, Name};

verus! {

/// The variables and tests of one activation of a function, with a link back
/// to the function that made the call.
#[derive(Debug, PartialEq)]
pub struct Frame<A> {
    /// The function that made the call; none for the frame of the top level.
    pub parent_function: Option<Function>,
    /// The key of the frame of that function; none for the frame of the top
    /// level.
    pub parent_key: Option<(Name, i32)>,
    /// What each variable of this activation is bound to.
    pub variables: AssocMap<Name, A>,
    /// The tests registered in this activation, by name.
    pub tests: AssocMap<Name, Function>,
}

/// Mathematical model of a [`Frame`].
#[verifier::ext_equal]
pub struct FrameView<A> {
    pub parent_function: Option<FunctionView>,
    pub parent_key: Option<(Seq<char>, int)>,
    pub variables: Map<Seq<char>, A>,
    pub tests: Map<Seq<char>, FunctionView>,
}

/// Model of an optional function.
pub open spec fn function_option_view(func: Option<Function>) -> Option<FunctionView> {
    match func {
        Some(f) => Some(f@),
        None => None,
    }
}

/// Model of an optional frame key.
pub open spec fn key_option_view(key: Option<(Name, i32)>) -> Option<(Seq<char>, int)> {
    match key {
        Some(k) => Some((k.0@, k.1 as int)),
        None => None,
    }
}

impl<A> FrameView<A> {
    /// The frame with the given links and nothing in it.
    pub open spec fn empty(
        parent_function: Option<FunctionView>,
        parent_key: Option<(Seq<char>, int)>,
    ) -> Self {
        FrameView { parent_function, parent_key, variables: Map::empty(), tests: Map::empty() }
    }

    /// This frame with `value` bound to `name`.
    pub open spec fn with_variable(self, name: Seq<char>, value: A) -> Self {
        FrameView { variables: self.variables.insert(name, value), ..self }
    }

    /// This frame with `test` registered under `name`.
    pub open spec fn with_test(self, name: Seq<char>, test: FunctionView) -> Self {
        FrameView { tests: self.tests.insert(name, test), ..self }
    }
}

impl<A: Clone> FrameView<A> {
    /// Whether `other` may be a clone of this frame: the same links and
    /// tests, and under each name a clone of the value that it is bound to
    /// here.
    pub open spec fn cloned_as(self, other: Self) -> bool {
        &&& other.parent_function == self.parent_function
        &&& other.parent_key == self.parent_key
        &&& other.tests == self.tests
        &&& other.variables.dom() == self.variables.dom()
        &&& forall|name: Seq<char>| #[trigger]
            self.variables.contains_key(name) ==> cloned::<A>(
                self.variables[name],
                other.variables[name],
            )
    }
}

impl<A> View for Frame<A> {
    type V = FrameView<A>;

    open spec fn view(&self) -> FrameView<A> {
        FrameView {
            parent_function: function_option_view(self.parent_function),
            parent_key: key_option_view(self.parent_key),
            variables: self.variables@,
            tests: self.tests@.map_values(|f: Function| f@),
        }
    }
}

impl<A> Frame<A> {
    /// A frame without variables or tests, for a call made by `func` from the
    /// frame under `key`.
    pub fn new(func: Option<Function>, key: Option<(Name, i32)>) -> (res: Frame<A>)
        ensures
            res@ == FrameView::<A>::empty(function_option_view(func), key_option_view(key)),
    {
        let variables: AssocMap<Name, A> = AssocMap::new();
        let tests: AssocMap<Name, Function> = AssocMap::new();
        let res = Frame { parent_function: func, parent_key: key, variables, tests };
        assert(res@.tests =~= Map::empty());
        res
    }
}

impl<A: Clone> Clone for Frame<A> {
    /// A frame with the same links and tests, and a clone of each variable.
    fn clone(&self) -> (res: Self)
        ensures
            self@.cloned_as(res@),
    {
        let parent_function = match &self.parent_function {
            Some(func) => Some(func.clone()),
            None => None,
        };
        let parent_key = match &self.parent_key {
            Some(key) => Some((key.0.clone(), key.1)),
            None => None,
        };
        let variables = self.variables.clone();
        let tests = self.tests.clone();
        assert(tests@.map_values(|f: Function| f@) =~= self.tests@.map_values(|f: Function| f@));
        Frame { parent_function, parent_key, variables, tests }
    }
}

} // verus!
