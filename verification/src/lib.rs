//! The core of an interpreter for a small imperative language with maybe
//! and result values, tests and recursion: the syntax tree, the types, and
//! the stack of call frames that gives every activation of a function its
//! own variables, together with the rules by which unwrapping, propagation,
//! returns and assertions act on that stack.

pub mod assoc;
pub mod ast;
pub mod control;
pub mod env;
pub mod frame;
pub mod monadic;
pub mod parse;
pub mod runs;
pub mod types;
