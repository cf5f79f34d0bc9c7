//! The operations on evaluated results and maybes: `Unwrap`, `IsError`,
//! `IsNothing` and `Propagate`. A value is an expression in normal form.

use vstd::prelude::*;
use crate::ast::{Expression, ExpressionView};

verus! {

/// A failure of an evaluation that the program under evaluation can be told
/// of: none of them is an error of the call stack.
#[derive(Debug, PartialEq, Eq, Clone, Copy)]
pub enum EvalError {
    /// `Unwrap` was applied to an error or to an absent value.
    UnwrapViolation,
    /// `Unwrap` or `Propagate` was applied to a value that is neither a
    /// result nor a maybe.
    NotMonadic,
}

/// The value is a success or a present value: `COk(_)` or `CJust(_)`.
pub open spec fn carries_value(value: ExpressionView) -> bool {
    value is COk || value is CJust
}

/// The value is an error or an absent value: `CErr(_)` or `CNothing`.
pub open spec fn carries_failure(value: ExpressionView) -> bool {
    value is CErr || value is CNothing
}

/// What a success or a present value wraps.
pub open spec fn payload(value: ExpressionView) -> ExpressionView
    recommends
        carries_value(value),
{
    match value {
        ExpressionView::COk(inner) => *inner,
        ExpressionView::CJust(inner) => *inner,
        _ => value,
    }
}

/// What `Unwrap` yields on an evaluated operand.
pub open spec fn unwrapped(value: ExpressionView) -> Result<ExpressionView, EvalError> {
    if carries_value(value) {
        Ok(payload(value))
    } else if carries_failure(value) {
        Err(EvalError::UnwrapViolation)
    } else {
        Err(EvalError::NotMonadic)
    }
}

/// Unwrapping a success or a present value yields what it wraps, whatever
/// that is; unwrapping an error or the absent value is an unwrap violation.
pub proof fn lemma_unwrapped(inner: ExpressionView)
    ensures
        unwrapped(ExpressionView::COk(Box::new(inner))) == Ok::<ExpressionView, EvalError>(inner),
        unwrapped(ExpressionView::CJust(Box::new(inner))) == Ok::<ExpressionView, EvalError>(
            inner,
        ),
        unwrapped(ExpressionView::CErr(Box::new(inner))) == Err::<ExpressionView, EvalError>(
            EvalError::UnwrapViolation,
        ),
        unwrapped(ExpressionView::CNothing) == Err::<ExpressionView, EvalError>(
            EvalError::UnwrapViolation,
        ),
{
}

/// `Unwrap` on an evaluated operand: what a success or a present value
/// wraps; on an error or an absent value, an unwrap violation.
pub fn unwrap(value: Expression) -> (res: Result<Expression, EvalError>)
    ensures
        res is Ok == unwrapped(value@) is Ok,
        res is Ok ==> res->Ok_0@ == unwrapped(value@)->Ok_0,
        res is Err ==> res->Err_0 == unwrapped(value@)->Err_0,
{
    match value {
        Expression::COk(inner) => Ok(*inner),
        Expression::CJust(inner) => Ok(*inner),
        Expression::CErr(_) => Err(EvalError::UnwrapViolation),
        Expression::CNothing => Err(EvalError::UnwrapViolation),
        _ => Err(EvalError::NotMonadic),
    }
}

/// `IsError` on an evaluated operand: whether it is an error. The operand
/// stays wrapped, and no tag makes the test fail.
pub fn is_error(value: &Expression) -> (res: bool)
    ensures
        res == value@ is CErr,
{
    match value {
        Expression::CErr(_) => true,
        _ => false,
    }
}

/// `IsNothing` on an evaluated operand: whether it is the absent value. The
/// operand stays wrapped, and no tag makes the test fail.
pub fn is_nothing(value: &Expression) -> (res: bool)
    ensures
        res == value@ is CNothing,
{
    match value {
        Expression::CNothing => true,
        _ => false,
    }
}

/// What `Propagate` asks of the statement that holds it.
#[derive(Debug, PartialEq)]
pub enum Propagation {
    /// Go on with this value: what the success or the present value wrapped.
    Proceed(Expression),
    /// Return this value from the active function at once: the error or the
    /// absent value itself.
    Return(Expression),
}

/// Mathematical model of a [`Propagation`].
pub enum PropagationView {
    Proceed(ExpressionView),
    Return(ExpressionView),
}

impl View for Propagation {
    type V = PropagationView;

    open spec fn view(&self) -> PropagationView {
        match self {
            Propagation::Proceed(value) => PropagationView::Proceed(value@),
            Propagation::Return(value) => PropagationView::Return(value@),
        }
    }
}

/// What `Propagate` yields on an evaluated operand.
pub open spec fn propagated(value: ExpressionView) -> Result<PropagationView, EvalError> {
    if carries_value(value) {
        Ok(PropagationView::Proceed(payload(value)))
    } else if carries_failure(value) {
        Ok(PropagationView::Return(value))
    } else {
        Err(EvalError::NotMonadic)
    }
}

/// Propagating a success or a present value goes on with what it wraps;
/// propagating an error or the absent value returns that very value.
pub proof fn lemma_propagated(inner: ExpressionView)
    ensures
        propagated(ExpressionView::COk(Box::new(inner))) == Ok::<PropagationView, EvalError>(
            PropagationView::Proceed(inner),
        ),
        propagated(ExpressionView::CJust(Box::new(inner))) == Ok::<PropagationView, EvalError>(
            PropagationView::Proceed(inner),
        ),
        propagated(ExpressionView::CErr(Box::new(inner))) == Ok::<PropagationView, EvalError>(
            PropagationView::Return(ExpressionView::CErr(Box::new(inner))),
        ),
        propagated(ExpressionView::CNothing) == Ok::<PropagationView, EvalError>(
            PropagationView::Return(ExpressionView::CNothing),
        ),
{
}

/// `Propagate` on an evaluated operand: a success or a present value is
/// unwrapped and the evaluation goes on; an error or an absent value makes
/// the active function return it as it is.
pub fn propagate(value: Expression) -> (res: Result<Propagation, EvalError>)
    ensures
        res is Ok == propagated(value@) is Ok,
        res is Ok ==> res->Ok_0@ == propagated(value@)->Ok_0,
        res is Err ==> res->Err_0 == propagated(value@)->Err_0,
{
    match value {
        Expression::COk(inner) => Ok(Propagation::Proceed(*inner)),
        Expression::CJust(inner) => Ok(Propagation::Proceed(*inner)),
        Expression::CErr(inner) => Ok(Propagation::Return(Expression::CErr(inner))),
        Expression::CNothing => Ok(Propagation::Return(Expression::CNothing)),
        _ => Err(EvalError::NotMonadic),
    }
}

} // verus!
