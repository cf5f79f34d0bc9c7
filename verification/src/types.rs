//! The types of the language.

use vstd::prelude::*;

verus! {

/// The closed set of value types of the language.
#[derive(Debug, PartialEq)]
pub enum Type {
    TInteger,
    TBool,
    TReal,
    TString,
    TVoid,
    TFunction(Box<Option<Type>>, Vec<Type>),
    TList(Box<Type>),
    TTuple(Vec<Type>),
    TMaybe(Box<Type>),
    TResult(Box<Type>, Box<Type>),
    TAny,
}

/// Mathematical model of a [`Type`].
pub enum TypeView {
    Integer,
    Bool,
    Real,
    String,
    Void,
    Function(Option<Box<TypeView>>, Seq<TypeView>),
    List(Box<TypeView>),
    Tuple(Seq<TypeView>),
    Maybe(Box<TypeView>),
    Result(Box<TypeView>, Box<TypeView>),
    Any,
}

impl Type {
    /// The model of this type: the same tree, with sequences for vectors.
    pub open spec fn model(self) -> TypeView
        decreases self,
    {
        match self {
            Type::TInteger => TypeView::Integer,
            Type::TBool => TypeView::Bool,
            Type::TReal => TypeView::Real,
            Type::TString => TypeView::String,
            Type::TVoid => TypeView::Void,
            Type::TFunction(ret, params) => TypeView::Function(
                match *ret {
                    Some(t) => Some(Box::new(t.model())),
                    None => None,
                },
                models(params@),
            ),
            Type::TList(elem) => TypeView::List(Box::new((*elem).model())),
            Type::TTuple(elems) => TypeView::Tuple(models(elems@)),
            Type::TMaybe(inner) => TypeView::Maybe(Box::new((*inner).model())),
            Type::TResult(ok, err) => TypeView::Result(
                Box::new((*ok).model()),
                Box::new((*err).model()),
            ),
            Type::TAny => TypeView::Any,
        }
    }
}

/// Pointwise model of a sequence of types.
pub open spec fn models(types: Seq<Type>) -> Seq<TypeView>
    decreases types,
{
    Seq::new(
        types.len(),
        |i: int|
            if 0 <= i < types.len() {
                types[i].model()
            } else {
                TypeView::Any
            },
    )
}

impl TypeView {
    /// Whether the type is a maybe or a result: the types over which
    /// `Unwrap`, `Propagate`, `IsError` and `IsNothing` are well typed.
    pub open spec fn is_monadic(self) -> bool {
        self is Maybe || self is Result
    }

    /// The type of what a value of this type wraps when it is present or a
    /// success: the type of `Unwrap` and of `Propagate` over an operand of
    /// this type.
    pub open spec fn unwrapped(self) -> Option<TypeView> {
        match self {
            TypeView::Maybe(inner) => Some(*inner),
            TypeView::Result(ok, _) => Some(*ok),
            _ => None,
        }
    }
}

impl View for Type {
    type V = TypeView;

    open spec fn view(&self) -> TypeView {
        self.model()
    }
}

impl Type {
    /// Whether `Unwrap`, `Propagate`, `IsError` and `IsNothing` are well
    /// typed over an operand of this type.
    pub fn is_monadic(&self) -> (res: bool)
        ensures
            res == self@.is_monadic(),
    {
        match self {
            Type::TMaybe(_) => true,
            Type::TResult(_, _) => true,
            _ => false,
        }
    }

    /// The type of `Unwrap` and of `Propagate` over an operand of this
    /// type, where they are well typed.
    pub fn unwrapped(&self) -> (res: Option<Type>)
        ensures
            res is Some == self@.unwrapped() is Some,
            res is Some ==> res->0@ == self@.unwrapped()->0,
    {
        match self {
            Type::TMaybe(inner) => Some((**inner).clone()),
            Type::TResult(ok, _) => Some((**ok).clone()),
            _ => None,
        }
    }
}

impl Clone for Type {
    /// A type with the same model.
    fn clone(&self) -> (res: Self)
        ensures
            res@ == self@,
        decreases self,
    {
        match self {
            Type::TInteger => Type::TInteger,
            Type::TBool => Type::TBool,
            Type::TReal => Type::TReal,
            Type::TString => Type::TString,
            Type::TVoid => Type::TVoid,
            Type::TFunction(ret, params) => {
                let r = match &**ret {
                    Some(t) => Some(t.clone()),
                    None => None,
                };
                Type::TFunction(Box::new(r), clone_types(params))
            },
            Type::TList(elem) => Type::TList(Box::new((**elem).clone())),
            Type::TTuple(elems) => Type::TTuple(clone_types(elems)),
            Type::TMaybe(inner) => Type::TMaybe(Box::new((**inner).clone())),
            Type::TResult(ok, err) => Type::TResult(
                Box::new((**ok).clone()),
                Box::new((**err).clone()),
            ),
            Type::TAny => Type::TAny,
        }
    }
}

/// A vector of types with the same models.
fn clone_types(types: &Vec<Type>) -> (res: Vec<Type>)
    ensures
        models(res@) == models(types@),
    decreases types,
{
    let mut out: Vec<Type> = Vec::new();
    let mut i: usize = 0;
    while i < types.len()
        invariant
            i <= types.len(),
            out.len() == i,
            forall|j: int| 0 <= j < i ==> out@[j]@ == types@[j]@,
        decreases types.len() - i,
    {
        out.push(types[i].clone());
        i += 1;
    }
    assert(models(out@) =~= models(types@));
    out
}

} // verus!
