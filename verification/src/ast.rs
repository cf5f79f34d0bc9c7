//! The syntax tree: expressions, statements and functions.

use vstd::prelude::*;
use crate::types::{Type, TypeView};

verus! {

broadcast use vstd::string::to_string_from_display_ensures_for_str;

/// An identifier of the language: the name of a variable, a function or a test.
pub type Name = String;

/// An expression of the language.
///
/// A real constant is held as the 64 bits of its IEEE 754 double, and a native
/// operation as the name under which the host registered it.
#[derive(Debug, PartialEq)]
pub enum Expression {
    // Constants.
    CTrue,
    CFalse,
    CInt(i32),
    CReal(u64),
    CString(String),
    CVoid,
    // The value of a variable.
    Var(Name),
    // Calls: of a function of the program, and of a native operation.
    FuncCall(Name, Vec<Expression>),
    MetaExp(Name, Vec<Expression>, Type),
    // Arithmetic.
    Add(Box<Expression>, Box<Expression>),
    Sub(Box<Expression>, Box<Expression>),
    Mul(Box<Expression>, Box<Expression>),
    Div(Box<Expression>, Box<Expression>),
    // Logic.
    And(Box<Expression>, Box<Expression>),
    Or(Box<Expression>, Box<Expression>),
    Not(Box<Expression>),
    // Comparisons.
    EQ(Box<Expression>, Box<Expression>),
    GT(Box<Expression>, Box<Expression>),
    LT(Box<Expression>, Box<Expression>),
    GTE(Box<Expression>, Box<Expression>),
    LTE(Box<Expression>, Box<Expression>),
    // Results and maybes: their constructors and the operations on them.
    COk(Box<Expression>),
    CErr(Box<Expression>),
    CJust(Box<Expression>),
    CNothing,
    Unwrap(Box<Expression>),
    IsError(Box<Expression>),
    IsNothing(Box<Expression>),
    Propagate(Box<Expression>),
}

/// A statement of the language.
#[derive(Debug, PartialEq)]
pub enum Statement {
    VarDeclaration(Name),
    ValDeclaration(Name),
    Assignment(Name, Box<Expression>, Option<Type>),
    IfThenElse(Box<Expression>, Box<Statement>, Option<Box<Statement>>),
    While(Box<Expression>, Box<Statement>),
    Block(Vec<Statement>),
    Sequence(Box<Statement>, Box<Statement>),
    AssertTrue(Box<Expression>, String),
    AssertFalse(Box<Expression>, String),
    AssertEQ(Box<Expression>, Box<Expression>, String),
    AssertNEQ(Box<Expression>, Box<Expression>, String),
    TestDef(Function),
    ModTestDef(Name, Box<Statement>),
    AssertFails(String),
    FuncDef(Function),
    Return(Box<Expression>),
}

/// A function: its name, and, where they are set, its return type, its
/// parameters and its body.
#[derive(Debug, PartialEq)]
pub struct Function {
    /// The name, by which the frames of its calls are keyed.
    pub name: Name,
    /// The type of its result.
    pub kind: Option<Type>,
    /// Its parameters, each with its type.
    pub params: Option<Vec<(Name, Type)>>,
    /// Its body.
    pub body: Option<Box<Statement>>,
}

/// Mathematical model of an [`Expression`].
pub enum ExpressionView {
    CTrue,
    CFalse,
    CInt(int),
    CReal(u64),
    CString(Seq<char>),
    CVoid,
    Var(Seq<char>),
    FuncCall(Seq<char>, Seq<ExpressionView>),
    MetaExp(Seq<char>, Seq<ExpressionView>, TypeView),
    Add(Box<ExpressionView>, Box<ExpressionView>),
    Sub(Box<ExpressionView>, Box<ExpressionView>),
    Mul(Box<ExpressionView>, Box<ExpressionView>),
    Div(Box<ExpressionView>, Box<ExpressionView>),
    And(Box<ExpressionView>, Box<ExpressionView>),
    Or(Box<ExpressionView>, Box<ExpressionView>),
    Not(Box<ExpressionView>),
    EQ(Box<ExpressionView>, Box<ExpressionView>),
    GT(Box<ExpressionView>, Box<ExpressionView>),
    LT(Box<ExpressionView>, Box<ExpressionView>),
    GTE(Box<ExpressionView>, Box<ExpressionView>),
    LTE(Box<ExpressionView>, Box<ExpressionView>),
    COk(Box<ExpressionView>),
    CErr(Box<ExpressionView>),
    CJust(Box<ExpressionView>),
    CNothing,
    Unwrap(Box<ExpressionView>),
    IsError(Box<ExpressionView>),
    IsNothing(Box<ExpressionView>),
    Propagate(Box<ExpressionView>),
}

/// Mathematical model of a [`Statement`].
pub enum StatementView {
    VarDeclaration(Seq<char>),
    ValDeclaration(Seq<char>),
    Assignment(Seq<char>, Box<ExpressionView>, Option<TypeView>),
    IfThenElse(Box<ExpressionView>, Box<StatementView>, Option<Box<StatementView>>),
    While(Box<ExpressionView>, Box<StatementView>),
    Block(Seq<StatementView>),
    Sequence(Box<StatementView>, Box<StatementView>),
    AssertTrue(Box<ExpressionView>, Seq<char>),
    AssertFalse(Box<ExpressionView>, Seq<char>),
    AssertEQ(Box<ExpressionView>, Box<ExpressionView>, Seq<char>),
    AssertNEQ(Box<ExpressionView>, Box<ExpressionView>, Seq<char>),
    TestDef(FunctionView),
    ModTestDef(Seq<char>, Box<StatementView>),
    AssertFails(Seq<char>),
    FuncDef(FunctionView),
    Return(Box<ExpressionView>),
}

/// Mathematical model of a [`Function`].
pub struct FunctionView {
    pub name: Seq<char>,
    pub kind: Option<TypeView>,
    pub params: Option<Seq<(Seq<char>, TypeView)>>,
    pub body: Option<Box<StatementView>>,
}

/// Pointwise model of a sequence of expressions.
pub open spec fn expression_models(exps: Seq<Expression>) -> Seq<ExpressionView>
    decreases exps,
{
    Seq::new(
        exps.len(),
        |i: int|
            if 0 <= i < exps.len() {
                exps[i].model()
            } else {
                ExpressionView::CVoid
            },
    )
}

/// Pointwise model of a sequence of statements.
pub open spec fn statement_models(stmts: Seq<Statement>) -> Seq<StatementView>
    decreases stmts,
{
    Seq::new(
        stmts.len(),
        |i: int|
            if 0 <= i < stmts.len() {
                stmts[i].model()
            } else {
                StatementView::Block(Seq::empty())
            },
    )
}

/// Pointwise model of a parameter list.
pub open spec fn param_models(params: Seq<(Name, Type)>) -> Seq<(Seq<char>, TypeView)> {
    Seq::new(params.len(), |i: int| (params[i].0@, params[i].1@))
}

impl Expression {
    /// The model of this expression: the same tree, with sequences of
    /// characters for strings and mathematical integers for integers.
    pub open spec fn model(self) -> ExpressionView
        decreases self,
    {
        match self {
            Expression::CTrue => ExpressionView::CTrue,
            Expression::CFalse => ExpressionView::CFalse,
            Expression::CInt(n) => ExpressionView::CInt(n as int),
            Expression::CReal(bits) => ExpressionView::CReal(bits),
            Expression::CString(s) => ExpressionView::CString(s@),
            Expression::CVoid => ExpressionView::CVoid,
            Expression::Var(name) => ExpressionView::Var(name@),
            Expression::FuncCall(name, args) => ExpressionView::FuncCall(
                name@,
                expression_models(args@),
            ),
            Expression::MetaExp(name, args, kind) => ExpressionView::MetaExp(
                name@,
                expression_models(args@),
                kind@,
            ),
            Expression::Add(lhs, rhs) => ExpressionView::Add(
                Box::new((*lhs).model()),
                Box::new((*rhs).model()),
            ),
            Expression::Sub(lhs, rhs) => ExpressionView::Sub(
                Box::new((*lhs).model()),
                Box::new((*rhs).model()),
            ),
            Expression::Mul(lhs, rhs) => ExpressionView::Mul(
                Box::new((*lhs).model()),
                Box::new((*rhs).model()),
            ),
            Expression::Div(lhs, rhs) => ExpressionView::Div(
                Box::new((*lhs).model()),
                Box::new((*rhs).model()),
            ),
            Expression::And(lhs, rhs) => ExpressionView::And(
                Box::new((*lhs).model()),
                Box::new((*rhs).model()),
            ),
            Expression::Or(lhs, rhs) => ExpressionView::Or(
                Box::new((*lhs).model()),
                Box::new((*rhs).model()),
            ),
            Expression::EQ(lhs, rhs) => ExpressionView::EQ(
                Box::new((*lhs).model()),
                Box::new((*rhs).model()),
            ),
            Expression::GT(lhs, rhs) => ExpressionView::GT(
                Box::new((*lhs).model()),
                Box::new((*rhs).model()),
            ),
            Expression::LT(lhs, rhs) => ExpressionView::LT(
                Box::new((*lhs).model()),
                Box::new((*rhs).model()),
            ),
            Expression::GTE(lhs, rhs) => ExpressionView::GTE(
                Box::new((*lhs).model()),
                Box::new((*rhs).model()),
            ),
            Expression::LTE(lhs, rhs) => ExpressionView::LTE(
                Box::new((*lhs).model()),
                Box::new((*rhs).model()),
            ),
            Expression::Not(inner) => ExpressionView::Not(Box::new((*inner).model())),
            Expression::COk(inner) => ExpressionView::COk(Box::new((*inner).model())),
            Expression::CErr(inner) => ExpressionView::CErr(Box::new((*inner).model())),
            Expression::CJust(inner) => ExpressionView::CJust(Box::new((*inner).model())),
            Expression::Unwrap(inner) => ExpressionView::Unwrap(Box::new((*inner).model())),
            Expression::IsError(inner) => ExpressionView::IsError(Box::new((*inner).model())),
            Expression::IsNothing(inner) => ExpressionView::IsNothing(Box::new((*inner).model())),
            Expression::Propagate(inner) => ExpressionView::Propagate(Box::new((*inner).model())),
            Expression::CNothing => ExpressionView::CNothing,
        }
    }
}

impl Statement {
    /// The model of this statement: the same tree over the models of its
    /// parts.
    pub open spec fn model(self) -> StatementView
        decreases self,
    {
        match self {
            Statement::VarDeclaration(name) => StatementView::VarDeclaration(name@),
            Statement::ValDeclaration(name) => StatementView::ValDeclaration(name@),
            Statement::Assignment(name, exp, kind) => StatementView::Assignment(
                name@,
                Box::new((*exp).model()),
                match kind {
                    Some(t) => Some(t@),
                    None => None,
                },
            ),
            Statement::IfThenElse(cond, then_branch, else_branch) => StatementView::IfThenElse(
                Box::new((*cond).model()),
                Box::new((*then_branch).model()),
                match else_branch {
                    Some(s) => Some(Box::new((*s).model())),
                    None => None,
                },
            ),
            Statement::While(cond, body) => StatementView::While(
                Box::new((*cond).model()),
                Box::new((*body).model()),
            ),
            Statement::Block(stmts) => StatementView::Block(statement_models(stmts@)),
            Statement::Sequence(first, second) => StatementView::Sequence(
                Box::new((*first).model()),
                Box::new((*second).model()),
            ),
            Statement::AssertTrue(exp, message) => StatementView::AssertTrue(
                Box::new((*exp).model()),
                message@,
            ),
            Statement::AssertFalse(exp, message) => StatementView::AssertFalse(
                Box::new((*exp).model()),
                message@,
            ),
            Statement::AssertEQ(lhs, rhs, message) => StatementView::AssertEQ(
                Box::new((*lhs).model()),
                Box::new((*rhs).model()),
                message@,
            ),
            Statement::AssertNEQ(lhs, rhs, message) => StatementView::AssertNEQ(
                Box::new((*lhs).model()),
                Box::new((*rhs).model()),
                message@,
            ),
            Statement::TestDef(function) => StatementView::TestDef(function.model()),
            Statement::ModTestDef(name, body) => StatementView::ModTestDef(
                name@,
                Box::new((*body).model()),
            ),
            Statement::AssertFails(message) => StatementView::AssertFails(message@),
            Statement::FuncDef(function) => StatementView::FuncDef(function.model()),
            Statement::Return(exp) => StatementView::Return(Box::new((*exp).model())),
        }
    }
}

impl Function {
    /// The model of this function: its fields, each by its model.
    pub open spec fn model(self) -> FunctionView
        decreases self,
    {
        FunctionView {
            name: self.name@,
            kind: match self.kind {
                Some(t) => Some(t@),
                None => None,
            },
            params: match self.params {
                Some(ps) => Some(param_models(ps@)),
                None => None,
            },
            body: match self.body {
                Some(b) => Some(Box::new((*b).model())),
                None => None,
            },
        }
    }
}

impl FunctionView {
    /// The name of the synthetic function that stands for the top level of a
    /// program.
    pub open spec fn top_level_name() -> Seq<char> {
        "__main__"@
    }

    /// The synthetic top-level function: named, and nothing else set.
    pub open spec fn top_level() -> FunctionView {
        FunctionView { name: Self::top_level_name(), kind: None, params: None, body: None }
    }
}

impl View for Expression {
    type V = ExpressionView;

    open spec fn view(&self) -> ExpressionView {
        self.model()
    }
}

impl View for Statement {
    type V = StatementView;

    open spec fn view(&self) -> StatementView {
        self.model()
    }
}

impl View for Function {
    type V = FunctionView;

    open spec fn view(&self) -> FunctionView {
        self.model()
    }
}

impl Clone for Expression {
    /// An expression with the same model.
    fn clone(&self) -> (res: Self)
        ensures
            res@ == self@,
        decreases self,
    {
        match self {
            Expression::CTrue => Expression::CTrue,
            Expression::CFalse => Expression::CFalse,
            Expression::CInt(n) => Expression::CInt(*n),
            Expression::CReal(bits) => Expression::CReal(*bits),
            Expression::CString(s) => Expression::CString(s.clone()),
            Expression::CVoid => Expression::CVoid,
            Expression::Var(name) => Expression::Var(name.clone()),
            Expression::FuncCall(name, args) => Expression::FuncCall(
                name.clone(),
                clone_expressions(args),
            ),
            Expression::MetaExp(name, args, kind) => Expression::MetaExp(
                name.clone(),
                clone_expressions(args),
                kind.clone(),
            ),
            Expression::Add(lhs, rhs) => Expression::Add(
                Box::new((**lhs).clone()),
                Box::new((**rhs).clone()),
            ),
            Expression::Sub(lhs, rhs) => Expression::Sub(
                Box::new((**lhs).clone()),
                Box::new((**rhs).clone()),
            ),
            Expression::Mul(lhs, rhs) => Expression::Mul(
                Box::new((**lhs).clone()),
                Box::new((**rhs).clone()),
            ),
            Expression::Div(lhs, rhs) => Expression::Div(
                Box::new((**lhs).clone()),
                Box::new((**rhs).clone()),
            ),
            Expression::And(lhs, rhs) => Expression::And(
                Box::new((**lhs).clone()),
                Box::new((**rhs).clone()),
            ),
            Expression::Or(lhs, rhs) => Expression::Or(
                Box::new((**lhs).clone()),
                Box::new((**rhs).clone()),
            ),
            Expression::EQ(lhs, rhs) => Expression::EQ(
                Box::new((**lhs).clone()),
                Box::new((**rhs).clone()),
            ),
            Expression::GT(lhs, rhs) => Expression::GT(
                Box::new((**lhs).clone()),
                Box::new((**rhs).clone()),
            ),
            Expression::LT(lhs, rhs) => Expression::LT(
                Box::new((**lhs).clone()),
                Box::new((**rhs).clone()),
            ),
            Expression::GTE(lhs, rhs) => Expression::GTE(
                Box::new((**lhs).clone()),
                Box::new((**rhs).clone()),
            ),
            Expression::LTE(lhs, rhs) => Expression::LTE(
                Box::new((**lhs).clone()),
                Box::new((**rhs).clone()),
            ),
            Expression::Not(inner) => Expression::Not(Box::new((**inner).clone())),
            Expression::COk(inner) => Expression::COk(Box::new((**inner).clone())),
            Expression::CErr(inner) => Expression::CErr(Box::new((**inner).clone())),
            Expression::CJust(inner) => Expression::CJust(Box::new((**inner).clone())),
            Expression::Unwrap(inner) => Expression::Unwrap(Box::new((**inner).clone())),
            Expression::IsError(inner) => Expression::IsError(Box::new((**inner).clone())),
            Expression::IsNothing(inner) => Expression::IsNothing(Box::new((**inner).clone())),
            Expression::Propagate(inner) => Expression::Propagate(Box::new((**inner).clone())),
            Expression::CNothing => Expression::CNothing,
        }
    }
}

/// A vector of expressions with the same models.
fn clone_expressions(exps: &Vec<Expression>) -> (res: Vec<Expression>)
    ensures
        expression_models(res@) == expression_models(exps@),
    decreases exps,
{
    let mut out: Vec<Expression> = Vec::new();
    let mut i: usize = 0;
    while i < exps.len()
        invariant
            i <= exps.len(),
            out.len() == i,
            forall|j: int| 0 <= j < i ==> out@[j]@ == exps@[j]@,
        decreases exps.len() - i,
    {
        out.push(exps[i].clone());
        i += 1;
    }
    assert(expression_models(out@) =~= expression_models(exps@));
    out
}

/// An optional type with the same model.
fn clone_optional_type(kind: &Option<Type>) -> (res: Option<Type>)
    ensures
        res is Some == kind is Some,
        kind is Some ==> res->0@ == kind->0@,
{
    match kind {
        Some(t) => Some(t.clone()),
        None => None,
    }
}

impl Clone for Statement {
    /// A statement with the same model.
    fn clone(&self) -> (res: Self)
        ensures
            res@ == self@,
        decreases self,
    {
        match self {
            Statement::VarDeclaration(name) => Statement::VarDeclaration(name.clone()),
            Statement::ValDeclaration(name) => Statement::ValDeclaration(name.clone()),
            Statement::Assignment(name, exp, kind) => Statement::Assignment(
                name.clone(),
                Box::new((**exp).clone()),
                clone_optional_type(kind),
            ),
            Statement::IfThenElse(cond, then_branch, else_branch) => {
                let other = match else_branch {
                    Some(s) => Some(Box::new((**s).clone())),
                    None => None,
                };
                Statement::IfThenElse(
                    Box::new((**cond).clone()),
                    Box::new((**then_branch).clone()),
                    other,
                )
            },
            Statement::While(cond, body) => Statement::While(
                Box::new((**cond).clone()),
                Box::new((**body).clone()),
            ),
            Statement::Block(stmts) => Statement::Block(clone_statements(stmts)),
            Statement::Sequence(first, second) => Statement::Sequence(
                Box::new((**first).clone()),
                Box::new((**second).clone()),
            ),
            Statement::AssertTrue(exp, message) => Statement::AssertTrue(
                Box::new((**exp).clone()),
                message.clone(),
            ),
            Statement::AssertFalse(exp, message) => Statement::AssertFalse(
                Box::new((**exp).clone()),
                message.clone(),
            ),
            Statement::AssertEQ(lhs, rhs, message) => Statement::AssertEQ(
                Box::new((**lhs).clone()),
                Box::new((**rhs).clone()),
                message.clone(),
            ),
            Statement::AssertNEQ(lhs, rhs, message) => Statement::AssertNEQ(
                Box::new((**lhs).clone()),
                Box::new((**rhs).clone()),
                message.clone(),
            ),
            Statement::TestDef(function) => Statement::TestDef(function.clone()),
            Statement::ModTestDef(name, body) => Statement::ModTestDef(
                name.clone(),
                Box::new((**body).clone()),
            ),
            Statement::AssertFails(message) => Statement::AssertFails(message.clone()),
            Statement::FuncDef(function) => Statement::FuncDef(function.clone()),
            Statement::Return(exp) => Statement::Return(Box::new((**exp).clone())),
        }
    }
}

/// A vector of statements with the same models.
fn clone_statements(stmts: &Vec<Statement>) -> (res: Vec<Statement>)
    ensures
        statement_models(res@) == statement_models(stmts@),
    decreases stmts,
{
    let mut out: Vec<Statement> = Vec::new();
    let mut i: usize = 0;
    while i < stmts.len()
        invariant
            i <= stmts.len(),
            out.len() == i,
            forall|j: int| 0 <= j < i ==> out@[j]@ == stmts@[j]@,
        decreases stmts.len() - i,
    {
        out.push(stmts[i].clone());
        i += 1;
    }
    assert(statement_models(out@) =~= statement_models(stmts@));
    out
}

/// A parameter list with the same model.
fn clone_params(params: &Vec<(Name, Type)>) -> (res: Vec<(Name, Type)>)
    ensures
        param_models(res@) == param_models(params@),
{
    let mut out: Vec<(Name, Type)> = Vec::new();
    let mut i: usize = 0;
    while i < params.len()
        invariant
            i <= params.len(),
            out.len() == i,
            forall|j: int|
                0 <= j < i ==> out@[j].0@ == params@[j].0@ && out@[j].1@ == params@[j].1@,
        decreases params.len() - i,
    {
        out.push((params[i].0.clone(), params[i].1.clone()));
        i += 1;
    }
    assert(param_models(out@) =~= param_models(params@));
    out
}

impl Function {
    /// The synthetic top-level function, under the reserved name `__main__`.
    pub fn new() -> (res: Function)
        ensures
            res@ == FunctionView::top_level(),
    {
        Function { name: "__main__".to_string(), kind: None, params: None, body: None }
    }
}

impl Clone for Function {
    /// A function with the same model.
    fn clone(&self) -> (res: Self)
        ensures
            res@ == self@,
        decreases self,
    {
        let params = match &self.params {
            Some(ps) => Some(clone_params(ps)),
            None => None,
        };
        let body = match &self.body {
            Some(b) => Some(Box::new((**b).clone())),
            None => None,
        };
        Function { name: self.name.clone(), kind: clone_optional_type(&self.kind), params, body }
    }
}

} // verus!
