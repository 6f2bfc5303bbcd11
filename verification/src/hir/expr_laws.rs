//! Laws of how expressions are lowered.

use vstd::prelude::*;
use crate::ast;
use crate::compile::error::{CompileError, ErrorKind};
use crate::hir;
use crate::hir::control_laws::{
    all_lowered, expr_step, is_left, lemma_exprs, lemma_listed, lemma_optional, resolving,
};
use crate::hir::ctxt::{Env, Needs, State};
use crate::hir::model;
use crate::hir::rules;
use crate::hir::scopes::LayerKind;

verus! {

/// Test if an expression is lowered to another one, from one state to another.
pub open spec fn lowers(env: Env, st: State, ast: ast::Expr, end: State, hir: hir::Expr) -> bool {
    model::expr(env, st, ast) == (end, Ok::<hir::Expr, CompileError>(hir))
}

/// The left hand side of an assignment is lowered first, and then the right hand
/// side.
pub proof fn lemma_assign(env: Env, st: State, ast: ast::ExprAssign)
    requires
        model::expr(env, st, ast::Expr::Assign(Box::new(ast))).1 is Ok,
    ensures
        ({
            let (end, r) = model::expr(env, st, ast::Expr::Assign(Box::new(ast)));
            let hir = r->Ok_0;
            let middle = model::expr(env, resolving(st), ast.lhs).0;
            &&& hir.span == ast.span
            &&& hir.kind is Assign
            &&& lowers(env, resolving(st), ast.lhs, middle, hir.kind->Assign_0.lhs)
            &&& lowers(env, middle, ast.rhs, end, hir.kind->Assign_0.rhs)
        }),
{
    let x = ast::Expr::Assign(Box::new(ast));
    reveal(model::expr_rule);
    reveal(ast::expr_span);
    assert(model::expr(env, st, x) == model::expr_rule(env, st, x));
}

/// A binary operation keeps its operator and its operands in their places. What is
/// on the right of `as`, `is` and `is not` is lowered to a type, and all else to a
/// value.
pub proof fn lemma_binary(env: Env, st: State, ast: ast::ExprBinary)
    requires
        model::expr(env, st, ast::Expr::Binary(Box::new(ast))).1 is Ok,
    ensures
        ({
            let (end, r) = model::expr(env, st, ast::Expr::Binary(Box::new(ast)));
            let hir = r->Ok_0;
            let middle = model::expr(env, resolving(st), ast.lhs).0;
            let needs = match ast.op {
                ast::BinOp::As => Needs::Type,
                ast::BinOp::Is => Needs::Type,
                ast::BinOp::IsNot => Needs::Type,
                _ => Needs::Value,
            };
            let right = State { needs, ..middle };
            let last = model::expr(env, right, ast.rhs).0;
            &&& hir.span == ast.span
            &&& hir.kind is Binary
            &&& hir.kind->Binary_0.op == ast.op
            &&& lowers(env, resolving(st), ast.lhs, middle, hir.kind->Binary_0.lhs)
            &&& lowers(env, right, ast.rhs, last, hir.kind->Binary_0.rhs)
            &&& end == (State { needs: middle.needs, ..last })
        }),
{
    let x = ast::Expr::Binary(Box::new(ast));
    reveal(model::expr_rule);
    reveal(ast::expr_span);
    assert(model::expr(env, st, x) == model::expr_rule(env, st, x));
}

/// The number that an expression is the literal of.
pub open spec fn number_in(ast: ast::Expr) -> Option<ast::LitNumber> {
    if ast is Lit && ast->Lit_0.lit is Number {
        Some(ast->Lit_0.lit->Number_0)
    } else {
        None
    }
}

/// A unary operation keeps its operator and its operand. A minus in front of a
/// number makes one literal, and a reference cannot be taken.
pub proof fn lemma_unary(env: Env, st: State, ast: ast::ExprUnary)
    ensures
        ({
            let (end, r) = model::expr(env, st, ast::Expr::Unary(Box::new(ast)));
            let number = number_in(ast.expr);
            &&& r is Ok ==> r->Ok_0.span == ast.span
            &&& ast.op == ast::UnOp::BorrowRef ==> r is Err && r->Err_0.kind
                == ErrorKind::UnsupportedRef && r->Err_0.span == ast.span
            &&& ast.op == ast::UnOp::Neg && number is Some ==> {
                &&& end == resolving(st)
                &&& r is Ok ==> r->Ok_0.kind is Lit && rules::negated(number->0, ast.span) == Ok::<
                    hir::Lit,
                    CompileError,
                >(r->Ok_0.kind->Lit_0)
            }
            &&& r is Ok && !(ast.op == ast::UnOp::Neg && number is Some) ==> {
                &&& r->Ok_0.kind is Unary
                &&& r->Ok_0.kind->Unary_0.op == ast.op
                &&& lowers(env, resolving(st), ast.expr, end, r->Ok_0.kind->Unary_0.expr)
            }
        }),
{
    let x = ast::Expr::Unary(Box::new(ast));
    reveal(model::expr_rule);
    reveal(ast::expr_span);
    reveal(rules::number_token);
    assert(model::expr(env, st, x) == model::expr_rule(env, st, x));
}

/// A minus in front of a number negates it: an integer by its value, and a
/// floating point number by its sign.
pub proof fn lemma_negated(ast: ast::LitNumber, number: ast::Number, span: crate::span::Span)
    requires
        ast.number == Ok::<ast::Number, crate::compile::error::ResolveError>(number),
    ensures
        number.value matches ast::NumberValue::Float(x) ==> rules::negated(ast, span) == Ok::<
            hir::Lit,
            CompileError,
        >(hir::Lit::Float(x.negated())),
        number.value matches ast::NumberValue::Integer(n) ==> rules::negated(ast, span)
            == rules::integer(-n.value(), number.suffix, span),
{
    reveal(rules::negated);
}

/// What is indexed is lowered first, and then the index.
pub proof fn lemma_index(env: Env, st: State, ast: ast::ExprIndex)
    requires
        model::expr(env, st, ast::Expr::Index(Box::new(ast))).1 is Ok,
    ensures
        ({
            let (end, r) = model::expr(env, st, ast::Expr::Index(Box::new(ast)));
            let hir = r->Ok_0;
            let middle = model::expr(env, resolving(st), ast.target).0;
            &&& hir.span == ast.span
            &&& hir.kind is Index
            &&& lowers(env, resolving(st), ast.target, middle, hir.kind->Index_0.target)
            &&& lowers(env, middle, ast.index, end, hir.kind->Index_0.index)
        }),
{
    let x = ast::Expr::Index(Box::new(ast));
    reveal(model::expr_rule);
    reveal(ast::expr_span);
    assert(model::expr(env, st, x) == model::expr_rule(env, st, x));
}

/// An `.await`, a `?` and an expression in delimiters are what they were written
/// as, around the lowering of what is in them. Delimiters that are not visible let
/// a path be resolved by its user.
pub proof fn lemma_inner(env: Env, st: State, ast: ast::ExprInner)
    ensures
        ({
            let (end, r) = model::expr(env, st, ast::Expr::Await(Box::new(ast)));
            r is Ok ==> r->Ok_0.span == ast.span && r->Ok_0.kind is Await && lowers(
                env,
                resolving(st),
                ast.expr,
                end,
                *r->Ok_0.kind->Await_0,
            )
        }),
        ({
            let (end, r) = model::expr(env, st, ast::Expr::Try(Box::new(ast)));
            r is Ok ==> r->Ok_0.span == ast.span && r->Ok_0.kind is Try && lowers(
                env,
                resolving(st),
                ast.expr,
                end,
                *r->Ok_0.kind->Try_0,
            )
        }),
        ({
            let (end, r) = model::expr(env, st, ast::Expr::Group(Box::new(ast)));
            r is Ok ==> r->Ok_0.span == ast.span && r->Ok_0.kind is Group && lowers(
                env,
                resolving(st),
                ast.expr,
                end,
                *r->Ok_0.kind->Group_0,
            )
        }),
        ({
            let (end, r) = model::expr(env, st, ast::Expr::Empty(Box::new(ast)));
            r is Ok ==> r->Ok_0.span == ast.span && r->Ok_0.kind is Group && lowers(
                env,
                st,
                ast.expr,
                end,
                *r->Ok_0.kind->Group_0,
            )
        }),
{
    let a = ast::Expr::Await(Box::new(ast));
    let t = ast::Expr::Try(Box::new(ast));
    let g = ast::Expr::Group(Box::new(ast));
    let e = ast::Expr::Empty(Box::new(ast));
    reveal(model::expr_rule);
    reveal(ast::expr_span);
    assert(model::expr(env, st, a) == model::expr_rule(env, st, a));
    assert(model::expr(env, st, t) == model::expr_rule(env, st, t));
    assert(model::expr(env, st, g) == model::expr_rule(env, st, g));
    assert(model::expr(env, st, e) == model::expr_rule(env, st, e));
    assert((State { in_path: st.in_path, ..resolving(st) }) == st);
}

/// A tuple and a vector have the lowering of all of their items, in order.
pub proof fn lemma_items(env: Env, st: State, ast: ast::ExprItems)
    ensures
        ({
            let (end, r) = model::expr(env, st, ast::Expr::Tuple(Box::new(ast)));
            r is Ok ==> {
                &&& r->Ok_0.span == ast.span
                &&& r->Ok_0.kind is Tuple
                &&& all_lowered(
                    ast.items@,
                    r->Ok_0.kind->Tuple_0@,
                    resolving(st),
                    end,
                    expr_step(env),
                )
            }
        }),
        ({
            let (end, r) = model::expr(env, st, ast::Expr::Vec(Box::new(ast)));
            r is Ok ==> {
                &&& r->Ok_0.span == ast.span
                &&& r->Ok_0.kind is Vec
                &&& all_lowered(
                    ast.items@,
                    r->Ok_0.kind->Vec_0@,
                    resolving(st),
                    end,
                    expr_step(env),
                )
            }
        }),
{
    let t = ast::Expr::Tuple(Box::new(ast));
    let v = ast::Expr::Vec(Box::new(ast));
    reveal(model::expr_rule);
    reveal(ast::expr_span);
    assert(model::expr(env, st, t) == model::expr_rule(env, st, t));
    assert(model::expr(env, st, v) == model::expr_rule(env, st, v));
    let r = model::exprs(env, resolving(st), ast.items@, 0, Seq::empty());
    if r.1 is Ok {
        lemma_exprs(env, resolving(st), ast.items@);
        lemma_listed(r.1->Ok_0);
    }
}

/// The start of a range, if it has one.
pub open spec fn range_start(range: hir::ExprRange) -> Option<hir::Expr> {
    match range {
        hir::ExprRange::RangeFrom { start } => Some(start),
        hir::ExprRange::RangeInclusive { start, .. } => Some(start),
        hir::ExprRange::Range { start, .. } => Some(start),
        _ => None,
    }
}

/// The end of a range, if it has one.
pub open spec fn range_end(range: hir::ExprRange) -> Option<hir::Expr> {
    match range {
        hir::ExprRange::RangeInclusive { end, .. } => Some(end),
        hir::ExprRange::RangeToInclusive { end } => Some(end),
        hir::ExprRange::RangeTo { end } => Some(end),
        hir::ExprRange::Range { end, .. } => Some(end),
        _ => None,
    }
}

/// A range has a start and an end exactly if they were written, lowered in this
/// order. It has its end in it exactly if it was written with `..=`, which needs
/// an end.
pub proof fn lemma_range(env: Env, st: State, ast: ast::ExprRange)
    ensures
        ({
            let (end, r) = model::expr(env, st, ast::Expr::Range(Box::new(ast)));
            let (middle, start) = model::optional(env, resolving(st), ast.start);
            let closed = ast.limits == ast::ExprRangeLimits::Closed;
            &&& closed && ast.end is None ==> r is Err && r->Err_0.span == ast.span
            &&& r is Ok ==> {
                let range = *r->Ok_0.kind->Range_0;
                &&& r->Ok_0.span == ast.span
                &&& r->Ok_0.kind is Range
                &&& range_start(range) is Some == ast.start is Some
                &&& range_end(range) is Some == ast.end is Some
                &&& ast.start is Some ==> lowers(
                    env,
                    resolving(st),
                    ast.start->0,
                    middle,
                    range_start(range)->0,
                )
                &&& ast.start is None ==> middle == resolving(st)
                &&& ast.end is Some ==> lowers(env, middle, ast.end->0, end, range_end(range)->0)
                &&& ast.end is None ==> end == middle
                &&& ast.end is Some ==> (range is RangeInclusive || range is RangeToInclusive)
                    == closed
            }
        }),
{
    let x = ast::Expr::Range(Box::new(ast));
    reveal(model::expr_rule);
    reveal(ast::expr_span);
    assert(model::expr(env, st, x) == model::expr_rule(env, st, x));
    lemma_optional(env, resolving(st), ast.start);
    let middle = model::optional(env, resolving(st), ast.start).0;
    lemma_optional(env, middle, ast.end);
}

/// A literal is lowered to what its token stands for. A string in a template is
/// read as a part of it. A byte is an unsigned number.
pub proof fn lemma_lit(in_template: bool, ast: ast::Lit)
    ensures
        ({
            let r = rules::lit(in_template, ast);
            match ast {
                ast::Lit::Bool(lit) => r == Ok::<hir::Lit, CompileError>(
                    hir::Lit::Bool(lit.value),
                ),
                ast::Lit::Byte(lit) => match lit.value {
                    Ok(b) => r is Ok && r->Ok_0 is Unsigned && r->Ok_0->Unsigned_0 == b,
                    Err(e) => r is Err && r->Err_0.span == lit.span && r->Err_0.kind
                        == ErrorKind::Resolve(e),
                },
                ast::Lit::Char(lit) => match lit.value {
                    Ok(c) => r == Ok::<hir::Lit, CompileError>(hir::Lit::Char(c)),
                    Err(e) => r is Err && r->Err_0.span == lit.span && r->Err_0.kind
                        == ErrorKind::Resolve(e),
                },
                ast::Lit::ByteStr(lit) => match lit.value {
                    Ok(bytes) => r == Ok::<hir::Lit, CompileError>(hir::Lit::ByteStr(bytes)),
                    Err(e) => r is Err && r->Err_0.span == lit.span && r->Err_0.kind
                        == ErrorKind::Resolve(e),
                },
                ast::Lit::Str(lit) => match (if in_template {
                    lit.template
                } else {
                    lit.string
                }) {
                    Ok(text) => r == Ok::<hir::Lit, CompileError>(hir::Lit::Str(text)),
                    Err(e) => r is Err && r->Err_0.span == lit.span && r->Err_0.kind
                        == ErrorKind::Resolve(e),
                },
                ast::Lit::Number(lit) => match lit.number {
                    Ok(number) => match number.value {
                        ast::NumberValue::Float(x) => r == Ok::<hir::Lit, CompileError>(
                            hir::Lit::Float(x),
                        ),
                        ast::NumberValue::Integer(n) => r == rules::integer(
                            n.value(),
                            number.suffix,
                            lit.span,
                        ),
                    },
                    Err(e) => r is Err && r->Err_0.span == lit.span && r->Err_0.kind
                        == ErrorKind::Resolve(e),
                },
            }
        }),
{
    reveal(rules::lit);
}

/// An integer is a literal exactly if it is in the range of its suffix. Without
/// one, that is the range of 64 bits with a sign.
pub proof fn lemma_integer_range(
    value: int,
    suffix: Option<ast::NumberSuffix>,
    span: crate::span::Span,
)
    ensures
        ({
            let r = rules::integer(value, suffix, span);
            &&& r is Err ==> r->Err_0.span == span
            &&& match suffix {
                Some(ast::NumberSuffix::Unsigned(_, ast::NumberSize::S8)) => r is Ok == (0 <= value
                    <= u8::MAX),
                Some(ast::NumberSuffix::Unsigned(_, ast::NumberSize::S16)) => r is Ok == (0 <= value
                    <= u16::MAX),
                Some(ast::NumberSuffix::Unsigned(_, ast::NumberSize::S32)) => r is Ok == (0 <= value
                    <= u32::MAX),
                Some(ast::NumberSuffix::Unsigned(_, ast::NumberSize::S64)) => r is Ok == (0 <= value
                    <= u64::MAX),
                Some(ast::NumberSuffix::Signed(_, ast::NumberSize::S8)) => r is Ok == (i8::MIN
                    <= value <= i8::MAX),
                Some(ast::NumberSuffix::Signed(_, ast::NumberSize::S16)) => r is Ok == (i16::MIN
                    <= value <= i16::MAX),
                Some(ast::NumberSuffix::Signed(_, ast::NumberSize::S32)) => r is Ok == (i32::MIN
                    <= value <= i32::MAX),
                _ => r is Ok == (i64::MIN <= value <= i64::MAX),
            }
            &&& r is Err ==> match suffix {
                Some(ast::NumberSuffix::Unsigned(_, size)) => r->Err_0.kind == (
                ErrorKind::BadUnsignedOutOfBounds { size }),
                Some(ast::NumberSuffix::Signed(_, size)) => r->Err_0.kind == (
                ErrorKind::BadSignedOutOfBounds { size }),
                _ => r->Err_0.kind == (ErrorKind::BadSignedOutOfBounds {
                    size: ast::NumberSize::S64,
                }),
            }
        }),
{
    reveal(rules::integer);
}

/// An expression that is a literal is lowered to the literal, and changes nothing.
pub proof fn lemma_expr_lit(env: Env, st: State, ast: ast::ExprLit)
    ensures
        ({
            let (end, r) = model::expr(env, st, ast::Expr::Lit(Box::new(ast)));
            &&& end == resolving(st)
            &&& match rules::lit(st.in_template, ast.lit) {
                Ok(lit) => r is Ok && r->Ok_0.span == ast.span && r->Ok_0.kind
                    == hir::ExprKind::Lit(lit),
                Err(e) => r == Err::<hir::Expr, CompileError>(e),
            }
        }),
{
    let x = ast::Expr::Lit(Box::new(ast));
    reveal(model::expr_rule);
    reveal(ast::expr_span);
    assert(model::expr(env, st, x) == model::expr_rule(env, st, x));
}

/// A template has the lowering of all of its parts, in order. String literals are
/// read as parts of it there, and nowhere behind it.
pub proof fn lemma_template(env: Env, st: State, ast: ast::MacroCall, template: ast::BuiltInTemplate)
    requires
        ast.expanded == Some(ast::BuiltInMacro::Template(template)),
        model::expr(env, st, ast::Expr::MacroCall(Box::new(ast))).1 is Ok,
    ensures
        ({
            let (end, r) = model::expr(env, st, ast::Expr::MacroCall(Box::new(ast)));
            let hir = r->Ok_0;
            let last = model::exprs(
                env,
                State { in_template: true, ..resolving(st) },
                template.exprs@,
                0,
                Seq::empty(),
            ).0;
            &&& hir.span == ast.span
            &&& hir.kind is Template
            &&& hir.kind->Template_0.span == template.span
            &&& hir.kind->Template_0.from_literal == template.from_literal
            &&& all_lowered(
                template.exprs@,
                hir.kind->Template_0.exprs@,
                State { in_template: true, ..resolving(st) },
                last,
                expr_step(env),
            )
            &&& end == (State { in_template: st.in_template, ..last })
        }),
{
    let x = ast::Expr::MacroCall(Box::new(ast));
    reveal(model::expr_rule);
    reveal(ast::expr_span);
    assert(model::expr(env, st, x) == model::expr_rule(env, st, x));
    let start = State { in_template: true, ..resolving(st) };
    lemma_exprs(env, start, template.exprs@);
    lemma_listed(model::exprs(env, start, template.exprs@, 0, Seq::empty()).1->Ok_0);
}

/// A formatted value keeps how it is formatted, and `file!` and `line!` are
/// literals. A macro that has not been expanded is an error.
pub proof fn lemma_macro_call(env: Env, st: State, ast: ast::MacroCall)
    ensures
        ({
            let (end, r) = model::expr(env, st, ast::Expr::MacroCall(Box::new(ast)));
            &&& r is Ok ==> r->Ok_0.span == ast.span && ast.id is Some && ast.expanded is Some
            &&& ast.id is None ==> r is Err && r->Err_0.span == ast.span
            &&& ast.id is Some && ast.expanded is None ==> r is Err && r->Err_0.span == ast.span
                && r->Err_0.kind == (ErrorKind::MissingId {
                what: "built-in macro",
                id: ast.id->0,
            })
            &&& r is Ok ==> match ast.expanded->0 {
                ast::BuiltInMacro::Template(_) => r->Ok_0.kind is Template,
                ast::BuiltInMacro::Format(format) => r->Ok_0.kind is Format
                    && r->Ok_0.kind->Format_0.spec == format.spec && lowers(
                    env,
                    resolving(st),
                    format.value,
                    end,
                    r->Ok_0.kind->Format_0.value,
                ),
                ast::BuiltInMacro::File(lit) => r->Ok_0.kind is Lit && rules::lit(
                    st.in_template,
                    lit,
                ) == Ok::<hir::Lit, CompileError>(r->Ok_0.kind->Lit_0),
                ast::BuiltInMacro::Line(lit) => r->Ok_0.kind is Lit && rules::lit(
                    st.in_template,
                    lit,
                ) == Ok::<hir::Lit, CompileError>(r->Ok_0.kind->Lit_0),
            }
        }),
{
    let x = ast::Expr::MacroCall(Box::new(ast));
    reveal(model::expr_rule);
    reveal(ast::expr_span);
    assert(model::expr(env, st, x) == model::expr_rule(env, st, x));
}

/// The number of the first `n` branches of a `select` that have a pattern.
pub open spec fn pat_branches(asts: Seq<ast::ExprSelectBranch>, n: int) -> nat
    decreases n,
{
    if n <= 0 {
        0
    } else if asts[n - 1] is Pat {
        pat_branches(asts, n - 1) + 1
    } else {
        pat_branches(asts, n - 1)
    }
}

/// Test if a branch of a `select` with a pattern is lowered: in a scope of its own
/// the pattern and then the body, and outside of it what it waits for.
pub open spec fn is_select_branch(
    env: Env,
    st: State,
    ast: ast::ExprSelectPatBranch,
    end: State,
    branch: hir::ExprSelectBranch,
    expr: hir::Expr,
) -> bool {
    let (s1, pat) = model::pat_binding(env, st.pushed(LayerKind::Block(None)), ast.pat);
    let (s2, body) = model::expr(env, s1, ast.body);
    let outside = s2.popped(ast.span).0;
    &&& pat == Ok::<hir::PatBinding, CompileError>(branch.pat)
    &&& body == Ok::<hir::Expr, CompileError>(branch.body)
    &&& is_left(s2, ast.span, branch.drop, outside)
    &&& lowers(env, outside, ast.expr, end, expr)
}

/// Test if the first `n` branches of a `select` are lowered in turn: each one with
/// a pattern to the branch with its number among those, and the default branch, if
/// there is one, to the default.
pub open spec fn is_select(
    env: Env,
    asts: Seq<ast::ExprSelectBranch>,
    states: Seq<State>,
    n: int,
    branches: Seq<hir::ExprSelectBranch>,
    exprs: Seq<hir::Expr>,
    default: Option<Box<hir::Expr>>,
) -> bool {
    &&& states.len() == n + 1
    &&& branches.len() == pat_branches(asts, n)
    &&& exprs.len() == pat_branches(asts, n)
    &&& forall|i: int|
        0 <= i < n ==> match #[trigger] asts[i] {
            ast::ExprSelectBranch::Pat(ast) => pat_branches(asts, i) < branches.len()
                && is_select_branch(
                env,
                states[i],
                ast,
                states[i + 1],
                branches[pat_branches(asts, i) as int],
                exprs[pat_branches(asts, i) as int],
            ),
            ast::ExprSelectBranch::Default(ast) => default is Some && lowers(
                env,
                states[i],
                ast.expr,
                states[i + 1],
                *default->0,
            ),
        }
    &&& default is Some ==> exists|i: int| 0 <= i < n && #[trigger] asts[i] is Default
    &&& forall|i: int, j: int|
        0 <= i < j < n ==> !(#[trigger] asts[i] is Default && #[trigger] asts[j] is Default)
}

/// There are no fewer branches with a pattern among more branches.
proof fn lemma_pat_branches(asts: Seq<ast::ExprSelectBranch>, i: int, n: int)
    requires
        0 <= i <= n,
    ensures
        pat_branches(asts, i) <= pat_branches(asts, n),
        i < n && asts[i] is Pat ==> pat_branches(asts, i) < pat_branches(asts, n),
    decreases n - i,
{
    if i < n {
        lemma_pat_branches(asts, i, n - 1);
    }
}

/// The branches of a `select` are lowered in turn.
#[verifier::spinoff_prover]
proof fn lemma_select_branches(
    env: Env,
    st: State,
    asts: Seq<ast::ExprSelectBranch>,
    i: int,
    parts: model::SelectParts,
    states: Seq<State>,
)
    requires
        0 <= i <= asts.len(),
        is_select(env, asts, states, i, parts.branches, parts.exprs, parts.default),
        states[i] == st,
        model::select_branches(env, st, asts, i, parts).1 is Ok,
    ensures
        ({
            let (end, r) = model::select_branches(env, st, asts, i, parts);
            exists|all: Seq<State>|
                {
                    &&& #[trigger] is_select(
                        env,
                        asts,
                        all,
                        asts.len() as int,
                        r->Ok_0.branches,
                        r->Ok_0.exprs,
                        r->Ok_0.default,
                    )
                    &&& all[0] == states[0]
                    &&& all.last() == end
                }
        }),
    decreases asts.len() - i,
{
    if i < asts.len() {
        match asts[i] {
            ast::ExprSelectBranch::Pat(ast) => {
                let (next, r) = model::select_branch(env, st, ast);
                let (branch, expr) = r->Ok_0;
                let more = states.push(next);
                let bs = parts.branches.push(branch);
                let es = parts.exprs.push(expr);
                assert forall|j: int| 0 <= j < i + 1 implies match #[trigger] asts[j] {
                    ast::ExprSelectBranch::Pat(a) => pat_branches(asts, j) < bs.len()
                        && is_select_branch(
                        env,
                        more[j],
                        a,
                        more[j + 1],
                        bs[pat_branches(asts, j) as int],
                        es[pat_branches(asts, j) as int],
                    ),
                    ast::ExprSelectBranch::Default(a) => parts.default is Some && lowers(
                        env,
                        more[j],
                        a.expr,
                        more[j + 1],
                        *parts.default->0,
                    ),
                } by {
                    lemma_pat_branches(asts, j, i);
                    if j < i {
                        assert(more[j] == states[j] && more[j + 1] == states[j + 1]);
                    }
                }
                let all = model::SelectParts { branches: bs, exprs: es, default: parts.default };
                lemma_select_branches(env, next, asts, i + 1, all, more);
            },
            ast::ExprSelectBranch::Default(ast) => {
                let (next, r) = model::expr(env, st, ast.expr);
                let more = states.push(next);
                let all = model::SelectParts { default: Some(Box::new(r->Ok_0)), ..parts };
                assert forall|j: int| 0 <= j < i + 1 implies match #[trigger] asts[j] {
                    ast::ExprSelectBranch::Pat(a) => pat_branches(asts, j) < parts.branches.len()
                        && is_select_branch(
                        env,
                        more[j],
                        a,
                        more[j + 1],
                        parts.branches[pat_branches(asts, j) as int],
                        parts.exprs[pat_branches(asts, j) as int],
                    ),
                    ast::ExprSelectBranch::Default(a) => all.default is Some && lowers(
                        env,
                        more[j],
                        a.expr,
                        more[j + 1],
                        *all.default->0,
                    ),
                } by {
                    if j < i {
                        assert(more[j] == states[j] && more[j + 1] == states[j + 1]);
                    }
                }
                lemma_select_branches(env, next, asts, i + 1, all, more);
            },
        }
    } else {
        assert(is_select(
            env,
            asts,
            states,
            asts.len() as int,
            parts.branches,
            parts.exprs,
            parts.default,
        ));
    }
}

/// A `select` has a branch and something to wait for, for each branch that was
/// written with a pattern, in order, and a default exactly if one was written.
pub proof fn lemma_select(env: Env, st: State, ast: ast::ExprSelect)
    requires
        model::expr(env, st, ast::Expr::Select(Box::new(ast))).1 is Ok,
    ensures
        ({
            let (end, r) = model::expr(env, st, ast::Expr::Select(Box::new(ast)));
            let hir = r->Ok_0;
            &&& hir.span == ast.span
            &&& hir.kind is Select
            &&& exists|states: Seq<State>|
                {
                    &&& #[trigger] is_select(
                        env,
                        ast.branches@,
                        states,
                        ast.branches@.len() as int,
                        hir.kind->Select_0.branches@,
                        hir.kind->Select_0.exprs@,
                        hir.kind->Select_0.default,
                    )
                    &&& states[0] == resolving(st)
                    &&& states.last() == end
                }
        }),
{
    let x = ast::Expr::Select(Box::new(ast));
    reveal(model::expr_rule);
    reveal(ast::expr_span);
    assert(model::expr(env, st, x) == model::expr_rule(env, st, x));
    let none = model::SelectParts {
        branches: Seq::empty(),
        exprs: Seq::empty(),
        default: None,
    };
    lemma_select_branches(env, resolving(st), ast.branches@, 0, none, seq![resolving(st)]);
    let parts = model::select_branches(env, resolving(st), ast.branches@, 0, none).1->Ok_0;
    lemma_listed(parts.branches);
    lemma_listed(parts.exprs);
}

/// Which kinds of expressions what is written can be lowered to.
pub open spec fn is_kind_of(ast: ast::Expr, kind: hir::ExprKind) -> bool {
    match ast {
        ast::Expr::Path(_) => {
            ||| kind is Variable
            ||| kind is Path
            ||| kind is Type
            ||| kind is Fn
            ||| kind is Const
            ||| kind is Call && kind->Call_0.call is Meta && kind->Call_0.args is Nil
        },
        ast::Expr::Assign(_) => kind is Assign,
        ast::Expr::While(_) => kind is Loop && kind->Loop_0.condition is Some,
        ast::Expr::Loop(_) => kind is Loop && kind->Loop_0.condition is None,
        ast::Expr::For(_) => kind is For,
        ast::Expr::Let(_) => kind is Let,
        ast::Expr::If(_) => kind is If,
        ast::Expr::Match(_) => kind is Match,
        ast::Expr::Call(_) => kind is Call,
        ast::Expr::FieldAccess(_) => kind is FieldAccess,
        ast::Expr::Empty(_) => kind is Group,
        ast::Expr::Binary(_) => kind is Binary,
        ast::Expr::Unary(_) => kind is Unary || kind is Lit,
        ast::Expr::Index(_) => kind is Index,
        ast::Expr::Block(_) => kind is Block || kind is AsyncBlock || kind is Const,
        ast::Expr::Break(_) => kind is Break,
        ast::Expr::Continue(_) => kind is Continue,
        ast::Expr::Yield(_) => kind is Yield,
        ast::Expr::Return(_) => kind is Return,
        ast::Expr::Await(_) => kind is Await,
        ast::Expr::Try(_) => kind is Try,
        ast::Expr::Select(_) => kind is Select,
        ast::Expr::Closure(_) => kind is Fn || kind is CallClosure,
        ast::Expr::Lit(_) => kind is Lit,
        ast::Expr::Object(_) => kind is Object,
        ast::Expr::Tuple(_) => kind is Tuple,
        ast::Expr::Vec(_) => kind is Vec,
        ast::Expr::Range(_) => kind is Range,
        ast::Expr::Group(_) => kind is Group,
        ast::Expr::MacroCall(_) => kind is Template || kind is Format || kind is Lit,
    }
}

/// What is written is lowered to an expression of its kind, in its place. A loop
/// has no condition only if it comes from `loop`.
#[verifier::spinoff_prover]
pub proof fn lemma_kind(env: Env, st: State, ast: ast::Expr)
    requires
        model::expr(env, st, ast).1 is Ok,
    ensures
        is_kind_of(ast, model::expr(env, st, ast).1->Ok_0.kind),
        model::expr(env, st, ast).1->Ok_0.span == ast::expr_span(ast),
        ({
            let kind = model::expr(env, st, ast).1->Ok_0.kind;
            kind is Loop && kind->Loop_0.condition is None ==> ast is Loop
        }),
{
    reveal(model::expr_rule);
    assert(model::expr(env, st, ast) == model::expr_rule(env, st, ast));
    match ast {
        ast::Expr::Path(path) => lemma_path_kind(env, resolving(st), path, st.in_path),
        ast::Expr::Block(block) => lemma_block_kind(env, resolving(st), *block),
        ast::Expr::Closure(closure) => lemma_closure_kind(env, resolving(st), *closure),
        _ => {},
    }
}

/// The kinds of expressions that a path can be lowered to.
proof fn lemma_path_kind(env: Env, st: State, ast: ast::Path, in_path: bool)
    ensures
        model::expr_path(env, st, ast, in_path).1 matches Ok(kind) ==> is_kind_of(
            ast::Expr::Path(ast),
            kind,
        ),
{
    reveal(rules::expr_path_meta);
    reveal(rules::call_of);
}

/// The kinds of expressions that a block can be lowered to.
proof fn lemma_block_kind(env: Env, st: State, ast: ast::ExprBlock)
    ensures
        model::expr_block(env, st, ast).1 matches Ok(kind) ==> is_kind_of(
            ast::Expr::Block(Box::new(ast)),
            kind,
        ),
{
}

/// The kinds of expressions that a closure can be lowered to.
proof fn lemma_closure_kind(env: Env, st: State, ast: ast::ExprClosure)
    ensures
        model::expr_call_closure(env, st, ast).1 matches Ok(kind) ==> is_kind_of(
            ast::Expr::Closure(Box::new(ast)),
            kind,
        ),
{
}

} // verus!
