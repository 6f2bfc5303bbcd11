//! Laws of lowering.

use vstd::prelude::*;
use crate::ast;
use crate::hir;
use crate::hir::ctxt::{Env, State};
use crate::hir::model;
use crate::hir::rules;
use crate::query::{FieldMeta, ItemId, Meta};
use crate::runtime::ConstValue;
use crate::span::Span;

verus! {

/// The value of an integer literal.
pub open spec fn literal_value(lit: hir::Lit) -> Option<int> {
    match lit {
        hir::Lit::Unsigned(n) => Some(n as int),
        hir::Lit::Signed(n) => Some(n as int),
        _ => None,
    }
}

/// Test if a literal is of the sign that its suffix says. Without one, it is
/// signed.
pub open spec fn has_sign(lit: hir::Lit, suffix: Option<ast::NumberSuffix>) -> bool {
    match suffix {
        Some(ast::NumberSuffix::Unsigned(..)) => lit is Unsigned,
        _ => lit is Signed,
    }
}

/// An integer is lowered to a literal of its own value and sign, or not at all.
pub proof fn lemma_integer_exact(value: int, suffix: Option<ast::NumberSuffix>, span: Span)
    ensures
        rules::integer(value, suffix, span) matches Ok(lit) ==> literal_value(lit) == Some(value)
            && has_sign(lit, suffix),
{
    reveal(rules::integer);
}

/// A signed number has a literal exactly if the one of its negation, written
/// with a minus sign in front, has one too, but for the lowest number: that one
/// can only be written with a minus sign.
pub proof fn lemma_integer_negated(value: int, size: ast::NumberSize, at: Span, span: Span)
    requires
        value != -size.signed_max() - 1,
        value != size.signed_max() + 1,
    ensures
        ({
            let suffix = Some(ast::NumberSuffix::Signed(at, size));
            rules::integer(value, suffix, span) is Ok == rules::integer(-value, suffix, span) is Ok
        }),
{
    reveal(rules::integer);
}

/// Where a sequence of patterns can be counted, every pattern is counted but a
/// `..` at the end, and no other pattern is `..`.
pub proof fn lemma_pat_items(items: Seq<ast::Pat>)
    requires
        items.len() <= usize::MAX,
    ensures
        rules::pat_items_count(items) matches Ok((is_open, count)) ==> {
            &&& items.len() == count + (if is_open {
                1int
            } else {
                0int
            })
            &&& is_open == (items.len() > 0 && items.last() is Rest)
            &&& forall|i: int| 0 <= i < count ==> !(#[trigger] items[i] is Rest)
        },
{
    reveal(rules::pat_items_count);
    lemma_inner_rest(items, 0);
}

/// The first inner `..` is where it is found, and none is before it.
proof fn lemma_inner_rest(items: Seq<ast::Pat>, i: int)
    requires
        0 <= i,
    ensures
        rules::inner_rest(items, i) >= items.len() ==> forall|j: int|
            i <= j < items.len() - 1 ==> !(#[trigger] items[j] is Rest),
        rules::inner_rest(items, i) < items.len() ==> i <= rules::inner_rest(items, i)
            < items.len() - 1 && items[rules::inner_rest(items, i)] is Rest,
    decreases items.len() - i,
{
    if i < items.len() - 1 && !(items[i] is Rest) {
        lemma_inner_rest(items, i + 1);
    }
}

/// A type that a tuple pattern matches is matched by a struct pattern only if
/// that is nothing but `..`, and then as the same type.
pub proof fn lemma_tuple_or_struct(meta: Meta)
    ensures
        rules::tuple_match_for(meta) is Some ==> rules::struct_match_for(meta, false) is None,
        rules::tuple_match_for(meta) matches Some((_, kind)) ==> rules::struct_match_for(
            meta,
            true,
        ) == Some((Seq::<String>::empty(), kind)),
{
    reveal(rules::tuple_match_for);
    reveal(rules::struct_match_for);
}

/// An object literal that is accepted assigns to each field of its type exactly
/// once and to nothing else. Assignments keep their order.
pub proof fn lemma_object_fields(
    fields: Seq<FieldMeta>,
    assigns: Seq<hir::FieldAssign>,
    item: ItemId,
    span: Span,
)
    requires
        rules::check_object_fields(fields, assigns, item, span) is Ok,
    ensures
        ({
            let r = rules::check_object_fields(fields, assigns, item, span)->Ok_0;
            &&& r.len() == assigns.len()
            &&& forall|i: int|
                0 <= i < r.len() ==> (#[trigger] r[i]).key == assigns[i].key && r[i].assign
                    == assigns[i].assign && r[i].position is Some
            &&& forall|i: int| 0 <= i < r.len() ==> is_field(fields, (#[trigger] r[i]).key.1@)
            &&& forall|i: int|
                0 <= i < fields.len() ==> assigned(r, (#[trigger] fields[i]).name@)
            &&& forall|i: int, j: int|
                0 <= i < j < r.len() ==> (#[trigger] r[i]).key.1@ != (#[trigger] r[j]).key.1@
        }),
{
    reveal(rules::check_object_fields);
    let r = rules::check_object_fields(fields, assigns, item, span)->Ok_0;
    lemma_known(fields, assigns, 0);
    lemma_assigned(fields, assigns, 0);
    assert forall|i: int| 0 <= i < r.len() implies is_field(fields, (#[trigger] r[i]).key.1@) by {
        assert(rules::position_of(fields, assigns[i].key.1@, fields.len()) is Some);
        lemma_position(fields, assigns[i].key.1@, fields.len());
    }
    assert forall|i: int| 0 <= i < fields.len() implies assigned(r, (#[trigger] fields[i]).name@) by {
        let at = rules::assignment_index(assigns, fields[i].name@, 0);
        assert(at < assigns.len());
        lemma_assignment_index(assigns, fields[i].name@, 0);
        assert(r[at].key == assigns[at].key);
    }
    assert forall|i: int, j: int| 0 <= i < j < r.len() implies (#[trigger] r[i]).key.1@ != (
    #[trigger] r[j]).key.1@ by {
        assert(rules::assignment_index(assigns, assigns[j].key.1@, 0) >= j);
        lemma_assignment_index(assigns, assigns[j].key.1@, 0);
        assert(assigns[i].key.1@ != assigns[j].key.1@);
    }
}

/// Test if one of the fields has the name.
pub open spec fn is_field(fields: Seq<FieldMeta>, name: Seq<char>) -> bool {
    exists|i: int| 0 <= i < fields.len() && (#[trigger] fields[i]).name@ == name
}

/// Test if there is an assignment to a key.
pub open spec fn assigned(assigns: Seq<hir::FieldAssign>, key: Seq<char>) -> bool {
    exists|i: int| 0 <= i < assigns.len() && (#[trigger] assigns[i]).key.1@ == key
}

/// A field that has a position is one of the fields.
proof fn lemma_position(fields: Seq<FieldMeta>, name: Seq<char>, n: nat)
    requires
        n <= fields.len(),
    ensures
        rules::position_of(fields, name, n) is Some ==> is_field(fields, name),
    decreases n,
{
    if n > 0 {
        if fields[n - 1].name@ == name {
            assert(is_field(fields, name));
        } else {
            lemma_position(fields, name, (n - 1) as nat);
        }
    }
}

/// The first assignment to a key is where it is found, and none is before it.
proof fn lemma_assignment_index(assigns: Seq<hir::FieldAssign>, key: Seq<char>, i: int)
    requires
        0 <= i,
    ensures
        ({
            let at = rules::assignment_index(assigns, key, i);
            &&& forall|j: int| i <= j < at && j < assigns.len() ==> (#[trigger] assigns[j]).key.1@
                != key
            &&& at < assigns.len() ==> i <= at && assigns[at].key.1@ == key
        }),
    decreases assigns.len() - i,
{
    if i < assigns.len() && assigns[i].key.1@ != key {
        lemma_assignment_index(assigns, key, i + 1);
    }
}

/// If no assignment is found to be wrong, then none is.
proof fn lemma_known(fields: Seq<FieldMeta>, assigns: Seq<hir::FieldAssign>, i: int)
    requires
        0 <= i,
        rules::unknown_field(fields, assigns, i) >= assigns.len(),
    ensures
        forall|j: int|
            i <= j < assigns.len() ==> rules::position_of(
                fields,
                (#[trigger] assigns[j]).key.1@,
                fields.len(),
            ) is Some && rules::assignment_index(assigns, assigns[j].key.1@, 0) >= j,
    decreases assigns.len() - i,
{
    if i < assigns.len() {
        lemma_known(fields, assigns, i + 1);
    }
}

/// If no field is found to be missing, then none is.
proof fn lemma_assigned(fields: Seq<FieldMeta>, assigns: Seq<hir::FieldAssign>, i: int)
    requires
        0 <= i,
        rules::unassigned(fields, assigns, i) >= fields.len(),
    ensures
        forall|j: int|
            i <= j < fields.len() ==> rules::assignment_index(
                assigns,
                (#[trigger] fields[j]).name@,
                0,
            ) < assigns.len(),
    decreases fields.len() - i,
{
    if i < fields.len() {
        lemma_assigned(fields, assigns, i + 1);
    }
}

/// A constant sequence is matched by as many patterns as it has items.
pub proof fn lemma_const_pats(
    values: Seq<ConstValue>,
    span: Span,
    i: int,
    items: Seq<hir::Pat>,
)
    requires
        0 <= i <= values.len(),
    ensures
        rules::const_pats(values, span, i, items) matches Ok(pats) ==> pats.len() == items.len()
            + values.len() - i,
    decreases values.len() - i,
{
    if i < values.len() {
        if let Ok(item) = rules::pat_const_value(values[i], span) {
            lemma_const_pats(values, span, i + 1, items.push(item));
        }
    }
}

/// Only the user of an expression that asks for it is left to resolve a path.
pub proof fn lemma_path_resolved(env: Env, st: State, ast: ast::Expr)
    requires
        !st.in_path,
    ensures
        model::expr(env, st, ast).1 matches Ok(hir) ==> !(hir.kind is Path),
{
    reveal(model::expr_rule);
    assert(model::expr(env, st, ast) == model::expr_rule(env, st, ast));
    lemma_kind_resolved(env, State { in_path: false, ..st }, ast);
}

/// An expression whose user does not resolve paths is not lowered to one.
#[verifier::spinoff_prover]
proof fn lemma_kind_resolved(env: Env, st: State, ast: ast::Expr)
    ensures
        model::expr_kind(env, st, ast, false).1 matches Ok(kind) ==> !(kind is Path),
{
    match ast {
        ast::Expr::Path(ast) => lemma_item_resolved(env, st, ast),
        ast::Expr::Block(ast) => lemma_block_resolved(env, st, *ast),
        _ => {},
    }
}

/// A path is not lowered to one that its user resolves.
proof fn lemma_item_resolved(env: Env, st: State, ast: ast::Path)
    ensures
        model::expr_path(env, st, ast, false).1 matches Ok(kind) ==> !(kind is Path),
{
    reveal(rules::expr_path_meta);
    reveal(rules::call_of);
}

/// A block expression is not lowered to a path.
proof fn lemma_block_resolved(env: Env, st: State, ast: ast::ExprBlock)
    ensures
        model::expr_block(env, st, ast).1 matches Ok(kind) ==> !(kind is Path),
{
}

} // verus!
