//! Laws of the patterns that constants stand for.

use vstd::prelude::*;
use crate::compile::error::{CompileError, ConstError, ErrorKind};
use crate::hash::{Hash64, EMPTY};
use crate::hir;
use crate::hir::control_laws::lemma_listed;
use crate::hir::rules;
use crate::runtime::{ConstValue, Inline, OBJECT_HASH, OWNED_TUPLE_HASH, VEC_HASH};
use crate::span::Span;

verus! {

/// Test if a pattern can stand for constants of this kind.
pub open spec fn is_kind_matched(value: ConstValue) -> bool {
    match value {
        ConstValue::Inline(inline) => inline is Unit || inline is Bool || inline is Char
            || inline is Unsigned || inline is Signed,
        ConstValue::String(_) => true,
        ConstValue::Bytes(_) => true,
        ConstValue::Instance(instance) => {
            &&& instance.variant_hash.0 == EMPTY
            &&& {
                ||| instance.hash.0 == VEC_HASH
                ||| instance.hash.0 == OWNED_TUPLE_HASH
                ||| instance.hash.0 == OBJECT_HASH
            }
        },
    }
}

/// A constant of a kind that no pattern can stand for is refused. What is written in
/// place is never refused otherwise.
pub proof fn lemma_const_refused(value: ConstValue, span: Span)
    ensures
        !is_kind_matched(value) ==> {
            &&& rules::pat_const_value(value, span) matches Err(e)
            &&& e.span == span
            &&& e.kind == ErrorKind::Msg("Unsupported constant value in pattern")
        },
        is_kind_matched(value) && !(value is Instance) ==> rules::pat_const_value(
            value,
            span,
        ) is Ok,
{
    reveal(rules::unsupported_const);
}

/// The key of a constant pair whose key is a string.
pub open spec fn const_key(value: ConstValue) -> String {
    value->Instance_0.fields@[0]->String_0
}

/// The value of a constant pair.
pub open spec fn const_field(value: ConstValue) -> ConstValue {
    value->Instance_0.fields@[1]
}

/// Test if a constant is a tuple of two values.
pub open spec fn is_const_pair(value: ConstValue) -> bool {
    &&& value is Instance
    &&& value->Instance_0.hash.0 == OWNED_TUPLE_HASH
    &&& value->Instance_0.variant_hash.0 == EMPTY
    &&& value->Instance_0.fields@.len() == 2
}

/// Test if a constant is a pair of a string and a value that a pattern can stand
/// for.
pub open spec fn is_const_entry(value: ConstValue, span: Span) -> bool {
    &&& is_const_pair(value)
    &&& value->Instance_0.fields@[0] is String
    &&& rules::pat_const_value(const_field(value), span) is Ok
}

/// Test if a binding is that of a constant pair.
pub open spec fn is_const_binding(value: ConstValue, span: Span, binding: hir::Binding) -> bool {
    &&& is_const_entry(value, span)
    &&& binding matches hir::Binding::Binding(at, key, pat)
    &&& at == span
    &&& key == const_key(value)
    &&& rules::pat_const_value(const_field(value), span) == Ok::<hir::Pat, CompileError>(*pat)
}

/// Test if constants are the pairs of bindings, in order.
pub open spec fn are_const_bindings(
    values: Seq<ConstValue>,
    span: Span,
    bindings: Seq<hir::Binding>,
) -> bool {
    &&& bindings.len() == values.len()
    &&& forall|j: int|
        0 <= j < values.len() ==> is_const_binding(values[j], span, #[trigger] bindings[j])
}

/// The bindings of constant pairs are those of each of them, in order.
proof fn lemma_const_bindings(
    values: Seq<ConstValue>,
    span: Span,
    i: int,
    bindings: Seq<hir::Binding>,
)
    requires
        0 <= i <= values.len(),
        are_const_bindings(values.take(i), span, bindings),
        rules::const_bindings(values, span, i, bindings) is Ok,
    ensures
        are_const_bindings(
            values,
            span,
            rules::const_bindings(values, span, i, bindings)->Ok_0,
        ),
    decreases values.len() - i,
{
    if i < values.len() {
        let pat = rules::pat_const_value(const_field(values[i]), span)->Ok_0;
        let last = hir::Binding::Binding(span, const_key(values[i]), Box::new(pat));
        let more = bindings.push(last);
        let front = values.take(i + 1);
        assert forall|j: int| 0 <= j < front.len() implies is_const_binding(
            front[j],
            span,
            #[trigger] more[j],
        ) by {
            if j < i {
                assert(more[j] == bindings[j]);
                assert(front[j] == values.take(i)[j]);
            }
        }
        lemma_const_bindings(values, span, i + 1, more);
    } else {
        assert(values.take(i) =~= values);
    }
}

/// A constant object is matched by an object of exactly its keys, in their order,
/// with a pattern for the value of each.
pub proof fn lemma_const_object(value: ConstValue, span: Span)
    requires
        value is Instance,
        value->Instance_0.variant_hash == Hash64(EMPTY),
        value->Instance_0.hash == Hash64(OBJECT_HASH),
        rules::pat_const_value(value, span) is Ok,
    ensures
        ({
            let pat = rules::pat_const_value(value, span)->Ok_0;
            let values = value->Instance_0.fields@;
            let object = pat.kind->Object_0;
            &&& pat.span == span
            &&& pat.kind is Object
            &&& object.kind == (hir::PatSequenceKind::Sequence {
                hash: Hash64(OBJECT_HASH),
                count: values.len() as usize,
                is_open: false,
            })
            &&& are_const_bindings(values, span, object.bindings@)
        }),
{
    reveal(rules::const_object);
    let values = value->Instance_0.fields@;
    assert(values.take(0) =~= Seq::empty());
    lemma_const_bindings(values, span, 0, Seq::empty());
    lemma_listed(rules::const_bindings(values, span, 0, Seq::empty())->Ok_0);
}

/// The first constant that is no pair, whose key is no string, or whose value no
/// pattern can stand for, is why constant pairs are refused.
proof fn lemma_const_bindings_refused(
    values: Seq<ConstValue>,
    span: Span,
    i: int,
    bindings: Seq<hir::Binding>,
    k: int,
)
    requires
        0 <= i <= k < values.len(),
        forall|j: int| i <= j < k ==> is_const_entry(#[trigger] values[j], span),
        !is_const_entry(values[k], span),
    ensures
        ({
            &&& rules::const_bindings(values, span, i, bindings) matches Err(e)
            &&& if !is_const_pair(values[k]) {
                e.span == span && e.kind == ErrorKind::Const(ConstError::ExpectedPair)
            } else if !(values[k]->Instance_0.fields@[0] is String) {
                e.span == span && e.kind == ErrorKind::Const(ConstError::ExpectedString)
            } else {
                rules::pat_const_value(const_field(values[k]), span) == Err::<hir::Pat, _>(e)
            }
        }),
    decreases k - i,
{
    assert(is_const_pair(values[i]) <==> values[i].is_pair());
    if i < k {
        assert(is_const_entry(values[i], span));
        let pat = rules::pat_const_value(const_field(values[i]), span)->Ok_0;
        let last = hir::Binding::Binding(span, const_key(values[i]), Box::new(pat));
        lemma_const_bindings_refused(values, span, i + 1, bindings.push(last), k);
    }
}

/// A constant object is refused because of the first of its entries that is no pair,
/// whose key is no string, or whose value no pattern can stand for.
pub proof fn lemma_const_object_refused(value: ConstValue, span: Span, k: int)
    requires
        value is Instance,
        value->Instance_0.variant_hash == Hash64(EMPTY),
        value->Instance_0.hash == Hash64(OBJECT_HASH),
        0 <= k < value->Instance_0.fields@.len(),
        forall|j: int|
            0 <= j < k ==> is_const_entry(#[trigger] value->Instance_0.fields@[j], span),
        !is_const_entry(value->Instance_0.fields@[k], span),
    ensures
        ({
            let entry = value->Instance_0.fields@[k];
            &&& rules::pat_const_value(value, span) matches Err(e)
            &&& if !is_const_pair(entry) {
                e.span == span && e.kind == ErrorKind::Const(ConstError::ExpectedPair)
            } else if !(entry->Instance_0.fields@[0] is String) {
                e.span == span && e.kind == ErrorKind::Const(ConstError::ExpectedString)
            } else {
                rules::pat_const_value(const_field(entry), span) == Err::<hir::Pat, _>(e)
            }
        }),
{
    lemma_const_bindings_refused(value->Instance_0.fields@, span, 0, Seq::empty(), k);
}

/// The first constant that no pattern can stand for is why constants are refused.
proof fn lemma_const_pats_refused(
    values: Seq<ConstValue>,
    span: Span,
    i: int,
    items: Seq<hir::Pat>,
    k: int,
)
    requires
        0 <= i <= k < values.len(),
        forall|j: int| i <= j < k ==> rules::pat_const_value(#[trigger] values[j], span) is Ok,
        rules::pat_const_value(values[k], span) is Err,
    ensures
        rules::const_pats(values, span, i, items) == Err::<Seq<hir::Pat>, _>(
            rules::pat_const_value(values[k], span)->Err_0,
        ),
    decreases k - i,
{
    if i < k {
        let item = rules::pat_const_value(values[i], span)->Ok_0;
        lemma_const_pats_refused(values, span, i + 1, items.push(item), k);
    }
}

/// A constant vector or tuple is refused because of the first of its values that no
/// pattern can stand for.
pub proof fn lemma_const_sequence_refused(value: ConstValue, span: Span, k: int)
    requires
        value is Instance,
        value->Instance_0.variant_hash == Hash64(EMPTY),
        value->Instance_0.hash == Hash64(VEC_HASH) || value->Instance_0.hash == Hash64(
            OWNED_TUPLE_HASH,
        ),
        0 <= k < value->Instance_0.fields@.len(),
        forall|j: int|
            0 <= j < k ==> rules::pat_const_value(
                #[trigger] value->Instance_0.fields@[j],
                span,
            ) is Ok,
        rules::pat_const_value(value->Instance_0.fields@[k], span) is Err,
    ensures
        rules::pat_const_value(value, span) == Err::<hir::Pat, _>(
            rules::pat_const_value(value->Instance_0.fields@[k], span)->Err_0,
        ),
{
    lemma_const_pats_refused(value->Instance_0.fields@, span, 0, Seq::empty(), k);
}

} // verus!
