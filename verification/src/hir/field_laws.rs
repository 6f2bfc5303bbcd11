//! Laws of the fields of objects, and of the patterns of structs.

use vstd::prelude::*;
use crate::compile::error::ErrorKind;
use crate::hash::{Hash64, EMPTY};
use crate::hir;
use crate::hir::ctxt::State;
use crate::hir::rules;
use crate::query::{FieldMeta, Fields, ItemId, Kind, Meta};
use crate::span::Span;

verus! {

/// Test if something is assigned to a name.
pub open spec fn assigns_to(assigns: Seq<hir::FieldAssign>, name: Seq<char>) -> bool {
    exists|i: int| 0 <= i < assigns.len() && (#[trigger] assigns[i]).key.1@ == name
}

/// Test if a name is that of a field.
pub open spec fn is_field(fields: Seq<FieldMeta>, name: Seq<char>) -> bool {
    exists|i: int| 0 <= i < fields.len() && (#[trigger] fields[i]).name@ == name
}

/// Test if an assignment is to a field, and no other one before it is to the same.
pub open spec fn is_proper(
    fields: Seq<FieldMeta>,
    assigns: Seq<hir::FieldAssign>,
    i: int,
) -> bool {
    &&& is_field(fields, assigns[i].key.1@)
    &&& forall|j: int| 0 <= j < i ==> (#[trigger] assigns[j]).key.1@ != assigns[i].key.1@
}

/// The first assignment to a name.
proof fn lemma_assignment_index(assigns: Seq<hir::FieldAssign>, key: Seq<char>, i: int)
    requires
        0 <= i <= assigns.len(),
    ensures
        ({
            let at = rules::assignment_index(assigns, key, i);
            &&& i <= at <= assigns.len()
            &&& at < assigns.len() ==> assigns[at].key.1@ == key
            &&& forall|j: int| i <= j < at ==> (#[trigger] assigns[j]).key.1@ != key
        }),
    decreases assigns.len() - i,
{
    if i < assigns.len() && assigns[i].key.1@ != key {
        lemma_assignment_index(assigns, key, i + 1);
    }
}

/// A name has a position exactly if it is that of a field.
proof fn lemma_position_of(fields: Seq<FieldMeta>, name: Seq<char>, n: nat)
    requires
        n <= fields.len(),
    ensures
        rules::position_of(fields, name, n) is Some <==> is_field(fields.take(n as int), name),
    decreases n,
{
    let front = fields.take(n as int);
    if n > 0 {
        let m = (n - 1) as nat;
        lemma_position_of(fields, name, m);
        let less = fields.take(m as int);
        assert(front[m as int] == fields[m as int]);
        if is_field(less, name) {
            let i = choose|i: int| 0 <= i < less.len() && (#[trigger] less[i]).name@ == name;
            assert(front[i] == less[i]);
        }
        if is_field(front, name) && fields[m as int].name@ != name {
            let i = choose|i: int| 0 <= i < front.len() && (#[trigger] front[i]).name@ == name;
            assert(less[i] == front[i]);
        }
    }
}

/// The first assignment that is not to a field, or to one that is assigned to before.
proof fn lemma_unknown_field(fields: Seq<FieldMeta>, assigns: Seq<hir::FieldAssign>, i: int)
    requires
        0 <= i <= assigns.len(),
    ensures
        ({
            let at = rules::unknown_field(fields, assigns, i);
            &&& i <= at <= assigns.len()
            &&& at < assigns.len() ==> !is_proper(fields, assigns, at)
            &&& forall|j: int| i <= j < at ==> #[trigger] is_proper(fields, assigns, j)
        }),
    decreases assigns.len() - i,
{
    if i < assigns.len() {
        let name = assigns[i].key.1@;
        lemma_position_of(fields, name, fields.len());
        assert(fields.take(fields.len() as int) =~= fields);
        lemma_assignment_index(assigns, name, 0);
        let at = rules::assignment_index(assigns, name, 0);
        if at < i {
            assert(assigns[at].key.1@ == name);
        }
        lemma_unknown_field(fields, assigns, i + 1);
    }
}

/// The first field that nothing is assigned to.
proof fn lemma_unassigned(fields: Seq<FieldMeta>, assigns: Seq<hir::FieldAssign>, i: int)
    requires
        0 <= i <= fields.len(),
    ensures
        ({
            let at = rules::unassigned(fields, assigns, i);
            &&& i <= at <= fields.len()
            &&& at < fields.len() ==> !assigns_to(assigns, fields[at].name@)
            &&& forall|j: int|
                i <= j < at ==> assigns_to(assigns, (#[trigger] fields[j]).name@)
        }),
    decreases fields.len() - i,
{
    if i < fields.len() {
        lemma_assignment_index(assigns, fields[i].name@, 0);
        let at = rules::assignment_index(assigns, fields[i].name@, 0);
        if at < assigns.len() {
            assert(assigns[at].key.1@ == fields[i].name@);
        }
        lemma_unassigned(fields, assigns, i + 1);
    }
}

/// An object of a type is accepted exactly if each of its keys is a field, none is
/// there twice, and no field is left out. The assignments stay in order. Otherwise
/// the error tells the first key that is wrong, or else the first field that is
/// left out.
pub proof fn lemma_object_fields(
    fields: Seq<FieldMeta>,
    assigns: Seq<hir::FieldAssign>,
    item: ItemId,
    span: Span,
)
    ensures
        ({
            let r = rules::check_object_fields(fields, assigns, item, span);
            &&& r is Ok <==> {
                &&& forall|i: int| 0 <= i < assigns.len() ==> #[trigger] is_proper(fields, assigns, i)
                &&& forall|i: int|
                    0 <= i < fields.len() ==> assigns_to(assigns, (#[trigger] fields[i]).name@)
            }
            &&& r matches Ok(checked) ==> checked.len() == assigns.len() && forall|i: int|
                0 <= i < assigns.len() ==> (#[trigger] checked[i]).key == assigns[i].key
                    && checked[i].assign == assigns[i].assign
            &&& r matches Err(e) ==> match e.kind {
                ErrorKind::LitObjectNotField { field, item: of } => of == item && exists|i: int|
                    0 <= i < assigns.len() && !(#[trigger] is_proper(fields, assigns, i))
                        && assigns[i].key == (e.span, field),
                ErrorKind::LitObjectMissingField { field, item: of } => of == item && e.span
                    == span && !assigns_to(assigns, field@) && is_field(fields, field@),
                _ => false,
            }
        }),
{
    reveal(rules::check_object_fields);
    lemma_unknown_field(fields, assigns, 0);
    lemma_unassigned(fields, assigns, 0);
    let unknown = rules::unknown_field(fields, assigns, 0);
    let missing = rules::unassigned(fields, assigns, 0);
    if unknown < assigns.len() {
        assert(!is_proper(fields, assigns, unknown));
    } else if missing < fields.len() {
        assert(fields[missing].name@ == fields[missing].name@);
        assert(is_field(fields, fields[missing].name@));
    }
}

/// The names of fields are those of all of them, each once.
proof fn lemma_field_names_from(fields: Seq<FieldMeta>, n: nat)
    requires
        n <= fields.len(),
    ensures
        ({
            let names = rules::field_names(fields, n);
            &&& forall|i: int, j: int|
                0 <= i < j < names.len() ==> #[trigger] names[i]@ != #[trigger] names[j]@
            &&& forall|name: Seq<char>| #[trigger]
                rules::has_name(names, name) <==> is_field(fields.take(n as int), name)
        }),
    decreases n,
{
    reveal(rules::field_names);
    let all = rules::field_names(fields, n);
    let front = fields.take(n as int);
    if n > 0 {
        let m = (n - 1) as nat;
        lemma_field_names_from(fields, m);
        let names = rules::field_names(fields, m);
        let less = fields.take(m as int);
        let last = fields[m as int].name;
        assert(front[m as int] == fields[m as int]);
        assert forall|name: Seq<char>| is_field(front, name) <==> #[trigger] is_field(less, name)
            || last@ == name by {
            if is_field(less, name) {
                let i = choose|i: int| 0 <= i < less.len() && (#[trigger] less[i]).name@ == name;
                assert(front[i] == less[i]);
            }
            if is_field(front, name) && last@ != name {
                let i = choose|i: int| 0 <= i < front.len() && (#[trigger] front[i]).name@ == name;
                assert(less[i] == front[i]);
            }
        }
        assert forall|name: Seq<char>| #[trigger]
            rules::has_name(all, name) <==> is_field(front, name) by {
            assert(is_field(front, name) <==> is_field(less, name) || last@ == name);
            assert(rules::has_name(names, name) <==> is_field(less, name));
            if !rules::has_name(names, last@) {
                assert(all[names.len() as int] == last);
                if rules::has_name(names, name) {
                    let i = choose|i: int| 0 <= i < names.len() && #[trigger] names[i]@ == name;
                    assert(all[i] == names[i]);
                }
                if rules::has_name(all, name) && last@ != name {
                    let i = choose|i: int| 0 <= i < all.len() && #[trigger] all[i]@ == name;
                    assert(names[i] == all[i]);
                }
            }
        }
        assert forall|i: int, j: int| 0 <= i < j < all.len() implies #[trigger] all[i]@
            != #[trigger] all[j]@ by {
            if !rules::has_name(names, last@) {
                assert(all[i] == names[i]);
                if j < names.len() {
                    assert(all[j] == names[j]);
                }
            }
        }
    }
}

/// Only a struct with named fields is matched by the names of its fields, each once.
/// A pattern of nothing but `..` matches every struct, and types that nothing is
/// known of.
pub proof fn lemma_struct_match(meta: Meta, open: bool)
    ensures
        ({
            let r = rules::struct_match_for(meta, open);
            &&& r is Some <==> match meta.kind {
                Kind::Struct { fields, .. } => open || fields is Named,
                Kind::Type => open,
                _ => false,
            }
            &&& r matches Some((names, kind)) ==> match meta.kind {
                Kind::Struct { fields: Fields::Named(fields), enum_hash, .. } => {
                    &&& kind == rules::struct_kind(meta, enum_hash)
                    &&& forall|i: int, j: int|
                        0 <= i < j < names.len() ==> #[trigger] names[i]@ != #[trigger] names[j]@
                    &&& forall|name: Seq<char>| #[trigger]
                        rules::has_name(names, name) <==> is_field(fields@, name)
                },
                Kind::Struct { enum_hash, .. } => names.len() == 0 && kind == rules::struct_kind(
                    meta,
                    enum_hash,
                ),
                _ => names.len() == 0 && kind == rules::struct_kind(meta, Hash64(EMPTY)),
            }
        }),
{
    reveal(rules::struct_match_for);
    match meta.kind {
        Kind::Struct { fields: Fields::Named(fields), .. } => {
            lemma_field_names_from(fields@, fields@.len());
            assert(fields@.take(fields@.len() as int) =~= fields@);
        },
        _ => {},
    }
}

/// The names of functions that are called on a value are made known, with or without
/// generic arguments. Nothing else changes, and the value is the one that the
/// function is called on.
pub proof fn lemma_call_field(st: State, access: hir::ExprFieldAccess)
    ensures
        ({
            let (after, call) = rules::call_field(st, access);
            &&& call matches hir::Call::Associated { target, .. } && target == access.expr
            &&& after.idents == match access.expr_field {
                hir::ExprField::Index(_) => st.idents,
                hir::ExprField::Ident(ident) => st.idents + seq![ident],
                hir::ExprField::IdentGenerics(ident, _) => st.idents + seq![ident],
            }
            &&& after == (State { idents: after.idents, ..st })
        }),
{
    reveal(rules::call_field);
    match access.expr_field {
        hir::ExprField::Index(_) => {},
        hir::ExprField::Ident(ident) => {
            assert(st.idents.push(ident) =~= st.idents + seq![ident]);
        },
        hir::ExprField::IdentGenerics(ident, _) => {
            assert(st.idents.push(ident) =~= st.idents + seq![ident]);
        },
    }
}

} // verus!
