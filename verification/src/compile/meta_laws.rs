//! Laws of what is known and shown of items, and of where they are.

use vstd::prelude::*;
use crate::ast::{Path, PathSegment};
use crate::compile::error::ErrorKind;
use crate::compile::meta::{Meta, MetaKind, TypeCheck};
use crate::hash::{Hash64, EMPTY};
use crate::item::{shown_components, shown_item, ComponentView};
use crate::query;
use crate::query::{entry, generics_index, Database, Kind, MetaInfoKind};
use crate::span::Span;
use crate::text::decimal;
use crate::text_laws::{are_digits, joined, lemma_decimal, lemma_joined, number_of};

verus! {

/// Test if a span covers another one.
pub open spec fn covers(outer: Span, inner: Span) -> bool {
    outer.start <= inner.start && inner.end <= outer.end
}

/// Two spans are joined to one that covers both, and every other one that covers
/// both covers it. In which order they are joined does not matter.
pub proof fn lemma_span_joined(a: Span, b: Span, c: Span)
    ensures
        covers(a.joined(b), a),
        covers(a.joined(b), b),
        covers(c, a) && covers(c, b) ==> covers(c, a.joined(b)),
        a.joined(b) == b.joined(a),
        a.joined(b).joined(c) == a.joined(b.joined(c)),
        covers(a, b) ==> a.joined(b) == a,
{
}

/// What comes in front of each component but the first when a name is shown, and
/// the component.
pub open spec fn shown_part(item: Seq<ComponentView>) -> spec_fn(int) -> Seq<char> {
    |i: int|
        if i == 0 {
            item[i].shown()
        } else {
            seq![':', ':'] + item[i].shown()
        }
}

/// The components of a name are shown in their order, with two colons between
/// them.
proof fn lemma_components_shown(item: Seq<ComponentView>, n: nat)
    requires
        n <= item.len(),
    ensures
        shown_components(item, n) == joined(n, shown_part(item)),
    decreases n,
{
    reveal_strlit("::");
    let part = shown_part(item);
    assert("::"@ =~= seq![':', ':']);
    if n == 0 {
        lemma_joined(0, part);
    } else {
        let m = (n - 1) as nat;
        lemma_components_shown(item, m);
        lemma_joined(m, part);
        assert(shown_components(item, n) =~= joined(m, part) + part(m as int));
    }
}

/// A name is shown as its components in their order, with two colons between them.
/// The name of the root is shown in a way of its own.
pub proof fn lemma_item_shown(item: Seq<ComponentView>)
    ensures
        item.len() > 0 ==> shown_item(item) == joined(item.len(), shown_part(item)),
        item.len() == 0 ==> shown_item(item) == "{root}"@,
{
    lemma_components_shown(item, item.len());
}

/// A name is shown as it is, that of a crate behind two colons, and a number behind
/// a dollar sign.
pub proof fn lemma_component_shown(name: Seq<char>, id: u64)
    ensures
        ComponentView::Str(name).shown() == name,
        ComponentView::Crate(name).shown() == seq![':', ':'] + name,
        ({
            let text = ComponentView::Id(id).shown();
            &&& text.len() > 1
            &&& text[0] == '$'
            &&& are_digits(text.skip(1))
            &&& number_of(text.skip(1)) == id
        }),
{
    reveal_strlit("::");
    reveal_strlit("$");
    assert("::"@ =~= seq![':', ':']);
    lemma_decimal(id as nat);
    let text = ComponentView::Id(id).shown();
    assert(text.skip(1) =~= decimal(id as nat));
}

/// The name of an item inside of another one is shown as that one, two colons, and
/// its own name.
pub proof fn lemma_inner_shown(item: Seq<ComponentView>, last: ComponentView)
    requires
        item.len() > 0,
    ensures
        shown_item(item.push(last)) == shown_item(item) + seq![':', ':'] + last.shown(),
{
    let inner = item.push(last);
    lemma_item_shown(item);
    lemma_item_shown(inner);
    lemma_joined(item.len(), shown_part(inner));
    assert(Seq::new(item.len(), shown_part(inner)) =~= Seq::new(item.len(), shown_part(item))) by {
        assert forall|i: int| 0 <= i < item.len() implies shown_part(inner)(i) == #[trigger]
            shown_part(item)(i) by {
            assert(inner[i] == item[i]);
        }
    }
    assert(shown_item(inner) =~= shown_item(item) + seq![':', ':'] + last.shown());
}

/// Only what is of a type or can be called has the hash of a type: structs, enums,
/// functions, closures and asynchronous blocks. It is the one of the item.
pub proof fn lemma_meta_type(meta: Meta, hash: Hash64)
    ensures
        meta.type_hash() == Some(hash) <==> match meta.kind {
            MetaKind::UnitStruct { type_hash, .. } => type_hash == hash,
            MetaKind::TupleStruct { type_hash, .. } => type_hash == hash,
            MetaKind::Struct { type_hash, .. } => type_hash == hash,
            MetaKind::Enum { type_hash } => type_hash == hash,
            MetaKind::Function { type_hash, .. } => type_hash == hash,
            MetaKind::Closure { type_hash, .. } => type_hash == hash,
            MetaKind::AsyncBlock { type_hash, .. } => type_hash == hash,
            _ => false,
        },
{
}

/// Structs and variants are tuples exactly if they have no named fields. A struct
/// is checked by its type, a variant as one.
pub proof fn lemma_meta_tuple(meta: Meta, args: usize, hash: Hash64)
    ensures
        meta.tuple() is Some <==> (meta.kind is UnitStruct || meta.kind is TupleStruct
            || meta.kind is UnitVariant || meta.kind is TupleVariant),
        meta.tuple() == Some((args, TypeCheck::Type(hash))) <==> match meta.kind {
            MetaKind::UnitStruct { type_hash, .. } => args == 0 && type_hash == hash,
            MetaKind::TupleStruct { type_hash, tuple } => args == tuple.args && type_hash == hash,
            _ => false,
        },
        meta.tuple() == Some((args, TypeCheck::Variant(hash))) <==> match meta.kind {
            MetaKind::UnitVariant { type_hash, .. } => args == 0 && type_hash == hash,
            MetaKind::TupleVariant { type_hash, tuple, .. } => args == tuple.args && type_hash
                == hash,
            _ => false,
        },
{
}

/// What comes in front of a name tells of which kind the item is. All structs are
/// shown alike, and all variants with fields are.
pub proof fn lemma_meta_prefix(meta: Meta)
    ensures
        meta.prefix() == "struct "@ <==> (meta.kind is UnitStruct || meta.kind is TupleStruct
            || meta.kind is Struct),
        meta.prefix() == "variant "@ <==> (meta.kind is TupleVariant
            || meta.kind is StructVariant),
        meta.prefix() == "unit variant "@ <==> meta.kind is UnitVariant,
        meta.prefix() == "enum "@ <==> meta.kind is Enum,
        meta.prefix() == "fn "@ <==> meta.kind is Function,
        meta.prefix() == "closure "@ <==> meta.kind is Closure,
        meta.prefix() == "async block "@ <==> meta.kind is AsyncBlock,
        meta.prefix() == "const "@ <==> meta.kind is Const,
        meta.prefix() == "const fn "@ <==> meta.kind is ConstFn,
        meta.prefix() == "import "@ <==> meta.kind is Import,
{
    reveal_strlit("struct ");
    reveal_strlit("variant ");
    reveal_strlit("unit variant ");
    reveal_strlit("enum ");
    reveal_strlit("fn ");
    reveal_strlit("closure ");
    reveal_strlit("async block ");
    reveal_strlit("const ");
    reveal_strlit("const fn ");
    reveal_strlit("import ");
    assert("struct "@[0] == 's' && "import "@[0] == 'i');
    assert("variant "@[0] == 'v' && "closure "@[0] == 'c' && "const fn "@[0] == 'c');
    assert("variant "@.len() == 8 && "closure "@.len() == 8 && "const fn "@.len() == 9);
    assert("struct "@.len() == 7 && "import "@.len() == 7 && "const "@.len() == 6);
    assert("enum "@.len() == 5 && "fn "@.len() == 3 && "async block "@.len() == 12);
    assert("unit variant "@.len() == 13);
}

/// A description tells the kind, the hash and the name of an item. A struct that
/// belongs to an enum is one of its variants, and only there the kinds differ.
pub proof fn lemma_described(meta: query::Meta)
    ensures
        meta.described().hash == meta.hash,
        meta.described().item == meta.item_meta.item,
        meta.described().kind == MetaInfoKind::Type <==> meta.kind is Type,
        meta.described().kind == MetaInfoKind::Struct <==> (meta.kind matches Kind::Struct {
            enum_hash,
            ..
        } && enum_hash.0 == EMPTY),
        meta.described().kind == MetaInfoKind::Variant <==> (meta.kind matches Kind::Struct {
            enum_hash,
            ..
        } && enum_hash.0 != EMPTY),
        meta.described().kind == MetaInfoKind::Enum <==> meta.kind is Enum,
        meta.described().kind == MetaInfoKind::Trait <==> meta.kind is Trait,
        meta.described().kind == MetaInfoKind::Macro <==> meta.kind is Macro,
        meta.described().kind == MetaInfoKind::AttributeMacro <==> meta.kind is AttributeMacro,
        meta.described().kind == MetaInfoKind::Function <==> meta.kind is Function,
        meta.described().kind == MetaInfoKind::Closure <==> meta.kind is Closure,
        meta.described().kind == MetaInfoKind::AsyncBlock <==> meta.kind is AsyncBlock,
        meta.described().kind == MetaInfoKind::Const <==> meta.kind is Const,
        meta.described().kind == MetaInfoKind::ConstFn <==> meta.kind is ConstFn,
        meta.described().kind == MetaInfoKind::Import <==> meta.kind is Import,
        meta.described().kind == MetaInfoKind::Alias <==> meta.kind is Alias,
        meta.described().kind == MetaInfoKind::Module <==> meta.kind is Module,
{
    reveal(query::Meta::described);
}

/// If an item has the hash of a type, it is the hash of the item. It has one
/// exactly if values can be of it or it can be called, and it is no variant.
pub proof fn lemma_query_type(meta: query::Meta)
    ensures
        meta.type_hash() matches Some(hash) ==> hash == meta.hash,
        meta.type_hash() is Some <==> match meta.described().kind {
            MetaInfoKind::Type => true,
            MetaInfoKind::Struct => true,
            MetaInfoKind::Enum => true,
            MetaInfoKind::Function => true,
            MetaInfoKind::Closure => true,
            MetaInfoKind::AsyncBlock => true,
            _ => false,
        },
{
    lemma_described(meta);
    reveal(query::Meta::type_hash);
}

/// Generic arguments are found at the first segment that has any, or else behind
/// the last one.
pub proof fn lemma_generics_index(segments: Seq<PathSegment>, i: int)
    requires
        0 <= i <= segments.len(),
    ensures
        ({
            let at = generics_index(segments, i);
            &&& i <= at <= segments.len()
            &&& at < segments.len() ==> segments[at] is Generics
            &&& forall|j: int| i <= j < at ==> !(#[trigger] segments[j] is Generics)
        }),
    decreases segments.len() - i,
{
    reveal(generics_index);
    if i < segments.len() && !(segments[i] is Generics) {
        lemma_generics_index(segments, i + 1);
    }
}

/// A node whose id has no item, and a path whose id has no name, are errors at their
/// place. Otherwise what belongs to the id is found, and an error that does is
/// given at the place of the path.
pub proof fn lemma_named(db: Database, what: &'static str, id: query::Id, span: Span, path: Path)
    ensures
        db.item_of(what, id, span) matches Ok(item) ==> entry(db.items@, id.0, 0) == Some(item),
        db.item_of(what, id, span) matches Err(e) ==> entry(db.items@, id.0, 0) is None && e.span
            == span && e.kind == (ErrorKind::MissingId { what, id }),
        db.name_of(path) matches Ok(named) ==> entry(db.paths@, path.id.0, 0) == Some(
            Ok::<query::Named, query::QueryError>(named),
        ),
        db.name_of(path) matches Err(e) ==> e.span == path.span && match e.kind {
            ErrorKind::Query(refused) => entry(db.paths@, path.id.0, 0) == Some(
                Err::<query::Named, query::QueryError>(refused),
            ),
            ErrorKind::MissingId { what, id } => entry(db.paths@, path.id.0, 0) is None && what
                == "path" && id == path.id,
            _ => false,
        },
{
    reveal(Database::item_of);
    reveal(Database::name_of);
}

} // verus!
