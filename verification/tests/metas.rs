use rune::compile::meta::{
    EmptyMeta, ItemMeta, Meta, MetaKind, ModMeta, TupleMeta, TypeCheck, Visibility,
};
use rune::hash::Hash64;
use rune::item::ItemBuf;
use std::sync::Arc;

fn meta(kind: MetaKind) -> Meta {
    let item = ItemMeta::from(ItemBuf::with_item(vec!["a", "b"]));
    Meta { item: Arc::new(item), kind, source: None }
}

fn module(visibility: Visibility, parent: Option<Arc<ModMeta>>) -> Arc<ModMeta> {
    Arc::new(ModMeta { visibility, parent, ..ModMeta::default() })
}

#[test]
fn items_are_public_with_all_their_modules() {
    let outer = module(Visibility::Public, None);
    let inner = module(Visibility::Public, Some(outer.clone()));
    let hidden = module(Visibility::Public, Some(module(Visibility::Crate, Some(outer))));
    assert!(inner.is_public());
    assert!(!hidden.is_public());

    let mut item = ItemMeta::from(ItemBuf::new());
    assert!(!item.is_public());
    item.module = inner.clone();
    assert!(!item.is_public());
    item.visibility = Visibility::Public;
    assert!(item.is_public());
    item.module = hidden;
    assert!(!item.is_public());
}

#[test]
fn tuples_have_arguments() {
    let hash = Hash64(5);
    let tuple = TupleMeta { args: 2, hash };
    let kind = MetaKind::TupleStruct { type_hash: hash, tuple };
    assert_eq!(meta(kind).as_tuple(), Some((2, TypeCheck::Type(hash))));
    let kind = MetaKind::UnitStruct { type_hash: hash, empty: EmptyMeta { hash } };
    assert_eq!(meta(kind).as_tuple(), Some((0, TypeCheck::Type(hash))));
    let kind = MetaKind::TupleVariant { type_hash: hash, enum_item: ItemBuf::new(), tuple };
    assert_eq!(meta(kind).as_tuple(), Some((2, TypeCheck::Variant(hash))));
    let kind = MetaKind::Enum { type_hash: hash };
    assert_eq!(meta(kind).as_tuple(), None);
}

#[test]
fn types_have_hashes() {
    let hash = Hash64(5);
    let kind = MetaKind::Enum { type_hash: hash };
    assert_eq!(meta(kind).type_hash_of(), Some(hash));
    let empty = EmptyMeta { hash };
    let kind = MetaKind::UnitVariant { type_hash: hash, enum_item: ItemBuf::new(), empty };
    assert_eq!(meta(kind).type_hash_of(), None);
}

#[test]
fn metas_are_shown() {
    let hash = Hash64(5);
    let kind = MetaKind::Function { type_hash: hash, is_test: false, is_bench: false };
    assert_eq!(meta(kind).display(), "fn a::b");
    let empty = EmptyMeta { hash };
    let kind = MetaKind::UnitVariant { type_hash: hash, enum_item: ItemBuf::new(), empty };
    assert_eq!(meta(kind).display(), "unit variant a::b");
}
