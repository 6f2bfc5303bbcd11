use rune::hash::{Hash64, ParametersBuilder, TooManyParameters};
use rune::item::{Component, ItemBuf};
use rune::modules::json::{BYTES_HASH, RESULT_HASH};
use rune::runtime::{
    BOOL_HASH, BYTE_HASH, CHAR_HASH, FLOAT_HASH, INTEGER_HASH, ITERATOR_HASH, OBJECT_HASH,
    OPTION_HASH, OWNED_TUPLE_HASH, STRING_HASH, TUPLE_HASH, VEC_HASH,
};

fn std_hash(names: Vec<&str>) -> u64 {
    Hash64::type_hash(&ItemBuf::with_crate_item("std", names)).0
}

#[test]
fn constants_are_the_hashes_of_their_items() {
    assert_eq!(std_hash(vec!["bool"]), BOOL_HASH);
    assert_eq!(std_hash(vec!["byte"]), BYTE_HASH);
    assert_eq!(std_hash(vec!["char"]), CHAR_HASH);
    assert_eq!(std_hash(vec!["int"]), INTEGER_HASH);
    assert_eq!(std_hash(vec!["float"]), FLOAT_HASH);
    assert_eq!(std_hash(vec!["string", "String"]), STRING_HASH);
    assert_eq!(std_hash(vec!["vec", "Vec"]), VEC_HASH);
    assert_eq!(std_hash(vec!["tuple", "Tuple"]), TUPLE_HASH);
    assert_eq!(std_hash(vec!["tuple", "Tuple"]), OWNED_TUPLE_HASH);
    assert_eq!(std_hash(vec!["object", "Object"]), OBJECT_HASH);
    assert_eq!(std_hash(vec!["option", "Option"]), OPTION_HASH);
    assert_eq!(std_hash(vec!["iter", "Iterator"]), ITERATOR_HASH);
    assert_eq!(std_hash(vec!["bytes", "Bytes"]), BYTES_HASH);
    assert_eq!(std_hash(vec!["result", "Result"]), RESULT_HASH);
}

#[test]
fn hash_is_a_polynomial() {
    assert_eq!(Hash64::type_hash(&ItemBuf::new()), Hash64(18));
    assert_eq!(Hash64::ident(""), Hash64(19));
    let expected: u128 = (20 * 0x0e37_79b9_7f4a_7c15u128 + 7 + 1) % 0x1fff_ffff_ffff_ffff;
    assert_eq!(Hash64::index(7), Hash64(expected as u64));
}

#[test]
fn names_of_modules_have_these_hashes() {
    let test = |name| std_hash(vec!["test", name]);
    assert_eq!(test("assert"), 0x153f_13cd_3066_d46f);
    assert_eq!(test("assert_eq"), 0x0384_8ca9_8fdd_3536);
    assert_eq!(test("assert_ne"), 0x0377_d42f_097b_91eb);
    assert_eq!(Hash64::ident("EQ"), Hash64(0x0d3c_0d42_82c2_072b));
    assert_eq!(Hash64::ident("DISPLAY_FMT"), Hash64(0x04a7_2fad_d3fb_986a));
}

#[test]
fn components_of_different_sorts_have_different_hashes() {
    let krate = Hash64::type_hash(&ItemBuf::with_crate("a"));
    let name = Hash64::type_hash(&ItemBuf::with_item(vec!["a"]));
    let id = Hash64::type_hash(&ItemBuf::with_item(vec![Component::Id(97)]));
    assert_ne!(krate, name);
    assert_ne!(krate, id);
    assert_ne!(name, id);
}

#[test]
fn parameters_are_limited() {
    let mut builder = ParametersBuilder::new();
    let empty = builder.finish();

    for n in 0..32 {
        builder = builder.add(Hash64(n)).unwrap();
    }

    assert_eq!(builder.add(Hash64(0)), Err(TooManyParameters));
    assert_ne!(builder.finish(), empty);
    assert_ne!(Hash64(1).with_function_parameters(Hash64(2)), Hash64(1));
}

#[test]
fn items_are_shown_by_their_components() {
    assert_eq!(ItemBuf::new().display(), "{root}");
    assert_eq!(ItemBuf::with_crate_item("std", vec!["vec", "Vec"]).display(), "::std::vec::Vec");
    let item = ItemBuf::with_item(vec!["a"]).join(vec![Component::Id(3)]);
    assert_eq!(item.display(), "a::$3");
    let joined = ItemBuf::with_item(vec!["a"]).join_item(&ItemBuf::with_item(vec!["b", "c"]));
    assert_eq!(joined, ItemBuf::with_item(vec!["a", "b", "c"]));
}
