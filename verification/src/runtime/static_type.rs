//! The hashes of the types that the language itself knows of.

use vstd::prelude::*;

verus! {

/// The hash of the item `::std::bool`.
pub const BOOL_HASH: u64 = 0x05ff_89d3_2efa_209f;

/// The hash of the item `::std::byte`.
pub const BYTE_HASH: u64 = 0x04e7_d8a0_32cb_a7a3;

/// The hash of the item `::std::char`.
pub const CHAR_HASH: u64 = 0x1d72_6b1f_ed3a_4c5a;

/// The hash of the item `::std::int`.
pub const INTEGER_HASH: u64 = 0x1c9e_3bd2_7eab_a29f;

/// The hash of the item `::std::float`.
pub const FLOAT_HASH: u64 = 0x101a_fd9d_3fad_8f69;

/// The hash of the item `::std::string::String`.
pub const STRING_HASH: u64 = 0x0be8_4c6f_5d5d_1e3e;

/// The hash of the item `::std::vec::Vec`.
pub const VEC_HASH: u64 = 0x1aa7_a753_7f38_85e7;

/// The hash of the item `::std::tuple::Tuple`.
pub const TUPLE_HASH: u64 = 0x19eb_eea9_e640_99f7;

/// The hash of an owned tuple, which is the same item as a tuple.
pub const OWNED_TUPLE_HASH: u64 = 0x19eb_eea9_e640_99f7;

/// The hash of the item `::std::object::Object`.
pub const OBJECT_HASH: u64 = 0x1ac0_5e87_8ce6_7466;

/// The hash of the item `::std::option::Option`.
pub const OPTION_HASH: u64 = 0x0a75_618f_adc1_7e18;

/// The hash of the item `::std::iter::Iterator`.
pub const ITERATOR_HASH: u64 = 0x021b_529c_688d_2583;

} // verus!
