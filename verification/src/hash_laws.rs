//! What the hashes of some names are.
//!
//! Two names can have the same hash, so that those of a module do not is a fact
//! about each of them.

use vstd::prelude::*;
use crate::hash::{
    ident_hash, mixed, mixed_components, mixed_text, type_hash, Hash64, IDENT,
    TYPE,
};
use crate::item::ComponentView;

verus! {

/// What comes of mixing, as a number.
proof fn lemma_mixed(h: u64, x: u64, r: u64)
    requires
        (h * 0x0e37_79b9_7f4a_7c15 + x + 1) % 0x1fff_ffff_ffff_ffff == r,
    ensures
        mixed(h, x) == r,
{
    reveal(mixed);
}

/// The hash of something in `::std::test`.
proof fn lemma_test(name: Seq<char>)
    ensures
        type_hash(seq![ComponentView::Crate("std"@), ComponentView::Str("test"@), ComponentView::Str(name)]) == Hash64(
            mixed_text(0x18f9_2d08_8e7d_b765, name, name.len()),
        ),
{
    let components = seq![ComponentView::Crate("std"@), ComponentView::Str("test"@), ComponentView::Str(name)];
    reveal_strlit("std");
    reveal_strlit("test");
    reveal_with_fuel(mixed_components, 4);
    reveal_with_fuel(mixed_text, 5);
    lemma_mixed(0x0000_0000_0000_0000, TYPE, 0x0000_0000_0000_0012);
    lemma_mixed(0x0000_0000_0000_0012, 1, 0x1fe6_8f0a_f33c_b983);
    lemma_mixed(0x1fe6_8f0a_f33c_b983, 's' as u64, 0x00ea_a02b_58a2_f558);
    lemma_mixed(0x00ea_a02b_58a2_f558, 't' as u64, 0x005e_bab9_86a3_93a6);
    lemma_mixed(0x005e_bab9_86a3_93a6, 'd' as u64, 0x1776_7ed7_bfe0_55fd);
    lemma_mixed(0x1776_7ed7_bfe0_55fd, 2, 0x1040_e762_3df5_8a34);
    lemma_mixed(0x1040_e762_3df5_8a34, 't' as u64, 0x09b1_4fcc_11e0_06df);
    lemma_mixed(0x09b1_4fcc_11e0_06df, 'e' as u64, 0x1a69_7140_ac1a_8c6c);
    lemma_mixed(0x1a69_7140_ac1a_8c6c, 's' as u64, 0x1a12_fa4b_e6c0_7cc0);
    lemma_mixed(0x1a12_fa4b_e6c0_7cc0, 't' as u64, 0x0b1b_e594_c8fe_1750);
    lemma_mixed(0x0b1b_e594_c8fe_1750, 2, 0x18f9_2d08_8e7d_b765);
}

/// The hash of `::std::test::assert`.
pub proof fn lemma_test_assert()
    ensures
        type_hash(seq![ComponentView::Crate("std"@), ComponentView::Str("test"@), ComponentView::Str("assert"@)]) == Hash64(0x153f_13cd_3066_d46f),
{
    lemma_test("assert"@);
    reveal_strlit("assert");
    reveal_with_fuel(mixed_text, 7);
    lemma_mixed(0x18f9_2d08_8e7d_b765, 'a' as u64, 0x1dbd_f8ff_ce8e_a005);
    lemma_mixed(0x1dbd_f8ff_ce8e_a005, 's' as u64, 0x1999_78d9_63ce_f2ca);
    lemma_mixed(0x1999_78d9_63ce_f2ca, 's' as u64, 0x098f_2e73_5953_30e9);
    lemma_mixed(0x098f_2e73_5953_30e9, 'e' as u64, 0x0d71_7632_78a3_010a);
    lemma_mixed(0x0d71_7632_78a3_010a, 'r' as u64, 0x0867_4d4b_4ca6_5a6f);
    lemma_mixed(0x0867_4d4b_4ca6_5a6f, 't' as u64, 0x153f_13cd_3066_d46f);
}

/// The hash of `::std::test::assert_eq`.
pub proof fn lemma_test_assert_eq()
    ensures
        type_hash(seq![ComponentView::Crate("std"@), ComponentView::Str("test"@), ComponentView::Str("assert_eq"@)]) == Hash64(0x0384_8ca9_8fdd_3536),
{
    lemma_test("assert_eq"@);
    reveal_strlit("assert_eq");
    reveal_with_fuel(mixed_text, 10);
    lemma_mixed(0x18f9_2d08_8e7d_b765, 'a' as u64, 0x1dbd_f8ff_ce8e_a005);
    lemma_mixed(0x1dbd_f8ff_ce8e_a005, 's' as u64, 0x1999_78d9_63ce_f2ca);
    lemma_mixed(0x1999_78d9_63ce_f2ca, 's' as u64, 0x098f_2e73_5953_30e9);
    lemma_mixed(0x098f_2e73_5953_30e9, 'e' as u64, 0x0d71_7632_78a3_010a);
    lemma_mixed(0x0d71_7632_78a3_010a, 'r' as u64, 0x0867_4d4b_4ca6_5a6f);
    lemma_mixed(0x0867_4d4b_4ca6_5a6f, 't' as u64, 0x153f_13cd_3066_d46f);
    lemma_mixed(0x153f_13cd_3066_d46f, '_' as u64, 0x0418_6d7f_ba51_8344);
    lemma_mixed(0x0418_6d7f_ba51_8344, 'e' as u64, 0x08c5_ef04_a287_1864);
    lemma_mixed(0x08c5_ef04_a287_1864, 'q' as u64, 0x0384_8ca9_8fdd_3536);
}

/// The hash of `::std::test::assert_ne`.
pub proof fn lemma_test_assert_ne()
    ensures
        type_hash(seq![ComponentView::Crate("std"@), ComponentView::Str("test"@), ComponentView::Str("assert_ne"@)]) == Hash64(0x0377_d42f_097b_91eb),
{
    lemma_test("assert_ne"@);
    reveal_strlit("assert_ne");
    reveal_with_fuel(mixed_text, 10);
    lemma_mixed(0x18f9_2d08_8e7d_b765, 'a' as u64, 0x1dbd_f8ff_ce8e_a005);
    lemma_mixed(0x1dbd_f8ff_ce8e_a005, 's' as u64, 0x1999_78d9_63ce_f2ca);
    lemma_mixed(0x1999_78d9_63ce_f2ca, 's' as u64, 0x098f_2e73_5953_30e9);
    lemma_mixed(0x098f_2e73_5953_30e9, 'e' as u64, 0x0d71_7632_78a3_010a);
    lemma_mixed(0x0d71_7632_78a3_010a, 'r' as u64, 0x0867_4d4b_4ca6_5a6f);
    lemma_mixed(0x0867_4d4b_4ca6_5a6f, 't' as u64, 0x153f_13cd_3066_d46f);
    lemma_mixed(0x153f_13cd_3066_d46f, '_' as u64, 0x0418_6d7f_ba51_8344);
    lemma_mixed(0x0418_6d7f_ba51_8344, 'n' as u64, 0x08c5_ef04_a287_186d);
    lemma_mixed(0x08c5_ef04_a287_186d, 'e' as u64, 0x0377_d42f_097b_91eb);
}

/// The hash of something in `::json`.
proof fn lemma_json(name: Seq<char>)
    ensures
        type_hash(seq![ComponentView::Crate("json"@), ComponentView::Str(name)]) == Hash64(
            mixed_text(0x0e3a_26f2_d517_2dae, name, name.len()),
        ),
{
    let components = seq![ComponentView::Crate("json"@), ComponentView::Str(name)];
    reveal_strlit("json");
    reveal_with_fuel(mixed_components, 3);
    reveal_with_fuel(mixed_text, 5);
    lemma_mixed(0x0000_0000_0000_0000, TYPE, 0x0000_0000_0000_0012);
    lemma_mixed(0x0000_0000_0000_0012, 1, 0x1fe6_8f0a_f33c_b983);
    lemma_mixed(0x1fe6_8f0a_f33c_b983, 'j' as u64, 0x00ea_a02b_58a2_f54f);
    lemma_mixed(0x00ea_a02b_58a2_f54f, 's' as u64, 0x006b_7334_0d05_36e4);
    lemma_mixed(0x006b_7334_0d05_36e4, 'o' as u64, 0x1701_2ec2_138e_db96);
    lemma_mixed(0x1701_2ec2_138e_db96, 'n' as u64, 0x1505_5904_c9b7_32cf);
    lemma_mixed(0x1505_5904_c9b7_32cf, 2, 0x0e3a_26f2_d517_2dae);
}

/// The hash of `::json::Error`.
pub proof fn lemma_json_error()
    ensures
        type_hash(seq![ComponentView::Crate("json"@), ComponentView::Str("Error"@)]) == Hash64(0x0ab0_7f86_4eef_8f73),
{
    lemma_json("Error"@);
    reveal_strlit("Error");
    reveal_with_fuel(mixed_text, 6);
    lemma_mixed(0x0e3a_26f2_d517_2dae, 'E' as u64, 0x1c96_4558_c5fa_b536);
    lemma_mixed(0x1c96_4558_c5fa_b536, 'r' as u64, 0x18ec_11ed_ccd4_7f76);
    lemma_mixed(0x18ec_11ed_ccd4_7f76, 'r' as u64, 0x02a2_a70b_1352_6120);
    lemma_mixed(0x02a2_a70b_1352_6120, 'o' as u64, 0x0d86_900d_b1fd_fa8a);
    lemma_mixed(0x0d86_900d_b1fd_fa8a, 'r' as u64, 0x0ab0_7f86_4eef_8f73);
}

/// The hash of `::json::from_bytes`.
pub proof fn lemma_json_from_bytes()
    ensures
        type_hash(seq![ComponentView::Crate("json"@), ComponentView::Str("from_bytes"@)]) == Hash64(0x13b4_3420_3cad_7ae8),
{
    lemma_json("from_bytes"@);
    reveal_strlit("from_bytes");
    reveal_with_fuel(mixed_text, 11);
    lemma_mixed(0x0e3a_26f2_d517_2dae, 'f' as u64, 0x1c96_4558_c5fa_b557);
    lemma_mixed(0x1c96_4558_c5fa_b557, 'r' as u64, 0x0e12_c2d7_356e_7e3a);
    lemma_mixed(0x0e12_c2d7_356e_7e3a, 'o' as u64, 0x1ada_b907_b86c_05c5);
    lemma_mixed(0x1ada_b907_b86c_05c5, 'm' as u64, 0x1a55_5871_f683_9805);
    lemma_mixed(0x1a55_5871_f683_9805, '_' as u64, 0x0ccd_355f_9f2f_6af0);
    lemma_mixed(0x0ccd_355f_9f2f_6af0, 'b' as u64, 0x025b_ebe4_b928_b91a);
    lemma_mixed(0x025b_ebe4_b928_b91a, 'y' as u64, 0x1f53_3901_146a_c2f0);
    lemma_mixed(0x1f53_3901_146a_c2f0, 't' as u64, 0x0ba6_171e_84a0_e286);
    lemma_mixed(0x0ba6_171e_84a0_e286, 'e' as u64, 0x01bc_b95b_6819_2bf5);
    lemma_mixed(0x01bc_b95b_6819_2bf5, 's' as u64, 0x13b4_3420_3cad_7ae8);
}

/// The hash of `::json::from_string`.
pub proof fn lemma_json_from_string()
    ensures
        type_hash(seq![ComponentView::Crate("json"@), ComponentView::Str("from_string"@)]) == Hash64(0x0aaf_0b7b_be04_c5fc),
{
    lemma_json("from_string"@);
    reveal_strlit("from_string");
    reveal_with_fuel(mixed_text, 12);
    lemma_mixed(0x0e3a_26f2_d517_2dae, 'f' as u64, 0x1c96_4558_c5fa_b557);
    lemma_mixed(0x1c96_4558_c5fa_b557, 'r' as u64, 0x0e12_c2d7_356e_7e3a);
    lemma_mixed(0x0e12_c2d7_356e_7e3a, 'o' as u64, 0x1ada_b907_b86c_05c5);
    lemma_mixed(0x1ada_b907_b86c_05c5, 'm' as u64, 0x1a55_5871_f683_9805);
    lemma_mixed(0x1a55_5871_f683_9805, '_' as u64, 0x0ccd_355f_9f2f_6af0);
    lemma_mixed(0x0ccd_355f_9f2f_6af0, 's' as u64, 0x025b_ebe4_b928_b92b);
    lemma_mixed(0x025b_ebe4_b928_b92b, 't' as u64, 0x1102_4e52_885d_0058);
    lemma_mixed(0x1102_4e52_885d_0058, 'r' as u64, 0x0377_4b66_07e4_568f);
    lemma_mixed(0x0377_4b66_07e4_568f, 'i' as u64, 0x07e6_81af_9d5f_0cb9);
    lemma_mixed(0x07e6_81af_9d5f_0cb9, 'n' as u64, 0x0c84_8615_888a_b93f);
    lemma_mixed(0x0c84_8615_888a_b93f, 'g' as u64, 0x0aaf_0b7b_be04_c5fc);
}

/// The hash of `::json::to_string`.
pub proof fn lemma_json_to_string()
    ensures
        type_hash(seq![ComponentView::Crate("json"@), ComponentView::Str("to_string"@)]) == Hash64(0x10f0_ed3e_a93a_3cf9),
{
    lemma_json("to_string"@);
    reveal_strlit("to_string");
    reveal_with_fuel(mixed_text, 10);
    lemma_mixed(0x0e3a_26f2_d517_2dae, 't' as u64, 0x1c96_4558_c5fa_b565);
    lemma_mixed(0x1c96_4558_c5fa_b565, 'o' as u64, 0x151b_6afc_2b81_4763);
    lemma_mixed(0x151b_6afc_2b81_4763, '_' as u64, 0x1e5b_994e_2b42_1d21);
    lemma_mixed(0x1e5b_994e_2b42_1d21, 's' as u64, 0x13f3_17c2_6459_b7fd);
    lemma_mixed(0x13f3_17c2_6459_b7fd, 't' as u64, 0x0371_1ab1_1b33_fbfe);
    lemma_mixed(0x0371_1ab1_1b33_fbfe, 'r' as u64, 0x08ab_3c77_3f8d_1778);
    lemma_mixed(0x08ab_3c77_3f8d_1778, 'i' as u64, 0x0604_b573_b478_414e);
    lemma_mixed(0x0604_b573_b478_414e, 'n' as u64, 0x1074_4ecd_cf25_28c6);
    lemma_mixed(0x1074_4ecd_cf25_28c6, 'g' as u64, 0x10f0_ed3e_a93a_3cf9);
}

/// The hash of `::json::to_bytes`.
pub proof fn lemma_json_to_bytes()
    ensures
        type_hash(seq![ComponentView::Crate("json"@), ComponentView::Str("to_bytes"@)]) == Hash64(0x17a3_fcd8_8347_ea6f),
{
    lemma_json("to_bytes"@);
    reveal_strlit("to_bytes");
    reveal_with_fuel(mixed_text, 9);
    lemma_mixed(0x0e3a_26f2_d517_2dae, 't' as u64, 0x1c96_4558_c5fa_b565);
    lemma_mixed(0x1c96_4558_c5fa_b565, 'o' as u64, 0x151b_6afc_2b81_4763);
    lemma_mixed(0x151b_6afc_2b81_4763, '_' as u64, 0x1e5b_994e_2b42_1d21);
    lemma_mixed(0x1e5b_994e_2b42_1d21, 'b' as u64, 0x13f3_17c2_6459_b7ec);
    lemma_mixed(0x13f3_17c2_6459_b7ec, 'y' as u64, 0x11c2_055f_a741_be96);
    lemma_mixed(0x11c2_055f_a741_be96, 't' as u64, 0x10da_082f_bc49_a36f);
    lemma_mixed(0x10da_082f_bc49_a36f, 'e' as u64, 0x1fda_ed1f_7f32_6089);
    lemma_mixed(0x1fda_ed1f_7f32_6089, 's' as u64, 0x17a3_fcd8_8347_ea6f);
}

/// The hash of `DISPLAY_FMT`.
pub proof fn lemma_display_fmt()
    ensures
        ident_hash("DISPLAY_FMT"@) == Hash64(0x04a7_2fad_d3fb_986a),
{
    lemma_mixed(0x0000_0000_0000_0000, IDENT, 0x0000_0000_0000_0013);
    reveal_strlit("DISPLAY_FMT");
    reveal_with_fuel(mixed_text, 12);
    lemma_mixed(0x0000_0000_0000_0013, 'D' as u64, 0x0e1e_08c4_7287_35dc);
    lemma_mixed(0x0e1e_08c4_7287_35dc, 'I' as u64, 0x1f04_9389_0377_8b0d);
    lemma_mixed(0x1f04_9389_0377_8b0d, 'S' as u64, 0x06d9_2e40_75a2_584d);
    lemma_mixed(0x06d9_2e40_75a2_584d, 'P' as u64, 0x0ad9_a735_9e4e_c21a);
    lemma_mixed(0x0ad9_a735_9e4e_c21a, 'L' as u64, 0x04f2_1c71_e323_8e4f);
    lemma_mixed(0x04f2_1c71_e323_8e4f, 'A' as u64, 0x005e_78b7_0cbc_5d57);
    lemma_mixed(0x005e_78b7_0cbc_5d57, 'Y' as u64, 0x0a8c_3d66_5915_ee79);
    lemma_mixed(0x0a8c_3d66_5915_ee79, '_' as u64, 0x0e45_68a7_a00e_fbc4);
    lemma_mixed(0x0e45_68a7_a00e_fbc4, 'F' as u64, 0x0885_2a84_c9ba_ccc1);
    lemma_mixed(0x0885_2a84_c9ba_ccc1, 'M' as u64, 0x0000_028b_0f4e_fafb);
    lemma_mixed(0x0000_028b_0f4e_fafb, 'T' as u64, 0x04a7_2fad_d3fb_986a);
}

/// The hash of `DEBUG_FMT`.
pub proof fn lemma_debug_fmt()
    ensures
        ident_hash("DEBUG_FMT"@) == Hash64(0x1cc1_af1e_c38f_e3a1),
{
    lemma_mixed(0x0000_0000_0000_0000, IDENT, 0x0000_0000_0000_0013);
    reveal_strlit("DEBUG_FMT");
    reveal_with_fuel(mixed_text, 10);
    lemma_mixed(0x0000_0000_0000_0013, 'D' as u64, 0x0e1e_08c4_7287_35dc);
    lemma_mixed(0x0e1e_08c4_7287_35dc, 'E' as u64, 0x1f04_9389_0377_8b09);
    lemma_mixed(0x1f04_9389_0377_8b09, 'B' as u64, 0x0dfb_475a_7878_67e6);
    lemma_mixed(0x0dfb_475a_7878_67e6, 'U' as u64, 0x02d6_329e_c104_13a6);
    lemma_mixed(0x02d6_329e_c104_13a6, 'G' as u64, 0x16e4_277d_ad29_2f5e);
    lemma_mixed(0x16e4_277d_ad29_2f5e, '_' as u64, 0x1c97_c302_bda8_5906);
    lemma_mixed(0x1c97_c302_bda8_5906, 'F' as u64, 0x1783_cc2c_c7d8_76d2);
    lemma_mixed(0x1783_cc2c_c7d8_76d2, 'M' as u64, 0x09f3_250c_f4f1_2c66);
    lemma_mixed(0x09f3_250c_f4f1_2c66, 'T' as u64, 0x1cc1_af1e_c38f_e3a1);
}

/// The hash of `INTO_ITER`.
pub proof fn lemma_into_iter()
    ensures
        ident_hash("INTO_ITER"@) == Hash64(0x1a33_4f01_8c49_e13d),
{
    lemma_mixed(0x0000_0000_0000_0000, IDENT, 0x0000_0000_0000_0013);
    reveal_strlit("INTO_ITER");
    reveal_with_fuel(mixed_text, 10);
    lemma_mixed(0x0000_0000_0000_0013, 'I' as u64, 0x0e1e_08c4_7287_35e1);
    lemma_mixed(0x0e1e_08c4_7287_35e1, 'N' as u64, 0x0619_f428_7feb_f77e);
    lemma_mixed(0x0619_f428_7feb_f77e, 'T' as u64, 0x09d8_05f6_b5c5_5209);
    lemma_mixed(0x09d8_05f6_b5c5_5209, 'O' as u64, 0x10c6_88dd_c0ac_7117);
    lemma_mixed(0x10c6_88dd_c0ac_7117, '_' as u64, 0x10ba_6b02_a409_c306);
    lemma_mixed(0x10ba_6b02_a409_c306, 'I' as u64, 0x1338_a56f_7a35_8a12);
    lemma_mixed(0x1338_a56f_7a35_8a12, 'T' as u64, 0x10fc_d82c_870a_04ea);
    lemma_mixed(0x10fc_d82c_870a_04ea, 'E' as u64, 0x05b2_8745_0231_5f65);
    lemma_mixed(0x05b2_8745_0231_5f65, 'R' as u64, 0x1a33_4f01_8c49_e13d);
}

/// The hash of `INDEX_SET`.
pub proof fn lemma_index_set()
    ensures
        ident_hash("INDEX_SET"@) == Hash64(0x15a8_3c15_1b4c_b556),
{
    lemma_mixed(0x0000_0000_0000_0000, IDENT, 0x0000_0000_0000_0013);
    reveal_strlit("INDEX_SET");
    reveal_with_fuel(mixed_text, 10);
    lemma_mixed(0x0000_0000_0000_0013, 'I' as u64, 0x0e1e_08c4_7287_35e1);
    lemma_mixed(0x0e1e_08c4_7287_35e1, 'N' as u64, 0x0619_f428_7feb_f77e);
    lemma_mixed(0x0619_f428_7feb_f77e, 'D' as u64, 0x09d8_05f6_b5c5_51f9);
    lemma_mixed(0x09d8_05f6_b5c5_51f9, 'E' as u64, 0x0d4e_ed45_cc04_afb6);
    lemma_mixed(0x0d4e_ed45_cc04_afb6, 'X' as u64, 0x093e_2cae_05bf_25f6);
    lemma_mixed(0x093e_2cae_05bf_25f6, '_' as u64, 0x1eee_607c_acf3_5f6f);
    lemma_mixed(0x1eee_607c_acf3_5f6f, 'S' as u64, 0x02b3_607d_c539_a15a);
    lemma_mixed(0x02b3_607d_c539_a15a, 'E' as u64, 0x0018_bc62_2cf9_9f66);
    lemma_mixed(0x0018_bc62_2cf9_9f66, 'T' as u64, 0x15a8_3c15_1b4c_b556);
}

/// The hash of `INDEX_GET`.
pub proof fn lemma_index_get()
    ensures
        ident_hash("INDEX_GET"@) == Hash64(0x12ab_1e44_df43_6230),
{
    lemma_mixed(0x0000_0000_0000_0000, IDENT, 0x0000_0000_0000_0013);
    reveal_strlit("INDEX_GET");
    reveal_with_fuel(mixed_text, 10);
    lemma_mixed(0x0000_0000_0000_0013, 'I' as u64, 0x0e1e_08c4_7287_35e1);
    lemma_mixed(0x0e1e_08c4_7287_35e1, 'N' as u64, 0x0619_f428_7feb_f77e);
    lemma_mixed(0x0619_f428_7feb_f77e, 'D' as u64, 0x09d8_05f6_b5c5_51f9);
    lemma_mixed(0x09d8_05f6_b5c5_51f9, 'E' as u64, 0x0d4e_ed45_cc04_afb6);
    lemma_mixed(0x0d4e_ed45_cc04_afb6, 'X' as u64, 0x093e_2cae_05bf_25f6);
    lemma_mixed(0x093e_2cae_05bf_25f6, '_' as u64, 0x1eee_607c_acf3_5f6f);
    lemma_mixed(0x1eee_607c_acf3_5f6f, 'G' as u64, 0x02b3_607d_c539_a14e);
    lemma_mixed(0x02b3_607d_c539_a14e, 'E' as u64, 0x157f_07b0_357b_ce64);
    lemma_mixed(0x157f_07b0_357b_ce64, 'T' as u64, 0x12ab_1e44_df43_6230);
}

/// The hash of `STRING_DEBUG`.
pub proof fn lemma_string_debug()
    ensures
        ident_hash("STRING_DEBUG"@) == Hash64(0x0489_41dc_72fb_e1b5),
{
    lemma_mixed(0x0000_0000_0000_0000, IDENT, 0x0000_0000_0000_0013);
    reveal_strlit("STRING_DEBUG");
    reveal_with_fuel(mixed_text, 13);
    lemma_mixed(0x0000_0000_0000_0013, 'S' as u64, 0x0e1e_08c4_7287_35eb);
    lemma_mixed(0x0e1e_08c4_7287_35eb, 'T' as u64, 0x1444_b567_78d4_d05a);
    lemma_mixed(0x1444_b567_78d4_d05a, 'R' as u64, 0x16f7_ce7d_38e1_5527);
    lemma_mixed(0x16f7_ce7d_38e1_5527, 'I' as u64, 0x0d6e_0602_9ee5_6dab);
    lemma_mixed(0x0d6e_0602_9ee5_6dab, 'N' as u64, 0x02dc_014c_0c9c_dffb);
    lemma_mixed(0x02dc_014c_0c9c_dffb, 'G' as u64, 0x0458_1ec6_4153_1fd7);
    lemma_mixed(0x0458_1ec6_4153_1fd7, '_' as u64, 0x0417_638b_80cf_cdbe);
    lemma_mixed(0x0417_638b_80cf_cdbe, 'D' as u64, 0x0d6a_df97_3ba5_8e9f);
    lemma_mixed(0x0d6a_df97_3ba5_8e9f, 'E' as u64, 0x1d8c_345b_8b56_88aa);
    lemma_mixed(0x1d8c_345b_8b56_88aa, 'B' as u64, 0x103a_84f1_a7ce_f56e);
    lemma_mixed(0x103a_84f1_a7ce_f56e, 'U' as u64, 0x19b4_39a7_18fa_beea);
    lemma_mixed(0x19b4_39a7_18fa_beea, 'G' as u64, 0x0489_41dc_72fb_e1b5);
}

/// The hash of `PARTIAL_EQ`.
pub proof fn lemma_partial_eq()
    ensures
        ident_hash("PARTIAL_EQ"@) == Hash64(0x0848_24f8_e1c8_b1ba),
{
    lemma_mixed(0x0000_0000_0000_0000, IDENT, 0x0000_0000_0000_0013);
    reveal_strlit("PARTIAL_EQ");
    reveal_with_fuel(mixed_text, 11);
    lemma_mixed(0x0000_0000_0000_0013, 'P' as u64, 0x0e1e_08c4_7287_35e8);
    lemma_mixed(0x0e1e_08c4_7287_35e8, 'A' as u64, 0x099e_483a_faf5_5c07);
    lemma_mixed(0x099e_483a_faf5_5c07, 'R' as u64, 0x181a_7e44_b757_cac6);
    lemma_mixed(0x181a_7e44_b757_cac6, 'T' as u64, 0x12af_b0f7_6478_2491);
    lemma_mixed(0x12af_b0f7_6478_2491, 'I' as u64, 0x1a0b_3615_fcd7_c9e4);
    lemma_mixed(0x1a0b_3615_fcd7_c9e4, 'A' as u64, 0x15d3_f192_acbb_ebeb);
    lemma_mixed(0x15d3_f192_acbb_ebeb, 'L' as u64, 0x04fc_25e1_49dc_7366);
    lemma_mixed(0x04fc_25e1_49dc_7366, '_' as u64, 0x15c7_81da_ccc9_739f);
    lemma_mixed(0x15c7_81da_ccc9_739f, 'E' as u64, 0x092b_8432_3a32_299b);
    lemma_mixed(0x092b_8432_3a32_299b, 'Q' as u64, 0x0848_24f8_e1c8_b1ba);
}

/// The hash of `EQ`.
pub proof fn lemma_eq()
    ensures
        ident_hash("EQ"@) == Hash64(0x0d3c_0d42_82c2_072b),
{
    lemma_mixed(0x0000_0000_0000_0000, IDENT, 0x0000_0000_0000_0013);
    reveal_strlit("EQ");
    reveal_with_fuel(mixed_text, 3);
    lemma_mixed(0x0000_0000_0000_0013, 'E' as u64, 0x0e1e_08c4_7287_35dd);
    lemma_mixed(0x0e1e_08c4_7287_35dd, 'Q' as u64, 0x0d3c_0d42_82c2_072b);
}

} // verus!
