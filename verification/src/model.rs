//! The mathematical model in which the contracts of the library are stated: crossings of
//! strands, sequences of them, and the spec functions that say what each operation computes.

pub use crate::braid::{
    braid_outcome, braid_try_new_post, braid_wf, index_arg, index_check_post, letters_min_index,
    product_post, BraidModel, BraidOperand,
};
pub use crate::crossing::{
    all_valid, all_valid_artin, cancel_product, cancel_radius, cancel_radius_from,
    decompose_crossing, decompose_seq, is_reduced, push_all, push_crossing, seq_inverse,
    seq_min_index, sign_value, strand_end, swap_through, total_artin_len, writhe, Crossing,
};
pub use crate::data::{data_add_defined, data_add_spec, data_kind, data_value, DataKind};
pub use crate::generators::{
    artin_to_band_spec, artin_try_new_post, artin_views, band_try_new_post, band_views,
    coalesce_post, coalesce_spec, coalesces, find_window, first_window, window_band,
    CoalesceError,
};
pub use crate::letter::{
    artin_outcome, band_outcome, head_index, letter_data_crossing, letter_data_valid,
    letter_outcome, letter_try_new_post, letter_views,
};
pub use crate::multiplication::{
    braid_result_operand, letter_braid_operand, letter_result_operand, word_braid_operand,
    word_outcome,
};
pub use crate::operand::{mul_braid_operand, mul_operand_post, MulModel};
pub use crate::strand::{outside_u16, strand_add_spec, strand_spec, strand_sub_spec};
pub use crate::word::{
    coalesce_word_spec, data_crossing, data_crossings, data_valid, first_invalid, heads_at_most,
    letter_data, letter_product, too_long, word_check, word_mul_spec, word_try_new_post, word_wf,
};
