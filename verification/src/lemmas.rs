//! Proved properties of the operations of the library, for verified callers to build on.

pub use crate::braid::{
    lemma_braid_inverse_cancels, lemma_braid_product_associative, lemma_braid_product_closure,
    lemma_braid_rewriting_fits, lemma_braid_times_word, lemma_braid_try_new_fits, lemma_braid_trivial_is_identity,
    lemma_braid_writhe_of_inverse, lemma_word_times_braid,
};
pub use crate::crossing::{
    lemma_cancel_product_associative, lemma_cancel_product_reduced, lemma_decompose_artin,
    lemma_decompose_seq, lemma_min_index_attained, lemma_seq_inverse_props,
    lemma_strand_end_cancel_product, lemma_writhe_cancel_product, lemma_writhe_decompose_seq,
};
pub use crate::generators::{
    lemma_artin_to_band_keeps, lemma_artin_to_band_strands, lemma_coalesce_decomposition,
    lemma_coalesce_strands, lemma_coalesce_writhe, lemma_decompose_seq_strands,
    lemma_decompose_strands,
};
pub use crate::strand::lemma_add_sub_inverse;
pub use crate::word::{
    lemma_coalesce_heads, lemma_coalesce_keeps_strands, lemma_coalesce_keeps_writhe,
    lemma_coalesce_single, lemma_coalesce_word, lemma_coalesce_word_strands,
    lemma_coalesce_word_writhe, lemma_decompose_laws, lemma_inverse_cancels,
    lemma_inverse_involutive, lemma_product_associative, lemma_product_bounds,
    lemma_product_writhe_and_strands, lemma_trivial_is_identity,
};
