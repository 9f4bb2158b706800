mod artin;
mod band;
mod conversion;

pub use artin::{artin_try_new_post, artin_views, ArtinGenerator};
pub use band::{
    band_try_new_post, coalesce_post, coalesce_spec, lemma_coalesce_decomposition,
    lemma_coalesce_head, lemma_coalesce_strands, lemma_coalesce_valid, lemma_coalesce_writhe,
    lemma_decompose_seq_strands, lemma_decompose_strands, BandGenerator, CoalesceError,
};
pub use conversion::{
    artin_to_band, artin_to_band_spec, band_to_artin, band_views, coalesces, find_window,
    first_window, lemma_artin_to_band_keeps, lemma_artin_to_band_strands, lemma_first_window,
    window_band,
};
pub(crate) use conversion::find_window_exec;
