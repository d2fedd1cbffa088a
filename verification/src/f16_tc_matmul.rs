pub mod convert;
pub mod cta_f32;
pub mod cta_half_rhs;
pub mod cta_stage;
pub mod cta_stage_half;
pub mod cta_store;
pub mod cta_tile;
pub mod launcher;
pub mod sparse_tile;
