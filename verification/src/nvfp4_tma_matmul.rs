pub mod launcher;
pub mod tma;
