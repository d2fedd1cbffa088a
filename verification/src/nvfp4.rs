pub mod four_six;
pub mod four_six_kernels;
pub mod ms_eden;
pub mod ms_eden_tiled;
pub mod pow2;
