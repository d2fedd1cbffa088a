//! Host-side logic of the CUDA kernels crate: tile staging and fragment
//! addressing of the half-precision tensor-core matmul, launch validation and
//! dispatch of the matmul and NVFP4 quantisation kernels, the NVFP4 group and
//! index maps, the Eden hash, and the TMA descriptor cache bookkeeping.
#![allow(unused_imports)]

pub mod f16_tc_matmul;
pub mod nvfp4;
pub mod nvfp4_tma_matmul;
