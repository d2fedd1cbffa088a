# cuda_kernels

Host-side logic of a set of CUDA kernels (half-precision tensor-core matmuls,
NVFP4 "Four-Six" and Eden quantisers, NVFP4 TMA GEMMs), written in Verus and
verified.

- `src/f16_tc_matmul/`: tile geometry, cooperative staging of operand tiles
  into shared-memory tiles, fragment addressing, masked output stores, the
  k-ranges and tile tests of the triangular and windowed kernels, the
  attention tile grid, and the launch planners with their argument checks.
- `src/nvfp4/`: the group, lane and index maps of the Four-Six quantisers
  (row-major, padded, transposed and tiled), their power-of-two fast paths,
  the Eden hash (a proved bijection) and sign, the Eden chunk packing and the
  index maps of the tiled Eden kernels, and the quantiser launch planners.
- `src/nvfp4_tma_matmul/`: the TMA descriptor cache bookkeeping and the GEMM
  launch planners.
- `app/`: the device side of the descriptor cache (allocation, upload and
  descriptor encoding through the CUDA driver), on top of `cuda-core`.

Each planner returns what is launched (kernel, grid, scalar arguments) or the
error that the launch is refused with; the buffers themselves appear by their
lengths.
