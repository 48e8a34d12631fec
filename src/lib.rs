//! Host-side planning and checking for a tiled GPU matrix-multiplication
//! benchmark: dimension padding, work-size planning, profiling arithmetic,
//! result verification and matrix text framing.

pub mod error;
pub mod matrix_io;
pub mod perf;
pub mod plan;
pub mod platform;
pub mod text;
pub mod timing;
pub mod tiling;
pub mod verification;

pub use error::{ErrorKind, GenError, GenResult};
pub use matrix_io::{matrix_from_lines, split_lines};
pub use plan::{
    plan_kernel, plan_pad_cols, program_source, DispatchPlan, KernelVariant, MatrixDims, Operand,
    PadPlan, WorkSizes,
};
pub use perf::total_flops;
pub use platform::find_platform;
pub use timing::get_execution_time_ns;
pub use tiling::{ceil_divisible_by, floor_sqrt, gcd, needs_padding};
pub use verification::{verify_results, Mismatch, VerificationResult, MAX_PRINT_ERRORS};
