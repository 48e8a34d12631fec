//! Dispatch planning: validated benchmark dimensions, the work sizes of each
//! kernel variant, the decision to skip a variant, and the dispatch of the
//! column-padding kernel.

use crate::error::{ErrorKind, GenError};
use crate::text::{decimal, decimal_text};
use crate::tiling::{
    ceil_divisible_by,
    floor_sqrt,
    floor_sqrt_of,
    gcd,
    gcd_spec,
    lemma_round_up,
    needs_padding,
    round_up,
};
use vstd::arithmetic::div_mod::{lemma_fundamental_div_mod, lemma_mod_multiples_basic};
use vstd::prelude::*;

verus! {

/// The dimensions that every planning step can rely on: a positive tile
/// size, positive matrix dimensions, and every padded dimension, matrix
/// length and padded matrix length within `u32`.
pub open spec fn dims_ok(tile_size: int, m: int, n: int, p: int) -> bool {
    &&& tile_size > 0
    &&& m > 0
    &&& n > 0
    &&& p > 0
    &&& round_up(m, tile_size) <= u32::MAX
    &&& round_up(n, tile_size) <= u32::MAX
    &&& round_up(p, tile_size) <= u32::MAX
    &&& m * n <= u32::MAX
    &&& n * p <= u32::MAX
    &&& m * p <= u32::MAX
    &&& m * round_up(n, tile_size) <= u32::MAX
    &&& n * round_up(p, tile_size) <= u32::MAX
}

/// An `m`-by-`n` matrix A times an `n`-by-`p` matrix B, split into square
/// tiles of `tile_size` work items per side.
#[derive(Clone, Copy, Debug, PartialEq, Eq, Structural)]
pub struct MatrixDims {
    pub tile_size: u32,
    pub m: u32,
    pub n: u32,
    pub p: u32,
}

/// The two kernels the benchmark runs.
#[derive(Clone, Copy, Debug, PartialEq, Eq, Structural)]
pub enum KernelVariant {
    /// One output element per work item.
    PlainTiled,
    /// Four output elements per work item along the second axis.
    WideLoads,
}

/// Global and local work sizes of a two-dimensional dispatch.
#[derive(Clone, Copy, Debug, PartialEq, Eq, Structural)]
pub struct WorkSizes {
    pub global_rows: u32,
    pub global_cols: u32,
    pub local_rows: u32,
    pub local_cols: u32,
}

/// What to do with a kernel variant.
#[derive(Clone, Copy, Debug, PartialEq, Eq, Structural)]
pub enum DispatchPlan {
    /// Run it with these work sizes.
    Proceed(WorkSizes),
    /// Skip it: its local work group is larger than the device allows.
    SkippedDueToLimit,
    /// Skip it: the tile size is not a multiple of four.
    SkippedDueToDivisibility,
}

/// The matrix whose columns the padding kernel widens.
#[derive(Clone, Copy, Debug, PartialEq, Eq, Structural)]
pub enum Operand {
    /// A, `m` rows of `n` columns.
    A,
    /// B, `n` rows of `p` columns.
    B,
}

/// How to widen one matrix: the padding kernel's work sizes, the padded
/// column count, and the element count of the padded buffer.
#[derive(Clone, Copy, Debug, PartialEq, Eq, Structural)]
pub struct PadPlan {
    pub sizes: WorkSizes,
    pub padded_cols: u32,
    pub padded_len: u32,
}

impl MatrixDims {
    pub open spec fn wf(&self) -> bool {
        dims_ok(self.tile_size as int, self.m as int, self.n as int, self.p as int)
    }

    /// Checks the dimensions given on the command line.
    pub fn new(tile_size: u32, m: u32, n: u32, p: u32) -> (r: Result<MatrixDims, GenError>)
        ensures
            dims_ok(tile_size as int, m as int, n as int, p as int) <==> r is Ok,
            r matches Ok(d) ==> d == (MatrixDims { tile_size, m, n, p }),
            r matches Err(e) ==> e.kind == ErrorKind::InvalidArgument,
    {
        let fail = "tile_size, m, n and p must be positive, and the padded matrices must hold fewer than 2^32 elements";
        if tile_size == 0 || m == 0 || n == 0 || p == 0 {
            return Err(GenError::with_text(ErrorKind::InvalidArgument, fail));
        }
        let pm = padded_u64(m, tile_size);
        let pn = padded_u64(n, tile_size);
        let pp = padded_u64(p, tile_size);
        if pm > u32::MAX as u64 || pn > u32::MAX as u64 || pp > u32::MAX as u64 {
            return Err(GenError::with_text(ErrorKind::InvalidArgument, fail));
        }
        let mn = product(m as u64, n as u64);
        let np = product(n as u64, p as u64);
        let mp = product(m as u64, p as u64);
        let m_pn = product(m as u64, pn);
        let n_pp = product(n as u64, pp);
        if mn > u32::MAX as u64 || np > u32::MAX as u64 || mp > u32::MAX as u64
            || m_pn > u32::MAX as u64 || n_pp > u32::MAX as u64 {
            return Err(GenError::with_text(ErrorKind::InvalidArgument, fail));
        }
        Ok(MatrixDims { tile_size, m, n, p })
    }

    /// Element count of A.
    pub fn a_len(&self) -> (r: u32)
        requires
            self.wf(),
        ensures
            r == self.m * self.n,
    {
        self.m * self.n
    }

    /// Element count of B.
    pub fn b_len(&self) -> (r: u32)
        requires
            self.wf(),
        ensures
            r == self.n * self.p,
    {
        self.n * self.p
    }

    /// Element count of the product C.
    pub fn c_len(&self) -> (r: u32)
        requires
            self.wf(),
        ensures
            r == self.m * self.p,
    {
        self.m * self.p
    }
}

/// `n` rounded up to a multiple of `t`, in a width where it always fits.
fn padded_u64(n: u32, t: u32) -> (r: u64)
    requires
        t > 0,
    ensures
        r == round_up(n as int, t as int),
{
    proof {
        lemma_round_up(n as int, t as int);
    }
    let q: u64 = (n as u64 + t as u64 - 1) / (t as u64);
    q * (t as u64)
}

/// The product of two values within `u32`, which cannot overflow.
fn product(a: u64, b: u64) -> (r: u64)
    requires
        a <= u32::MAX,
        b <= u32::MAX,
    ensures
        r == a * b,
{
    assert(a * b <= u32::MAX * u32::MAX) by (nonlinear_arith)
        requires
            a <= u32::MAX,
            b <= u32::MAX,
    ;
    a * b
}

/// The local work size of a variant: a full tile, with the second axis
/// divided by four for the wide-loads kernel.
pub open spec fn local_size_of(variant: KernelVariant, tile_size: int) -> (int, int) {
    match variant {
        KernelVariant::PlainTiled => (tile_size, tile_size),
        KernelVariant::WideLoads => (tile_size, tile_size / 4),
    }
}

/// The global work size of a variant: both dimensions of the left operand
/// rounded up to the tile size, the second one divided by four for the
/// wide-loads kernel.
pub open spec fn global_size_of(variant: KernelVariant, d: MatrixDims) -> (int, int) {
    let rows = round_up(d.m as int, d.tile_size as int);
    let cols = round_up(d.n as int, d.tile_size as int);
    match variant {
        KernelVariant::PlainTiled => (rows, cols),
        KernelVariant::WideLoads => (rows, cols / 4),
    }
}

/// The decision for a variant: the wide-loads kernel needs a tile size
/// divisible by four; then the local work group must fit the device.
pub open spec fn dispatch_plan_of(
    variant: KernelVariant,
    d: MatrixDims,
    max_work_group_size: int,
) -> DispatchPlan {
    let local = local_size_of(variant, d.tile_size as int);
    let global = global_size_of(variant, d);
    if variant == KernelVariant::WideLoads && d.tile_size % 4 != 0 {
        DispatchPlan::SkippedDueToDivisibility
    } else if local.0 * local.1 > max_work_group_size {
        DispatchPlan::SkippedDueToLimit
    } else {
        DispatchPlan::Proceed(
            WorkSizes {
                global_rows: global.0 as u32,
                global_cols: global.1 as u32,
                local_rows: local.0 as u32,
                local_cols: local.1 as u32,
            },
        )
    }
}

/// A multiple of a tile whose size is a multiple of four, divided by four,
/// is a multiple of a quarter tile.
proof fn lemma_quarter_multiple(x: int, t: int)
    requires
        t > 0,
        t % 4 == 0,
        x % t == 0,
    ensures
        t / 4 > 0,
        (x / 4) % (t / 4) == 0,
{
    let u = t / 4;
    lemma_fundamental_div_mod(x, t);
    let k = x / t;
    assert(x == (k * u) * 4) by (nonlinear_arith)
        requires
            x == t * k,
            t == 4 * u,
    ;
    assert(x / 4 == k * u);
    lemma_mod_multiples_basic(k, u);
}

/// Decides whether a kernel variant runs on a device whose work groups hold
/// at most `max_work_group_size` items, and with which work sizes.
pub fn plan_kernel(variant: KernelVariant, dims: &MatrixDims, max_work_group_size: u32) -> (r:
    DispatchPlan)
    requires
        dims.wf(),
    ensures
        r == dispatch_plan_of(variant, *dims, max_work_group_size as int),
        r matches DispatchPlan::Proceed(w) ==> {
            &&& w.global_rows == global_size_of(variant, *dims).0
            &&& w.global_cols == global_size_of(variant, *dims).1
            &&& w.local_rows == local_size_of(variant, dims.tile_size as int).0
            &&& w.local_cols == local_size_of(variant, dims.tile_size as int).1
            &&& w.local_rows > 0 && w.local_cols > 0
            &&& w.global_rows % w.local_rows == 0
            &&& w.global_cols % w.local_cols == 0
            &&& w.local_rows * w.local_cols <= max_work_group_size
        },
{
    proof {
        lemma_round_up(dims.m as int, dims.tile_size as int);
        lemma_round_up(dims.n as int, dims.tile_size as int);
        if dims.tile_size % 4 == 0 {
            lemma_quarter_multiple(
                round_up(dims.n as int, dims.tile_size as int),
                dims.tile_size as int,
            );
        }
    }
    let t = dims.tile_size;
    let wide = match variant {
        KernelVariant::PlainTiled => false,
        KernelVariant::WideLoads => true,
    };
    if wide && t % 4 != 0 {
        return DispatchPlan::SkippedDueToDivisibility;
    }
    let rows = ceil_divisible_by(dims.m, t);
    let cols = ceil_divisible_by(dims.n, t);
    let (global_cols, local_cols) = if wide {
        (cols / 4, t / 4)
    } else {
        (cols, t)
    };
    if product(t as u64, local_cols as u64) > max_work_group_size as u64 {
        return DispatchPlan::SkippedDueToLimit;
    }
    DispatchPlan::Proceed(
        WorkSizes { global_rows: rows, global_cols, local_rows: t, local_cols },
    )
}

/// Rows and columns of an operand.
pub open spec fn operand_shape(operand: Operand, d: MatrixDims) -> (int, int) {
    match operand {
        Operand::A => (d.m as int, d.n as int),
        Operand::B => (d.n as int, d.p as int),
    }
}

/// The padding kernel's local size on an axis of padded length `padded`:
/// the largest square side the device allows, capped by the greatest common
/// divisor of the padded length and the tile size.
pub open spec fn pad_local_of(padded: int, tile_size: int, max_work_group_size: int) -> int {
    let side = floor_sqrt_of(max_work_group_size);
    let g = gcd_spec(padded as nat, tile_size as nat) as int;
    if side <= g {
        side
    } else {
        g
    }
}

/// The padding plan of an operand, or `None` when its column count is
/// already a multiple of the tile size and the unpadded buffer serves as is.
pub open spec fn pad_plan_of(operand: Operand, d: MatrixDims, max_work_group_size: int) -> Option<
    PadPlan,
> {
    let (rows, cols) = operand_shape(operand, d);
    let t = d.tile_size as int;
    let prows = round_up(rows, t);
    let pcols = round_up(cols, t);
    if pcols == cols {
        None
    } else {
        Some(
            PadPlan {
                sizes: WorkSizes {
                    global_rows: prows as u32,
                    global_cols: pcols as u32,
                    local_rows: pad_local_of(prows, t, max_work_group_size) as u32,
                    local_cols: pad_local_of(pcols, t, max_work_group_size) as u32,
                },
                padded_cols: pcols as u32,
                padded_len: (rows * pcols) as u32,
            },
        )
    }
}

/// Plans the widening of an operand's columns to a multiple of the tile
/// size, for the wide-loads kernel; `None` when no padding is needed.
pub fn plan_pad_cols(operand: Operand, dims: &MatrixDims, max_work_group_size: u32) -> (r: Option<
    PadPlan,
>)
    requires
        dims.wf(),
    ensures
        r == pad_plan_of(operand, *dims, max_work_group_size as int),
        r is None <==> operand_shape(operand, *dims).1 % (dims.tile_size as int) == 0,
{
    let t = dims.tile_size;
    let (rows, cols) = match operand {
        Operand::A => (dims.m, dims.n),
        Operand::B => (dims.n, dims.p),
    };
    proof {
        lemma_round_up(rows as int, t as int);
        lemma_round_up(cols as int, t as int);
    }
    if !needs_padding(cols, t) {
        return None;
    }
    let prows = ceil_divisible_by(rows, t);
    let pcols = ceil_divisible_by(cols, t);
    let side = floor_sqrt(max_work_group_size);
    let g_rows = gcd(prows, t);
    let g_cols = gcd(pcols, t);
    let local_rows = if side <= g_rows {
        side
    } else {
        g_rows
    };
    let local_cols = if side <= g_cols {
        side
    } else {
        g_cols
    };
    let padded_len = product(rows as u64, pcols as u64) as u32;
    Some(
        PadPlan {
            sizes: WorkSizes {
                global_rows: prows,
                global_cols: pcols,
                local_rows,
                local_cols,
            },
            padded_cols: pcols,
            padded_len,
        },
    )
}

/// The text handed to the kernel compiler: a line defining `TILE_SIZE`,
/// then the kernel source.
pub open spec fn program_source_of(tile_size: nat, kernel_source: Seq<char>) -> Seq<char> {
    "#define TILE_SIZE "@ + decimal(tile_size) + "\n"@ + kernel_source
}

/// Prepends the `TILE_SIZE` definition to a kernel's source text.
pub fn program_source(tile_size: u32, kernel_source: &str) -> (r: String)
    ensures
        r@ == program_source_of(tile_size as nat, kernel_source@),
{
    let mut s = String::from_str("#define TILE_SIZE ");
    let digits = decimal_text(tile_size as u64);
    s.append(digits.as_str());
    s.append("\n");
    s.append(kernel_source);
    s
}

} // verus!
