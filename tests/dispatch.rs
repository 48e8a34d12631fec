use matrix_mul_rs::{
    plan_kernel, plan_pad_cols, program_source, DispatchPlan, ErrorKind, KernelVariant, MatrixDims,
    Operand, WorkSizes,
};

#[test]
fn wide_loads_skipped_when_tile_not_divisible_by_four() {
    let dims = MatrixDims::new(5, 10, 10, 10).unwrap();
    assert_eq!(
        plan_kernel(KernelVariant::WideLoads, &dims, 1024),
        DispatchPlan::SkippedDueToDivisibility
    );
    assert_eq!(
        plan_kernel(KernelVariant::PlainTiled, &dims, 1024),
        DispatchPlan::Proceed(WorkSizes {
            global_rows: 10,
            global_cols: 10,
            local_rows: 5,
            local_cols: 5,
        })
    );
}

#[test]
fn variant_skipped_when_work_group_over_device_limit() {
    let dims = MatrixDims::new(10, 20, 20, 20).unwrap();
    assert_eq!(
        plan_kernel(KernelVariant::PlainTiled, &dims, 64),
        DispatchPlan::SkippedDueToLimit
    );
}

#[test]
fn work_group_exactly_at_limit_proceeds() {
    let dims = MatrixDims::new(8, 16, 16, 16).unwrap();
    assert!(matches!(
        plan_kernel(KernelVariant::PlainTiled, &dims, 64),
        DispatchPlan::Proceed(_)
    ));
    assert_eq!(
        plan_kernel(KernelVariant::PlainTiled, &dims, 63),
        DispatchPlan::SkippedDueToLimit
    );
}

#[test]
fn wide_loads_divides_second_axis_by_four() {
    let dims = MatrixDims::new(8, 10, 10, 10).unwrap();
    assert_eq!(
        plan_kernel(KernelVariant::WideLoads, &dims, 256),
        DispatchPlan::Proceed(WorkSizes {
            global_rows: 16,
            global_cols: 4,
            local_rows: 8,
            local_cols: 2,
        })
    );
    // 8 * 2 = 16 items fit a limit of 16, but not 15.
    assert!(matches!(
        plan_kernel(KernelVariant::WideLoads, &dims, 16),
        DispatchPlan::Proceed(_)
    ));
    assert_eq!(
        plan_kernel(KernelVariant::WideLoads, &dims, 15),
        DispatchPlan::SkippedDueToLimit
    );
}

#[test]
fn dims_rejects_zero_and_oversized_values() {
    assert_eq!(MatrixDims::new(0, 4, 4, 4).unwrap_err().kind, ErrorKind::InvalidArgument);
    assert_eq!(MatrixDims::new(4, 0, 4, 4).unwrap_err().kind, ErrorKind::InvalidArgument);
    assert_eq!(MatrixDims::new(4, 4, 0, 4).unwrap_err().kind, ErrorKind::InvalidArgument);
    assert_eq!(MatrixDims::new(4, 4, 4, 0).unwrap_err().kind, ErrorKind::InvalidArgument);
    assert_eq!(
        MatrixDims::new(4, 70000, 70000, 1).unwrap_err().kind,
        ErrorKind::InvalidArgument
    );
    assert_eq!(
        MatrixDims::new(16, u32::MAX, 1, 1).unwrap_err().kind,
        ErrorKind::InvalidArgument
    );
}

#[test]
fn dims_lengths() {
    let dims = MatrixDims::new(4, 3, 5, 7).unwrap();
    assert_eq!(dims, MatrixDims { tile_size: 4, m: 3, n: 5, p: 7 });
    assert_eq!(dims.a_len(), 15);
    assert_eq!(dims.b_len(), 35);
    assert_eq!(dims.c_len(), 21);
}

#[test]
fn pad_plan_absent_when_columns_fit_tiles() {
    let dims = MatrixDims::new(4, 6, 8, 12).unwrap();
    assert_eq!(plan_pad_cols(Operand::A, &dims, 256), None);
    assert_eq!(plan_pad_cols(Operand::B, &dims, 256), None);
}

#[test]
fn pad_plan_for_ragged_columns() {
    let dims = MatrixDims::new(4, 6, 10, 7).unwrap();
    let a = plan_pad_cols(Operand::A, &dims, 256).unwrap();
    assert_eq!(a.padded_cols, 12);
    assert_eq!(a.padded_len, 6 * 12);
    assert_eq!(
        a.sizes,
        WorkSizes { global_rows: 8, global_cols: 12, local_rows: 4, local_cols: 4 }
    );
    let b = plan_pad_cols(Operand::B, &dims, 256).unwrap();
    assert_eq!(b.padded_cols, 8);
    assert_eq!(b.padded_len, 10 * 8);
    assert_eq!(
        b.sizes,
        WorkSizes { global_rows: 12, global_cols: 8, local_rows: 4, local_cols: 4 }
    );
}

#[test]
fn pad_plan_local_size_capped_by_device() {
    let dims = MatrixDims::new(16, 20, 20, 20).unwrap();
    // sqrt(64) = 8 is below gcd(32, 16) = 16.
    let a = plan_pad_cols(Operand::A, &dims, 64).unwrap();
    assert_eq!(
        a.sizes,
        WorkSizes { global_rows: 32, global_cols: 32, local_rows: 8, local_cols: 8 }
    );
    // floor(sqrt(80)) = 8 as well.
    let b = plan_pad_cols(Operand::B, &dims, 80).unwrap();
    assert_eq!(b.sizes.local_rows, 8);
}

#[test]
fn program_source_prepends_tile_size() {
    let src = program_source(16, "__kernel void tiled() {}");
    assert_eq!(src, "#define TILE_SIZE 16\n__kernel void tiled() {}");
    assert_eq!(program_source(0, ""), "#define TILE_SIZE 0\n");
    assert_eq!(
        program_source(4294967295, "k"),
        "#define TILE_SIZE 4294967295\nk"
    );
}
