use cube_conv::conv_transpose2d::{
    checked_transposed_len, conv_transpose2d_launch, try_conv_transpose2d_launch,
    Conv2dTransposeComputeShader, ConvTransposeOptions, KernelScalars, Tap,
};
use cube_conv::conv_transpose2d_scope::Conv2dTransposeEagerKernel;
use cube_conv::ir::{
    BinaryOp, CubeContext, Elem, FloatKind, InputInfo, IntKind, Item, Operation, OutputInfo, UnaryOp, Variable,
    Visibility,
};
use cube_conv::tensor_info::Tensor;

fn contiguous(shape: [u32; 4]) -> Tensor {
    Tensor {
        shape: shape.to_vec(),
        strides: vec![shape[1] * shape[2] * shape[3], shape[2] * shape[3], shape[3], 1],
    }
}

fn shader(input: [u32; 4], weight: [u32; 4], output: [u32; 4]) -> Conv2dTransposeComputeShader {
    Conv2dTransposeComputeShader {
        input: contiguous(input),
        weight: contiguous(weight),
        bias: Tensor { shape: vec![output[1]], strides: vec![1] },
        output: contiguous(output),
    }
}

/// Every product of the transposed convolution for output element `id`,
/// enumerated straight from the definition.
fn definition_taps(s: &Conv2dTransposeComputeShader, sc: &KernelScalars, id: u32) -> Vec<Tap> {
    let os = &s.output.strides;
    let osh = &s.output.shape;
    let b = (id / os[0]) % osh[0];
    let oc_out = (id / os[1]) % osh[1];
    let oh = (id / os[2]) % osh[2];
    let ow = (id / os[3]) % osh[3];
    let per_group = s.weight.shape[1];
    let g = oc_out / per_group;
    let oc = oc_out % per_group;
    let width = s.weight.shape[0] / sc.groups;
    let mut taps = Vec::new();
    for c in g * width..(g + 1) * width {
        for i in 0..s.input.shape[2] {
            for w in 0..s.input.shape[3] {
                for kh in 0..s.weight.shape[2] {
                    for kw in 0..s.weight.shape[3] {
                        let row = i as u64 * sc.stride[0] as u64 + kh as u64 * sc.dilation[0] as u64;
                        let col = w as u64 * sc.stride[1] as u64 + kw as u64 * sc.dilation[1] as u64;
                        if row == oh as u64 + sc.padding[0] as u64
                            && col == ow as u64 + sc.padding[1] as u64
                        {
                            taps.push(Tap {
                                in_channel: c,
                                in_row: i,
                                in_col: w,
                                kernel_row: kh,
                                kernel_col: kw,
                                input_index: s.input.index4(b, c, i, w),
                                weight_index: s.weight.index4(c, oc, kh, kw),
                            });
                        }
                    }
                }
            }
        }
    }
    taps
}

fn num_elements(t: &Tensor) -> u32 {
    t.shape.iter().product()
}

fn scalars(stride: [u32; 2], dilation: [u32; 2], padding: [u32; 2], groups: u32) -> KernelScalars {
    KernelScalars { stride, dilation, padding, groups }
}

#[test]
fn single_channel_stride_one_example() {
    // 2x2 input, 2x2 kernel, stride 1: the centre of the 3x3 output sums all four products.
    let s = shader([1, 1, 2, 2], [1, 1, 2, 2], [1, 1, 3, 3]);
    let sc = scalars([1, 1], [1, 1], [0, 0], 1);
    let inv = s.expand(4, &sc);
    assert_eq!(inv.output_index, 4);
    assert_eq!(inv.bias_index, 0);
    let got: Vec<(u32, u32, u32, u32, u32, u32, u32)> = inv
        .taps
        .iter()
        .map(|t| (t.in_channel, t.in_row, t.in_col, t.kernel_row, t.kernel_col, t.input_index, t.weight_index))
        .collect();
    assert_eq!(
        got,
        vec![
            (0, 0, 0, 1, 1, 0, 3),
            (0, 0, 1, 1, 0, 1, 2),
            (0, 1, 0, 0, 1, 2, 1),
            (0, 1, 1, 0, 0, 3, 0),
        ]
    );
    // The corner of the output only meets the first input element and the first tap.
    let corner = s.expand(0, &sc);
    assert_eq!(corner.taps.len(), 1);
    assert_eq!((corner.taps[0].input_index, corner.taps[0].weight_index), (0, 0));
}

#[test]
fn strided_padded_example() {
    // stride 2, padding 1, kernel 3: output row 2 (padded row 3) is reached by input row 1 with tap 1.
    let s = shader([1, 1, 3, 3], [1, 1, 3, 3], [1, 1, 6, 6]);
    let sc = scalars([2, 2], [1, 1], [1, 1], 1);
    let id = 2 * 6 + 2;
    let inv = s.expand(id, &sc);
    assert_eq!(inv.taps.len(), 1);
    let t = inv.taps[0];
    assert_eq!((t.in_row, t.in_col, t.kernel_row, t.kernel_col), (1, 1, 1, 1));
    assert_eq!(t.input_index, 4);
    assert_eq!(t.weight_index, 4);
    // Output row 1 (padded row 2) is reached by input row 0 (tap 2) and input row 1 (tap 0).
    let inv = s.expand(6 + 1, &sc);
    let rows: Vec<(u32, u32)> = inv.taps.iter().map(|t| (t.in_row, t.kernel_row)).collect();
    assert_eq!(rows, vec![(0, 2), (0, 2), (1, 0), (1, 0)]);
}

fn check_against_definition(s: &Conv2dTransposeComputeShader, sc: &KernelScalars) {
    for id in 0..num_elements(&s.output) {
        let inv = s.expand(id, sc);
        assert_eq!(inv.output_index, id);
        assert_eq!(inv.bias_index, (id / s.output.strides[1]) % s.output.shape[1]);
        assert_eq!(inv.taps, definition_taps(s, sc, id), "invocation {}", id);
    }
}

#[test]
fn matches_definition_with_groups() {
    let s = shader([2, 4, 3, 3], [4, 2, 3, 3], [2, 4, 6, 6]);
    let sc = scalars([2, 2], [1, 1], [1, 1], 2);
    check_against_definition(&s, &sc);
}

#[test]
fn matches_definition_with_dilation_and_uneven_axes() {
    let s = shader([1, 3, 4, 2], [3, 2, 2, 3], [1, 2, 7, 5]);
    let sc = scalars([1, 2], [3, 1], [0, 2], 1);
    check_against_definition(&s, &sc);
}

#[test]
fn matches_definition_when_the_dilated_kernel_equals_the_stride() {
    let s = shader([1, 2, 3, 3], [2, 2, 2, 1], [1, 2, 6, 3]);
    let sc = scalars([2, 1], [1, 1], [0, 0], 1);
    check_against_definition(&s, &sc);
}

#[test]
fn kernel_shorter_than_stride_adds_no_product() {
    // Kernel 1, stride 2: the window is empty, though input row 0 meets output row 0.
    let s = shader([1, 1, 2, 2], [1, 1, 1, 1], [1, 1, 3, 3]);
    let sc = scalars([2, 2], [1, 1], [0, 0], 1);
    for id in 0..9 {
        assert!(s.expand(id, &sc).taps.is_empty());
    }
    assert_eq!(definition_taps(&s, &sc, 0).len(), 1);
}

#[test]
fn reads_stay_inside_input_and_weight() {
    let s = shader([2, 4, 3, 3], [4, 2, 3, 3], [2, 4, 6, 6]);
    let sc = scalars([2, 2], [1, 1], [1, 1], 2);
    for id in 0..num_elements(&s.output) {
        for t in s.expand(id, &sc).taps {
            assert!(t.input_index < num_elements(&s.input));
            assert!(t.weight_index < num_elements(&s.weight));
        }
    }
}

fn options(stride: [usize; 2], padding: [usize; 2], padding_out: [usize; 2], dilation: [usize; 2], groups: usize) -> ConvTransposeOptions {
    ConvTransposeOptions { stride, padding, padding_out, dilation, groups }
}

#[test]
fn launch_output_shape() {
    let o = options([2, 2], [1, 1], [1, 1], [1, 1], 2);
    let l = conv_transpose2d_launch([2, 4, 3, 3], [4, 2, 3, 3], Some(4), &o);
    // (3 - 1) * 2 + 1 * (3 - 1) + 1 - 2 * 1 + 1 = 6
    assert_eq!(l.output_shape, [2, 4, 6, 6]);
    assert_eq!(l.bias_shape, [4, 1, 1, 1]);
    let o = options([1, 3], [0, 2], [0, 1], [2, 1], 1);
    let l = conv_transpose2d_launch([5, 3, 4, 2], [3, 7, 2, 3], None, &o);
    // rows: 3 * 1 + 2 * 1 + 0 - 0 + 1 = 6; cols: 1 * 3 + 1 * 2 + 1 - 4 + 1 = 3
    assert_eq!(l.output_shape, [5, 7, 6, 3]);
}

#[test]
fn launch_without_bias_uses_the_batch_length() {
    let o = options([1, 1], [0, 0], [0, 0], [1, 1], 1);
    let l = conv_transpose2d_launch([3, 1, 2, 2], [1, 8, 2, 2], None, &o);
    assert_eq!(l.output_shape[0], 3);
    assert_eq!(l.output_shape[1], 8);
    assert_eq!(l.bias_shape, [3, 1, 1, 1]);
}

#[test]
fn launch_scalars_follow_the_options() {
    let o = options([2, 3], [4, 5], [1, 0], [6, 7], 8);
    let l = conv_transpose2d_launch([1, 8, 9, 9], [8, 1, 2, 2], None, &o);
    assert_eq!(l.scalars.stride, [2, 3]);
    assert_eq!(l.scalars.dilation, [6, 7]);
    assert_eq!(l.scalars.padding, [4, 5]);
    assert_eq!(l.scalars.groups, 8);
}

#[test]
fn launch_scalars_are_cut_to_u32() {
    let big = (1usize << 32) + 3;
    let o = options([big, 1], [0, 0], [0, 0], [1, 1], 1);
    let l = conv_transpose2d_launch([1, 1, 1, 1], [1, 1, 1, 1], None, &o);
    assert_eq!(l.scalars.stride, [3, 1]);
    assert_eq!(l.output_shape, [1, 1, 1, 1]);
}

#[test]
fn launch_then_kernel_matches_definition() {
    // The host's shapes and scalars, laid out contiguously, drive the kernel.
    let input_dims = [2usize, 2, 3, 2];
    let weight_dims = [2usize, 3, 2, 3];
    let o = options([2, 1], [1, 0], [1, 0], [1, 2], 1);
    let l = conv_transpose2d_launch(input_dims, weight_dims, Some(3), &o);
    assert_eq!(l.output_shape, [2, 3, 5, 6]);
    let u = |d: [usize; 4]| [d[0] as u32, d[1] as u32, d[2] as u32, d[3] as u32];
    let s = shader(u(input_dims), u(weight_dims), u(l.output_shape));
    check_against_definition(&s, &l.scalars);
}

#[test]
fn every_invocation_owns_a_distinct_output_element() {
    let s = shader([2, 4, 3, 3], [4, 2, 3, 3], [2, 4, 6, 6]);
    let sc = scalars([2, 2], [1, 1], [1, 1], 2);
    let n = num_elements(&s.output);
    let mut seen = vec![false; n as usize];
    for id in 0..n {
        let inv = s.expand(id, &sc);
        assert!(!seen[inv.output_index as usize]);
        seen[inv.output_index as usize] = true;
        assert_eq!(inv.bias_index, (id / 36) % 4);
    }
    assert!(seen.iter().all(|&v| v));
}

#[test]
fn compile_declares_the_bindings() {
    let item = Item::new(Elem::Float(FloatKind::F32));
    let kernel = Conv2dTransposeEagerKernel { item }.compile();
    let array = InputInfo::Array { item, visibility: Visibility::Read };
    assert_eq!(kernel.inputs, vec![array, array, array, InputInfo::Scalar { elem: Elem::UInt, size: 7 }]);
    assert_eq!(kernel.outputs, vec![OutputInfo::Array { item }]);
    assert_eq!(kernel.scope.written, vec![Variable::GlobalOutputArray(0, item)]);
    assert_eq!(kernel.scope.locals.len(), 75);
    assert_eq!(kernel.scope.locals[58], item);
    assert_eq!(kernel.scope.operations.len(), 118);
}

#[test]
fn compiled_scope_holds_the_kernel_operations() {
    let item = Item::new(Elem::Float(FloatKind::F16));
    let ops = Conv2dTransposeEagerKernel { item }.compile().scope.operations;
    let u = Item::new(Elem::UInt);
    let local = |k: u32, it: Item| Variable::Local { index: k, item: it };
    // b = id / output stride 0, then b % output shape 0.
    assert_eq!(
        ops[26],
        Operation::Binary { op: BinaryOp::Div, lhs: Variable::Id, rhs: local(8, u), out: local(28, u) }
    );
    assert_eq!(
        ops[27],
        Operation::Binary { op: BinaryOp::Modulo, lhs: local(28, u), rhs: local(12, u), out: local(28, u) }
    );
    // The sum starts at bias[oc_out].
    assert_eq!(
        ops[72],
        Operation::Binary {
            op: BinaryOp::Index,
            lhs: Variable::GlobalInputArray(2, item),
            rhs: local(26, u),
            out: local(60, item),
        }
    );
    let loops = ops.iter().filter(|o| matches!(o, Operation::RangeLoop { .. })).count();
    let ifs = ops.iter().filter(|o| matches!(o, Operation::If { .. })).count();
    let ends = ops.iter().filter(|o| matches!(o, Operation::EndBlock)).count();
    assert_eq!((loops, ifs, ends), (3, 2, 5));
    assert_eq!(
        ops[117],
        Operation::IndexAssign {
            index: Variable::Id,
            value: local(60, item),
            out: Variable::GlobalOutputArray(0, item),
        }
    );
    assert_eq!(
        ops[24],
        Operation::Unary { kind: UnaryOp::Cast, input: Variable::GlobalScalar(0, Elem::UInt), out: local(24, Item::new(Elem::Int(IntKind::I32))) }
    );
}

#[test]
fn expanding_into_a_used_context_numbers_locals_after_its_own() {
    let item = Item::new(Elem::Int(IntKind::I32));
    let mut scope = CubeContext::root();
    scope.create_local(Item::new(Elem::Bool));
    scope.create_local(Item::new(Elem::Bool));
    let input = Variable::GlobalInputArray(0, item);
    Conv2dTransposeComputeShader::expand_scope(
        &mut scope,
        input,
        Variable::GlobalInputArray(1, item),
        Variable::GlobalInputArray(2, item),
        Variable::GlobalOutputArray(0, item),
        item,
    );
    assert_eq!(scope.locals.len(), 77);
    assert_eq!(scope.operations.len(), 118);
    match scope.operations[0] {
        Operation::Metadata(m) => assert_eq!(
            m,
            cube_conv::ir::Metadata::Stride {
                dim: Variable::ConstantScalar(0, Elem::UInt),
                var: input,
                out: Variable::Local { index: 2, item: Item::new(Elem::UInt) },
            }
        ),
        _ => panic!("the kernel starts with a metadata query"),
    }
    assert!(scope.written.is_empty());
}

#[test]
fn launch_supported_accepts_the_kernel_launch_only() {
    let s = shader([2, 4, 3, 3], [4, 2, 3, 3], [2, 4, 6, 6]);
    assert!(s.launch_supported(&scalars([2, 2], [1, 1], [1, 1], 2)));
    // groups that do not match the output channels
    assert!(!s.launch_supported(&scalars([2, 2], [1, 1], [1, 1], 1)));
    // zero stride or dilation
    assert!(!s.launch_supported(&scalars([0, 2], [1, 1], [1, 1], 2)));
    assert!(!s.launch_supported(&scalars([2, 2], [1, 0], [1, 1], 2)));
    // an input whose offsets do not fit in u32
    let mut big = shader([2, 4, 3, 3], [4, 2, 3, 3], [2, 4, 6, 6]);
    big.input.strides[0] = u32::MAX;
    assert!(!big.launch_supported(&scalars([2, 2], [1, 1], [1, 1], 2)));
    // a three-dimensional output
    let mut flat = shader([2, 4, 3, 3], [4, 2, 3, 3], [2, 4, 6, 6]);
    flat.output.shape.pop();
    assert!(!flat.launch_supported(&scalars([2, 2], [1, 1], [1, 1], 2)));
}

#[test]
fn checked_transposed_len_values() {
    assert_eq!(checked_transposed_len(3, 3, 2, 1, 1, 1), Some(6));
    assert_eq!(checked_transposed_len(0, 3, 2, 1, 1, 1), None);
    assert_eq!(checked_transposed_len(3, 0, 2, 1, 1, 1), None);
    // 2 * padding exceeds the rest
    assert_eq!(checked_transposed_len(1, 1, 1, 1, 0, 1), None);
    assert_eq!(checked_transposed_len(2, 1, usize::MAX, 0, 0, 1), None);
    assert_eq!(checked_transposed_len(1, 1, 1, 0, usize::MAX, 1), None);
    assert_eq!(checked_transposed_len(1, 1, 1, 0, usize::MAX - 1, 1), Some(usize::MAX));
}

#[test]
fn try_launch_refuses_overflowing_shapes() {
    let o = options([2, 2], [1, 1], [1, 1], [1, 1], 2);
    assert!(try_conv_transpose2d_launch([2, 4, 0, 3], [4, 2, 3, 3], None, &o).is_none());
    assert!(try_conv_transpose2d_launch([2, 4, 3, 3], [4, usize::MAX, 3, 3], None, &o).is_none());
    let l = try_conv_transpose2d_launch([2, 4, 3, 3], [4, 2, 3, 3], Some(4), &o).unwrap();
    assert_eq!(l.output_shape, [2, 4, 6, 6]);
}
