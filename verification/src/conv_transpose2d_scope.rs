//! The operations of the transposed-convolution kernel, as its expansion
//! registers them into a context, and the kernel definition compiled from them.
use crate::conv_transpose2d::Conv2dTransposeComputeShader;
use crate::ir::{
    conversion_explicit, operation_declared, BinaryOp, CubeContext, Elem, InputInfo, IntKind, Item, Metadata, Operation, OutputInfo, UnaryOp,
    Variable, Visibility,
};
use crate::semantics::{lemma_run_concat, lemma_straight_concat, run, straight, KernelState, Launch, Term, Value};
use crate::window::{window_end, window_start};
use vstd::prelude::*;

verus! {

/// A scalar (vectorization 1) item of element type `elem`.
pub open spec fn scalar_item(elem: Elem) -> Item {
    Item { elem, vectorization: 1 }
}

/// Local `base + k` of the kernel, of item `item`.
pub open spec fn local(base: u32, k: int, item: Item) -> Variable {
    Variable::Local { index: (base + k) as u32, item }
}

/// The items of the kernel's 75 locals, in declaration order: metadata reads
/// (0 to 23), signed strides (24, 25), output coordinates and group values
/// (26 to 35), window temporaries and bounds (36 to 47), offsets (48 to 57),
/// product, factor and sum of the kernel's item (58 to 60), kernel positions,
/// numerators and flags (61 to 71), and the loop indices over input channel,
/// row and column (72 to 74).
pub open spec fn kernel_locals(item: Item) -> Seq<Item> {
    let u = scalar_item(Elem::UInt);
    let i = scalar_item(Elem::Int(IntKind::I32));
    let b = scalar_item(Elem::Bool);
    seq![u, u, u, u, u, u, u, u, u, u, u, u, u, u, u, u, u, u, u, u, u, u, u, u, i, i, u, u, u, u, u, u, u, u, u, u, u, i, i, u, i, i, i, i, u, u, u, u, u, u, u, u, u, u, u, u, u, u, item, item, item, u, u, u, u, u, u, u, u, b, b, b, u, u, u]
}

/// The operations that read the strides and lengths of the input, the output and the weight into locals 0 to 23.
pub open spec fn kernel_metadata_ops(base: u32, input: Variable, weight: Variable, output: Variable) -> Seq<Operation> {
    let u = scalar_item(Elem::UInt);
    let i = scalar_item(Elem::Int(IntKind::I32));
    let b = scalar_item(Elem::Bool);
    seq![
        Operation::Metadata(Metadata::Stride { dim: Variable::ConstantScalar(0, Elem::UInt), var: input, out: local(base, 0, u) }),
        Operation::Metadata(Metadata::Stride { dim: Variable::ConstantScalar(1, Elem::UInt), var: input, out: local(base, 1, u) }),
        Operation::Metadata(Metadata::Stride { dim: Variable::ConstantScalar(2, Elem::UInt), var: input, out: local(base, 2, u) }),
        Operation::Metadata(Metadata::Stride { dim: Variable::ConstantScalar(3, Elem::UInt), var: input, out: local(base, 3, u) }),
        Operation::Metadata(Metadata::Shape { dim: Variable::ConstantScalar(0, Elem::UInt), var: input, out: local(base, 4, u) }),
        Operation::Metadata(Metadata::Shape { dim: Variable::ConstantScalar(1, Elem::UInt), var: input, out: local(base, 5, u) }),
        Operation::Metadata(Metadata::Shape { dim: Variable::ConstantScalar(2, Elem::UInt), var: input, out: local(base, 6, u) }),
        Operation::Metadata(Metadata::Shape { dim: Variable::ConstantScalar(3, Elem::UInt), var: input, out: local(base, 7, u) }),
        Operation::Metadata(Metadata::Stride { dim: Variable::ConstantScalar(0, Elem::UInt), var: output, out: local(base, 8, u) }),
        Operation::Metadata(Metadata::Stride { dim: Variable::ConstantScalar(1, Elem::UInt), var: output, out: local(base, 9, u) }),
        Operation::Metadata(Metadata::Stride { dim: Variable::ConstantScalar(2, Elem::UInt), var: output, out: local(base, 10, u) }),
        Operation::Metadata(Metadata::Stride { dim: Variable::ConstantScalar(3, Elem::UInt), var: output, out: local(base, 11, u) }),
        Operation::Metadata(Metadata::Shape { dim: Variable::ConstantScalar(0, Elem::UInt), var: output, out: local(base, 12, u) }),
        Operation::Metadata(Metadata::Shape { dim: Variable::ConstantScalar(1, Elem::UInt), var: output, out: local(base, 13, u) }),
        Operation::Metadata(Metadata::Shape { dim: Variable::ConstantScalar(2, Elem::UInt), var: output, out: local(base, 14, u) }),
        Operation::Metadata(Metadata::Shape { dim: Variable::ConstantScalar(3, Elem::UInt), var: output, out: local(base, 15, u) }),
        Operation::Metadata(Metadata::Stride { dim: Variable::ConstantScalar(0, Elem::UInt), var: weight, out: local(base, 16, u) }),
        Operation::Metadata(Metadata::Stride { dim: Variable::ConstantScalar(1, Elem::UInt), var: weight, out: local(base, 17, u) }),
        Operation::Metadata(Metadata::Stride { dim: Variable::ConstantScalar(2, Elem::UInt), var: weight, out: local(base, 18, u) }),
        Operation::Metadata(Metadata::Stride { dim: Variable::ConstantScalar(3, Elem::UInt), var: weight, out: local(base, 19, u) }),
        Operation::Metadata(Metadata::Shape { dim: Variable::ConstantScalar(0, Elem::UInt), var: weight, out: local(base, 20, u) }),
        Operation::Metadata(Metadata::Shape { dim: Variable::ConstantScalar(1, Elem::UInt), var: weight, out: local(base, 21, u) }),
        Operation::Metadata(Metadata::Shape { dim: Variable::ConstantScalar(2, Elem::UInt), var: weight, out: local(base, 22, u) }),
        Operation::Metadata(Metadata::Shape { dim: Variable::ConstantScalar(3, Elem::UInt), var: weight, out: local(base, 23, u) }),
    ]
}

/// The operations that cast the strides to signed integers and derive the output coordinates, the group, the channel in the group and the range of input channels from the invocation id.
pub open spec fn kernel_position_ops(base: u32) -> Seq<Operation> {
    let u = scalar_item(Elem::UInt);
    let i = scalar_item(Elem::Int(IntKind::I32));
    let b = scalar_item(Elem::Bool);
    seq![
        Operation::Unary { kind: UnaryOp::Cast, input: Variable::GlobalScalar(0, Elem::UInt), out: local(base, 24, i) },
        Operation::Unary { kind: UnaryOp::Cast, input: Variable::GlobalScalar(1, Elem::UInt), out: local(base, 25, i) },
        Operation::Binary { op: BinaryOp::Div, lhs: Variable::Id, rhs: local(base, 8, u), out: local(base, 28, u) },
        Operation::Binary { op: BinaryOp::Modulo, lhs: local(base, 28, u), rhs: local(base, 12, u), out: local(base, 28, u) },
        Operation::Binary { op: BinaryOp::Div, lhs: Variable::Id, rhs: local(base, 9, u), out: local(base, 26, u) },
        Operation::Binary { op: BinaryOp::Modulo, lhs: local(base, 26, u), rhs: local(base, 13, u), out: local(base, 26, u) },
        Operation::Binary { op: BinaryOp::Div, lhs: Variable::Id, rhs: local(base, 10, u), out: local(base, 29, u) },
        Operation::Binary { op: BinaryOp::Modulo, lhs: local(base, 29, u), rhs: local(base, 14, u), out: local(base, 29, u) },
        Operation::Binary { op: BinaryOp::Div, lhs: Variable::Id, rhs: local(base, 11, u), out: local(base, 30, u) },
        Operation::Binary { op: BinaryOp::Modulo, lhs: local(base, 30, u), rhs: local(base, 15, u), out: local(base, 30, u) },
        Operation::Binary { op: BinaryOp::Div, lhs: local(base, 26, u), rhs: local(base, 21, u), out: local(base, 31, u) },
        Operation::Binary { op: BinaryOp::Modulo, lhs: local(base, 31, u), rhs: Variable::GlobalScalar(6, Elem::UInt), out: local(base, 32, u) },
        Operation::Binary { op: BinaryOp::Mul, lhs: local(base, 21, u), rhs: local(base, 32, u), out: local(base, 27, u) },
        Operation::Binary { op: BinaryOp::Sub, lhs: local(base, 26, u), rhs: local(base, 27, u), out: local(base, 27, u) },
        Operation::Binary { op: BinaryOp::Div, lhs: local(base, 20, u), rhs: Variable::GlobalScalar(6, Elem::UInt), out: local(base, 35, u) },
        Operation::Binary { op: BinaryOp::Mul, lhs: local(base, 32, u), rhs: local(base, 35, u), out: local(base, 33, u) },
        Operation::Binary { op: BinaryOp::Add, lhs: local(base, 33, u), rhs: local(base, 35, u), out: local(base, 34, u) },
    ]
}

/// The operations that compute, per axis, the window of input positions to scan.
pub open spec fn kernel_window_ops(base: u32) -> Seq<Operation> {
    let u = scalar_item(Elem::UInt);
    let i = scalar_item(Elem::Int(IntKind::I32));
    let b = scalar_item(Elem::Bool);
    seq![
        Operation::Unary { kind: UnaryOp::Assign, input: Variable::ConstantScalar(1, Elem::Int(IntKind::I32)), out: local(base, 38, i) },
        Operation::Binary { op: BinaryOp::Mul, lhs: local(base, 22, u), rhs: Variable::GlobalScalar(2, Elem::UInt), out: local(base, 39, u) },
        Operation::Unary { kind: UnaryOp::Cast, input: local(base, 39, u), out: local(base, 40, i) },
        Operation::Binary { op: BinaryOp::Sub, lhs: local(base, 40, i), rhs: local(base, 24, i), out: local(base, 40, i) },
        Operation::Binary { op: BinaryOp::Mul, lhs: local(base, 23, u), rhs: Variable::GlobalScalar(3, Elem::UInt), out: local(base, 39, u) },
        Operation::Unary { kind: UnaryOp::Cast, input: local(base, 39, u), out: local(base, 41, i) },
        Operation::Binary { op: BinaryOp::Sub, lhs: local(base, 41, i), rhs: local(base, 25, i), out: local(base, 41, i) },
        Operation::Binary { op: BinaryOp::Add, lhs: local(base, 29, u), rhs: Variable::GlobalScalar(4, Elem::UInt), out: local(base, 36, u) },
        Operation::Unary { kind: UnaryOp::Cast, input: local(base, 36, u), out: local(base, 37, i) },
        Operation::Binary { op: BinaryOp::Sub, lhs: local(base, 37, i), rhs: local(base, 40, i), out: local(base, 42, i) },
        Operation::Binary { op: BinaryOp::Div, lhs: local(base, 42, i), rhs: local(base, 24, i), out: local(base, 42, i) },
        Operation::Binary { op: BinaryOp::Add, lhs: local(base, 30, u), rhs: Variable::GlobalScalar(5, Elem::UInt), out: local(base, 36, u) },
        Operation::Unary { kind: UnaryOp::Cast, input: local(base, 36, u), out: local(base, 37, i) },
        Operation::Binary { op: BinaryOp::Sub, lhs: local(base, 37, i), rhs: local(base, 41, i), out: local(base, 43, i) },
        Operation::Binary { op: BinaryOp::Div, lhs: local(base, 43, i), rhs: local(base, 25, i), out: local(base, 43, i) },
        Operation::Binary { op: BinaryOp::Max, lhs: local(base, 42, i), rhs: Variable::ConstantScalar(0, Elem::Int(IntKind::I32)), out: local(base, 37, i) },
        Operation::Unary { kind: UnaryOp::Cast, input: local(base, 37, i), out: local(base, 44, u) },
        Operation::Binary { op: BinaryOp::Add, lhs: local(base, 40, i), rhs: local(base, 42, i), out: local(base, 37, i) },
        Operation::Binary { op: BinaryOp::Add, lhs: local(base, 37, i), rhs: local(base, 38, i), out: local(base, 37, i) },
        Operation::Binary { op: BinaryOp::Max, lhs: local(base, 37, i), rhs: Variable::ConstantScalar(0, Elem::Int(IntKind::I32)), out: local(base, 37, i) },
        Operation::Unary { kind: UnaryOp::Cast, input: local(base, 37, i), out: local(base, 36, u) },
        Operation::Binary { op: BinaryOp::Min, lhs: local(base, 36, u), rhs: local(base, 6, u), out: local(base, 46, u) },
        Operation::Binary { op: BinaryOp::Max, lhs: local(base, 43, i), rhs: Variable::ConstantScalar(0, Elem::Int(IntKind::I32)), out: local(base, 37, i) },
        Operation::Unary { kind: UnaryOp::Cast, input: local(base, 37, i), out: local(base, 45, u) },
        Operation::Binary { op: BinaryOp::Add, lhs: local(base, 41, i), rhs: local(base, 43, i), out: local(base, 37, i) },
        Operation::Binary { op: BinaryOp::Add, lhs: local(base, 37, i), rhs: local(base, 38, i), out: local(base, 37, i) },
        Operation::Binary { op: BinaryOp::Max, lhs: local(base, 37, i), rhs: Variable::ConstantScalar(0, Elem::Int(IntKind::I32)), out: local(base, 37, i) },
        Operation::Unary { kind: UnaryOp::Cast, input: local(base, 37, i), out: local(base, 36, u) },
        Operation::Binary { op: BinaryOp::Min, lhs: local(base, 36, u), rhs: local(base, 7, u), out: local(base, 47, u) },
    ]
}

/// The operations that start the sum at the bias of the output channel and
/// compute the input offset of the batch, the weight offset of the channel in
/// the group and the padded output row and column.
pub open spec fn kernel_accumulate_head_ops(base: u32, bias: Variable, item: Item) -> Seq<Operation> {
    let u = scalar_item(Elem::UInt);
    seq![
        Operation::Binary { op: BinaryOp::Mul, lhs: local(base, 28, u), rhs: local(base, 0, u), out: local(base, 50, u) },
        Operation::Binary { op: BinaryOp::Mul, lhs: local(base, 27, u), rhs: local(base, 17, u), out: local(base, 55, u) },
        Operation::Binary { op: BinaryOp::Index, lhs: bias, rhs: local(base, 26, u), out: local(base, 60, item) },
        Operation::Binary { op: BinaryOp::Add, lhs: local(base, 29, u), rhs: Variable::GlobalScalar(4, Elem::UInt), out: local(base, 63, u) },
        Operation::Binary { op: BinaryOp::Add, lhs: local(base, 30, u), rhs: Variable::GlobalScalar(5, Elem::UInt), out: local(base, 65, u) },
    ]
}

/// The three nested loops over input channel, row and column that add every
/// product whose kernel position divides evenly, then the store of the sum at
/// the invocation's output element.
pub open spec fn kernel_loop_ops(base: u32, input: Variable, weight: Variable, output: Variable, item: Item) -> Seq<Operation> {
    let u = scalar_item(Elem::UInt);
    let b = scalar_item(Elem::Bool);
    seq![
        Operation::RangeLoop { i: local(base, 72, u), start: local(base, 33, u), end: local(base, 34, u) },
        Operation::Binary { op: BinaryOp::Mul, lhs: local(base, 72, u), rhs: local(base, 1, u), out: local(base, 51, u) },
        Operation::Binary { op: BinaryOp::Mul, lhs: local(base, 72, u), rhs: local(base, 16, u), out: local(base, 54, u) },
        Operation::RangeLoop { i: local(base, 73, u), start: local(base, 44, u), end: local(base, 46, u) },
        Operation::Binary { op: BinaryOp::Mul, lhs: local(base, 73, u), rhs: Variable::GlobalScalar(0, Elem::UInt), out: local(base, 67, u) },
        Operation::Binary { op: BinaryOp::GreaterEqual, lhs: local(base, 63, u), rhs: local(base, 67, u), out: local(base, 70, b) },
        Operation::Binary { op: BinaryOp::Sub, lhs: local(base, 63, u), rhs: local(base, 67, u), out: local(base, 64, u) },
        Operation::Binary { op: BinaryOp::Modulo, lhs: local(base, 64, u), rhs: Variable::GlobalScalar(2, Elem::UInt), out: local(base, 68, u) },
        Operation::Binary { op: BinaryOp::Equal, lhs: local(base, 68, u), rhs: Variable::ConstantScalar(0, Elem::UInt), out: local(base, 69, b) },
        Operation::Binary { op: BinaryOp::And, lhs: local(base, 70, b), rhs: local(base, 69, b), out: local(base, 71, b) },
        Operation::If { cond: local(base, 71, b) },
        Operation::Binary { op: BinaryOp::Div, lhs: local(base, 64, u), rhs: Variable::GlobalScalar(2, Elem::UInt), out: local(base, 61, u) },
        Operation::Binary { op: BinaryOp::Mul, lhs: local(base, 73, u), rhs: local(base, 2, u), out: local(base, 52, u) },
        Operation::Binary { op: BinaryOp::Mul, lhs: local(base, 61, u), rhs: local(base, 18, u), out: local(base, 56, u) },
        Operation::RangeLoop { i: local(base, 74, u), start: local(base, 45, u), end: local(base, 47, u) },
        Operation::Binary { op: BinaryOp::Mul, lhs: local(base, 74, u), rhs: Variable::GlobalScalar(1, Elem::UInt), out: local(base, 67, u) },
        Operation::Binary { op: BinaryOp::GreaterEqual, lhs: local(base, 65, u), rhs: local(base, 67, u), out: local(base, 70, b) },
        Operation::Binary { op: BinaryOp::Sub, lhs: local(base, 65, u), rhs: local(base, 67, u), out: local(base, 66, u) },
        Operation::Binary { op: BinaryOp::Modulo, lhs: local(base, 66, u), rhs: Variable::GlobalScalar(3, Elem::UInt), out: local(base, 68, u) },
        Operation::Binary { op: BinaryOp::Equal, lhs: local(base, 68, u), rhs: Variable::ConstantScalar(0, Elem::UInt), out: local(base, 69, b) },
        Operation::Binary { op: BinaryOp::And, lhs: local(base, 70, b), rhs: local(base, 69, b), out: local(base, 71, b) },
        Operation::If { cond: local(base, 71, b) },
        Operation::Binary { op: BinaryOp::Div, lhs: local(base, 66, u), rhs: Variable::GlobalScalar(3, Elem::UInt), out: local(base, 62, u) },
        Operation::Binary { op: BinaryOp::Mul, lhs: local(base, 74, u), rhs: local(base, 3, u), out: local(base, 53, u) },
        Operation::Binary { op: BinaryOp::Mul, lhs: local(base, 62, u), rhs: local(base, 19, u), out: local(base, 57, u) },
        Operation::Unary { kind: UnaryOp::Assign, input: local(base, 50, u), out: local(base, 48, u) },
        Operation::Binary { op: BinaryOp::Add, lhs: local(base, 48, u), rhs: local(base, 51, u), out: local(base, 48, u) },
        Operation::Binary { op: BinaryOp::Add, lhs: local(base, 48, u), rhs: local(base, 52, u), out: local(base, 48, u) },
        Operation::Binary { op: BinaryOp::Add, lhs: local(base, 48, u), rhs: local(base, 53, u), out: local(base, 48, u) },
        Operation::Unary { kind: UnaryOp::Assign, input: local(base, 54, u), out: local(base, 49, u) },
        Operation::Binary { op: BinaryOp::Add, lhs: local(base, 49, u), rhs: local(base, 55, u), out: local(base, 49, u) },
        Operation::Binary { op: BinaryOp::Add, lhs: local(base, 49, u), rhs: local(base, 56, u), out: local(base, 49, u) },
        Operation::Binary { op: BinaryOp::Add, lhs: local(base, 49, u), rhs: local(base, 57, u), out: local(base, 49, u) },
        Operation::Binary { op: BinaryOp::Index, lhs: input, rhs: local(base, 48, u), out: local(base, 58, item) },
        Operation::Binary { op: BinaryOp::Index, lhs: weight, rhs: local(base, 49, u), out: local(base, 59, item) },
        Operation::Binary { op: BinaryOp::Mul, lhs: local(base, 58, item), rhs: local(base, 59, item), out: local(base, 58, item) },
        Operation::Binary { op: BinaryOp::Add, lhs: local(base, 60, item), rhs: local(base, 58, item), out: local(base, 60, item) },
        Operation::EndBlock,
        Operation::EndBlock,
        Operation::EndBlock,
        Operation::EndBlock,
        Operation::EndBlock,
        Operation::IndexAssign { index: Variable::Id, value: local(base, 60, item), out: output },
    ]
}

/// The operations that start the sum at the bias of the output channel, run the three nested loops over input channel, row and column, add every product whose kernel position divides evenly, and store the sum at the invocation's output element.
pub open spec fn kernel_accumulate_ops(base: u32, input: Variable, weight: Variable, bias: Variable, output: Variable, item: Item) -> Seq<Operation> {
    kernel_accumulate_head_ops(base, bias, item) + kernel_loop_ops(base, input, weight, output, item)
}

/// The kernel's operations, for locals starting at `base`, reading `input`,
/// `weight` and `bias` and writing `output`, with sums of item `item`. The
/// kernel scalars are `GlobalScalar(0)` to `GlobalScalar(6)`: the strides, the
/// dilations and the paddings of the two axes, then the group count.
pub open spec fn kernel_ops(
    base: u32,
    input: Variable,
    weight: Variable,
    bias: Variable,
    output: Variable,
    item: Item,
) -> Seq<Operation> {
    kernel_metadata_ops(base, input, weight, output) + kernel_position_ops(base)
        + kernel_window_ops(base) + kernel_accumulate_ops(base, input, weight, bias, output, item)
}

/// A kernel compiled from its bindings and its expanded scope.
pub struct KernelDefinition {
    pub inputs: Vec<InputInfo>,
    pub outputs: Vec<OutputInfo>,
    pub scope: CubeContext,
}

/// The transposed-convolution kernel for arrays of element `item`.
pub struct Conv2dTransposeEagerKernel {
    pub item: Item,
}

impl Conv2dTransposeComputeShader {
    /// Registers the operations that read the strides and lengths of the input, the output and the weight into locals 0 to 23.
    fn register_kernel_metadata(scope: &mut CubeContext, base: u32, input: Variable, weight: Variable, output: Variable)
        requires
            base + 75 <= u32::MAX,
        ensures
            final(scope).operations@ == old(scope).operations@ + kernel_metadata_ops(base, input, weight, output),
            final(scope).locals@ == old(scope).locals@,
            final(scope).written@ == old(scope).written@,
    {
        let u = Item::new(Elem::UInt);
        let v0 = Variable::Local { index: base + 0, item: u };
        let v1 = Variable::Local { index: base + 1, item: u };
        let v2 = Variable::Local { index: base + 2, item: u };
        let v3 = Variable::Local { index: base + 3, item: u };
        let v4 = Variable::Local { index: base + 4, item: u };
        let v5 = Variable::Local { index: base + 5, item: u };
        let v6 = Variable::Local { index: base + 6, item: u };
        let v7 = Variable::Local { index: base + 7, item: u };
        let v8 = Variable::Local { index: base + 8, item: u };
        let v9 = Variable::Local { index: base + 9, item: u };
        let v10 = Variable::Local { index: base + 10, item: u };
        let v11 = Variable::Local { index: base + 11, item: u };
        let v12 = Variable::Local { index: base + 12, item: u };
        let v13 = Variable::Local { index: base + 13, item: u };
        let v14 = Variable::Local { index: base + 14, item: u };
        let v15 = Variable::Local { index: base + 15, item: u };
        let v16 = Variable::Local { index: base + 16, item: u };
        let v17 = Variable::Local { index: base + 17, item: u };
        let v18 = Variable::Local { index: base + 18, item: u };
        let v19 = Variable::Local { index: base + 19, item: u };
        let v20 = Variable::Local { index: base + 20, item: u };
        let v21 = Variable::Local { index: base + 21, item: u };
        let v22 = Variable::Local { index: base + 22, item: u };
        let v23 = Variable::Local { index: base + 23, item: u };
        let ops = vec![
            Operation::Metadata(Metadata::Stride { dim: Variable::ConstantScalar(0, Elem::UInt), var: input, out: v0 }),
            Operation::Metadata(Metadata::Stride { dim: Variable::ConstantScalar(1, Elem::UInt), var: input, out: v1 }),
            Operation::Metadata(Metadata::Stride { dim: Variable::ConstantScalar(2, Elem::UInt), var: input, out: v2 }),
            Operation::Metadata(Metadata::Stride { dim: Variable::ConstantScalar(3, Elem::UInt), var: input, out: v3 }),
            Operation::Metadata(Metadata::Shape { dim: Variable::ConstantScalar(0, Elem::UInt), var: input, out: v4 }),
            Operation::Metadata(Metadata::Shape { dim: Variable::ConstantScalar(1, Elem::UInt), var: input, out: v5 }),
            Operation::Metadata(Metadata::Shape { dim: Variable::ConstantScalar(2, Elem::UInt), var: input, out: v6 }),
            Operation::Metadata(Metadata::Shape { dim: Variable::ConstantScalar(3, Elem::UInt), var: input, out: v7 }),
            Operation::Metadata(Metadata::Stride { dim: Variable::ConstantScalar(0, Elem::UInt), var: output, out: v8 }),
            Operation::Metadata(Metadata::Stride { dim: Variable::ConstantScalar(1, Elem::UInt), var: output, out: v9 }),
            Operation::Metadata(Metadata::Stride { dim: Variable::ConstantScalar(2, Elem::UInt), var: output, out: v10 }),
            Operation::Metadata(Metadata::Stride { dim: Variable::ConstantScalar(3, Elem::UInt), var: output, out: v11 }),
            Operation::Metadata(Metadata::Shape { dim: Variable::ConstantScalar(0, Elem::UInt), var: output, out: v12 }),
            Operation::Metadata(Metadata::Shape { dim: Variable::ConstantScalar(1, Elem::UInt), var: output, out: v13 }),
            Operation::Metadata(Metadata::Shape { dim: Variable::ConstantScalar(2, Elem::UInt), var: output, out: v14 }),
            Operation::Metadata(Metadata::Shape { dim: Variable::ConstantScalar(3, Elem::UInt), var: output, out: v15 }),
            Operation::Metadata(Metadata::Stride { dim: Variable::ConstantScalar(0, Elem::UInt), var: weight, out: v16 }),
            Operation::Metadata(Metadata::Stride { dim: Variable::ConstantScalar(1, Elem::UInt), var: weight, out: v17 }),
            Operation::Metadata(Metadata::Stride { dim: Variable::ConstantScalar(2, Elem::UInt), var: weight, out: v18 }),
            Operation::Metadata(Metadata::Stride { dim: Variable::ConstantScalar(3, Elem::UInt), var: weight, out: v19 }),
            Operation::Metadata(Metadata::Shape { dim: Variable::ConstantScalar(0, Elem::UInt), var: weight, out: v20 }),
            Operation::Metadata(Metadata::Shape { dim: Variable::ConstantScalar(1, Elem::UInt), var: weight, out: v21 }),
            Operation::Metadata(Metadata::Shape { dim: Variable::ConstantScalar(2, Elem::UInt), var: weight, out: v22 }),
            Operation::Metadata(Metadata::Shape { dim: Variable::ConstantScalar(3, Elem::UInt), var: weight, out: v23 }),
        ];
        proof {
            assert(ops@ =~= kernel_metadata_ops(base, input, weight, output));
        }
        scope.register_all(ops);
    }

    /// Registers the operations that cast the strides to signed integers and derive the output coordinates, the group, the channel in the group and the range of input channels from the invocation id.
    fn register_kernel_position(scope: &mut CubeContext, base: u32)
        requires
            base + 75 <= u32::MAX,
        ensures
            final(scope).operations@ == old(scope).operations@ + kernel_position_ops(base),
            final(scope).locals@ == old(scope).locals@,
            final(scope).written@ == old(scope).written@,
    {
        let u = Item::new(Elem::UInt);
        let i = Item::new(Elem::Int(IntKind::I32));
        let v8 = Variable::Local { index: base + 8, item: u };
        let v9 = Variable::Local { index: base + 9, item: u };
        let v10 = Variable::Local { index: base + 10, item: u };
        let v11 = Variable::Local { index: base + 11, item: u };
        let v12 = Variable::Local { index: base + 12, item: u };
        let v13 = Variable::Local { index: base + 13, item: u };
        let v14 = Variable::Local { index: base + 14, item: u };
        let v15 = Variable::Local { index: base + 15, item: u };
        let v20 = Variable::Local { index: base + 20, item: u };
        let v21 = Variable::Local { index: base + 21, item: u };
        let v24 = Variable::Local { index: base + 24, item: i };
        let v25 = Variable::Local { index: base + 25, item: i };
        let v26 = Variable::Local { index: base + 26, item: u };
        let v27 = Variable::Local { index: base + 27, item: u };
        let v28 = Variable::Local { index: base + 28, item: u };
        let v29 = Variable::Local { index: base + 29, item: u };
        let v30 = Variable::Local { index: base + 30, item: u };
        let v31 = Variable::Local { index: base + 31, item: u };
        let v32 = Variable::Local { index: base + 32, item: u };
        let v33 = Variable::Local { index: base + 33, item: u };
        let v34 = Variable::Local { index: base + 34, item: u };
        let v35 = Variable::Local { index: base + 35, item: u };
        let ops = vec![
            Operation::Unary { kind: UnaryOp::Cast, input: Variable::GlobalScalar(0, Elem::UInt), out: v24 },
            Operation::Unary { kind: UnaryOp::Cast, input: Variable::GlobalScalar(1, Elem::UInt), out: v25 },
            Operation::Binary { op: BinaryOp::Div, lhs: Variable::Id, rhs: v8, out: v28 },
            Operation::Binary { op: BinaryOp::Modulo, lhs: v28, rhs: v12, out: v28 },
            Operation::Binary { op: BinaryOp::Div, lhs: Variable::Id, rhs: v9, out: v26 },
            Operation::Binary { op: BinaryOp::Modulo, lhs: v26, rhs: v13, out: v26 },
            Operation::Binary { op: BinaryOp::Div, lhs: Variable::Id, rhs: v10, out: v29 },
            Operation::Binary { op: BinaryOp::Modulo, lhs: v29, rhs: v14, out: v29 },
            Operation::Binary { op: BinaryOp::Div, lhs: Variable::Id, rhs: v11, out: v30 },
            Operation::Binary { op: BinaryOp::Modulo, lhs: v30, rhs: v15, out: v30 },
            Operation::Binary { op: BinaryOp::Div, lhs: v26, rhs: v21, out: v31 },
            Operation::Binary { op: BinaryOp::Modulo, lhs: v31, rhs: Variable::GlobalScalar(6, Elem::UInt), out: v32 },
            Operation::Binary { op: BinaryOp::Mul, lhs: v21, rhs: v32, out: v27 },
            Operation::Binary { op: BinaryOp::Sub, lhs: v26, rhs: v27, out: v27 },
            Operation::Binary { op: BinaryOp::Div, lhs: v20, rhs: Variable::GlobalScalar(6, Elem::UInt), out: v35 },
            Operation::Binary { op: BinaryOp::Mul, lhs: v32, rhs: v35, out: v33 },
            Operation::Binary { op: BinaryOp::Add, lhs: v33, rhs: v35, out: v34 },
        ];
        proof {
            assert(ops@ =~= kernel_position_ops(base));
        }
        scope.register_all(ops);
    }

    /// Registers the operations that compute, per axis, the window of input positions to scan.
    fn register_kernel_window(scope: &mut CubeContext, base: u32)
        requires
            base + 75 <= u32::MAX,
        ensures
            final(scope).operations@ == old(scope).operations@ + kernel_window_ops(base),
            final(scope).locals@ == old(scope).locals@,
            final(scope).written@ == old(scope).written@,
    {
        let u = Item::new(Elem::UInt);
        let i = Item::new(Elem::Int(IntKind::I32));
        let v6 = Variable::Local { index: base + 6, item: u };
        let v7 = Variable::Local { index: base + 7, item: u };
        let v22 = Variable::Local { index: base + 22, item: u };
        let v23 = Variable::Local { index: base + 23, item: u };
        let v24 = Variable::Local { index: base + 24, item: i };
        let v25 = Variable::Local { index: base + 25, item: i };
        let v29 = Variable::Local { index: base + 29, item: u };
        let v30 = Variable::Local { index: base + 30, item: u };
        let v36 = Variable::Local { index: base + 36, item: u };
        let v37 = Variable::Local { index: base + 37, item: i };
        let v38 = Variable::Local { index: base + 38, item: i };
        let v39 = Variable::Local { index: base + 39, item: u };
        let v40 = Variable::Local { index: base + 40, item: i };
        let v41 = Variable::Local { index: base + 41, item: i };
        let v42 = Variable::Local { index: base + 42, item: i };
        let v43 = Variable::Local { index: base + 43, item: i };
        let v44 = Variable::Local { index: base + 44, item: u };
        let v45 = Variable::Local { index: base + 45, item: u };
        let v46 = Variable::Local { index: base + 46, item: u };
        let v47 = Variable::Local { index: base + 47, item: u };
        let ops = vec![
            Operation::Unary { kind: UnaryOp::Assign, input: Variable::ConstantScalar(1, Elem::Int(IntKind::I32)), out: v38 },
            Operation::Binary { op: BinaryOp::Mul, lhs: v22, rhs: Variable::GlobalScalar(2, Elem::UInt), out: v39 },
            Operation::Unary { kind: UnaryOp::Cast, input: v39, out: v40 },
            Operation::Binary { op: BinaryOp::Sub, lhs: v40, rhs: v24, out: v40 },
            Operation::Binary { op: BinaryOp::Mul, lhs: v23, rhs: Variable::GlobalScalar(3, Elem::UInt), out: v39 },
            Operation::Unary { kind: UnaryOp::Cast, input: v39, out: v41 },
            Operation::Binary { op: BinaryOp::Sub, lhs: v41, rhs: v25, out: v41 },
            Operation::Binary { op: BinaryOp::Add, lhs: v29, rhs: Variable::GlobalScalar(4, Elem::UInt), out: v36 },
            Operation::Unary { kind: UnaryOp::Cast, input: v36, out: v37 },
            Operation::Binary { op: BinaryOp::Sub, lhs: v37, rhs: v40, out: v42 },
            Operation::Binary { op: BinaryOp::Div, lhs: v42, rhs: v24, out: v42 },
            Operation::Binary { op: BinaryOp::Add, lhs: v30, rhs: Variable::GlobalScalar(5, Elem::UInt), out: v36 },
            Operation::Unary { kind: UnaryOp::Cast, input: v36, out: v37 },
            Operation::Binary { op: BinaryOp::Sub, lhs: v37, rhs: v41, out: v43 },
            Operation::Binary { op: BinaryOp::Div, lhs: v43, rhs: v25, out: v43 },
            Operation::Binary { op: BinaryOp::Max, lhs: v42, rhs: Variable::ConstantScalar(0, Elem::Int(IntKind::I32)), out: v37 },
            Operation::Unary { kind: UnaryOp::Cast, input: v37, out: v44 },
            Operation::Binary { op: BinaryOp::Add, lhs: v40, rhs: v42, out: v37 },
            Operation::Binary { op: BinaryOp::Add, lhs: v37, rhs: v38, out: v37 },
            Operation::Binary { op: BinaryOp::Max, lhs: v37, rhs: Variable::ConstantScalar(0, Elem::Int(IntKind::I32)), out: v37 },
            Operation::Unary { kind: UnaryOp::Cast, input: v37, out: v36 },
            Operation::Binary { op: BinaryOp::Min, lhs: v36, rhs: v6, out: v46 },
            Operation::Binary { op: BinaryOp::Max, lhs: v43, rhs: Variable::ConstantScalar(0, Elem::Int(IntKind::I32)), out: v37 },
            Operation::Unary { kind: UnaryOp::Cast, input: v37, out: v45 },
            Operation::Binary { op: BinaryOp::Add, lhs: v41, rhs: v43, out: v37 },
            Operation::Binary { op: BinaryOp::Add, lhs: v37, rhs: v38, out: v37 },
            Operation::Binary { op: BinaryOp::Max, lhs: v37, rhs: Variable::ConstantScalar(0, Elem::Int(IntKind::I32)), out: v37 },
            Operation::Unary { kind: UnaryOp::Cast, input: v37, out: v36 },
            Operation::Binary { op: BinaryOp::Min, lhs: v36, rhs: v7, out: v47 },
        ];
        proof {
            assert(ops@ =~= kernel_window_ops(base));
        }
        scope.register_all(ops);
    }

    /// Registers the operations that start the sum at the bias of the output channel, run the three nested loops over input channel, row and column, add every product whose kernel position divides evenly, and store the sum at the invocation's output element.
    fn register_kernel_accumulate(scope: &mut CubeContext, base: u32, input: Variable, weight: Variable, bias: Variable, output: Variable, item: Item)
        requires
            base + 75 <= u32::MAX,
        ensures
            final(scope).operations@ == old(scope).operations@ + kernel_accumulate_ops(base, input, weight, bias, output, item),
            final(scope).locals@ == old(scope).locals@,
            final(scope).written@ == old(scope).written@,
    {
        let u = Item::new(Elem::UInt);
        let b = Item::new(Elem::Bool);
        let v0 = Variable::Local { index: base + 0, item: u };
        let v1 = Variable::Local { index: base + 1, item: u };
        let v2 = Variable::Local { index: base + 2, item: u };
        let v3 = Variable::Local { index: base + 3, item: u };
        let v16 = Variable::Local { index: base + 16, item: u };
        let v17 = Variable::Local { index: base + 17, item: u };
        let v18 = Variable::Local { index: base + 18, item: u };
        let v19 = Variable::Local { index: base + 19, item: u };
        let v26 = Variable::Local { index: base + 26, item: u };
        let v27 = Variable::Local { index: base + 27, item: u };
        let v28 = Variable::Local { index: base + 28, item: u };
        let v29 = Variable::Local { index: base + 29, item: u };
        let v30 = Variable::Local { index: base + 30, item: u };
        let v33 = Variable::Local { index: base + 33, item: u };
        let v34 = Variable::Local { index: base + 34, item: u };
        let v44 = Variable::Local { index: base + 44, item: u };
        let v45 = Variable::Local { index: base + 45, item: u };
        let v46 = Variable::Local { index: base + 46, item: u };
        let v47 = Variable::Local { index: base + 47, item: u };
        let v48 = Variable::Local { index: base + 48, item: u };
        let v49 = Variable::Local { index: base + 49, item: u };
        let v50 = Variable::Local { index: base + 50, item: u };
        let v51 = Variable::Local { index: base + 51, item: u };
        let v52 = Variable::Local { index: base + 52, item: u };
        let v53 = Variable::Local { index: base + 53, item: u };
        let v54 = Variable::Local { index: base + 54, item: u };
        let v55 = Variable::Local { index: base + 55, item: u };
        let v56 = Variable::Local { index: base + 56, item: u };
        let v57 = Variable::Local { index: base + 57, item: u };
        let v58 = Variable::Local { index: base + 58, item: item };
        let v59 = Variable::Local { index: base + 59, item: item };
        let v60 = Variable::Local { index: base + 60, item: item };
        let v61 = Variable::Local { index: base + 61, item: u };
        let v62 = Variable::Local { index: base + 62, item: u };
        let v63 = Variable::Local { index: base + 63, item: u };
        let v64 = Variable::Local { index: base + 64, item: u };
        let v65 = Variable::Local { index: base + 65, item: u };
        let v66 = Variable::Local { index: base + 66, item: u };
        let v67 = Variable::Local { index: base + 67, item: u };
        let v68 = Variable::Local { index: base + 68, item: u };
        let v69 = Variable::Local { index: base + 69, item: b };
        let v70 = Variable::Local { index: base + 70, item: b };
        let v71 = Variable::Local { index: base + 71, item: b };
        let v72 = Variable::Local { index: base + 72, item: u };
        let v73 = Variable::Local { index: base + 73, item: u };
        let v74 = Variable::Local { index: base + 74, item: u };
        let ops = vec![
            Operation::Binary { op: BinaryOp::Mul, lhs: v28, rhs: v0, out: v50 },
            Operation::Binary { op: BinaryOp::Mul, lhs: v27, rhs: v17, out: v55 },
            Operation::Binary { op: BinaryOp::Index, lhs: bias, rhs: v26, out: v60 },
            Operation::Binary { op: BinaryOp::Add, lhs: v29, rhs: Variable::GlobalScalar(4, Elem::UInt), out: v63 },
            Operation::Binary { op: BinaryOp::Add, lhs: v30, rhs: Variable::GlobalScalar(5, Elem::UInt), out: v65 },
            Operation::RangeLoop { i: v72, start: v33, end: v34 },
            Operation::Binary { op: BinaryOp::Mul, lhs: v72, rhs: v1, out: v51 },
            Operation::Binary { op: BinaryOp::Mul, lhs: v72, rhs: v16, out: v54 },
            Operation::RangeLoop { i: v73, start: v44, end: v46 },
            Operation::Binary { op: BinaryOp::Mul, lhs: v73, rhs: Variable::GlobalScalar(0, Elem::UInt), out: v67 },
            Operation::Binary { op: BinaryOp::GreaterEqual, lhs: v63, rhs: v67, out: v70 },
            Operation::Binary { op: BinaryOp::Sub, lhs: v63, rhs: v67, out: v64 },
            Operation::Binary { op: BinaryOp::Modulo, lhs: v64, rhs: Variable::GlobalScalar(2, Elem::UInt), out: v68 },
            Operation::Binary { op: BinaryOp::Equal, lhs: v68, rhs: Variable::ConstantScalar(0, Elem::UInt), out: v69 },
            Operation::Binary { op: BinaryOp::And, lhs: v70, rhs: v69, out: v71 },
            Operation::If { cond: v71 },
            Operation::Binary { op: BinaryOp::Div, lhs: v64, rhs: Variable::GlobalScalar(2, Elem::UInt), out: v61 },
            Operation::Binary { op: BinaryOp::Mul, lhs: v73, rhs: v2, out: v52 },
            Operation::Binary { op: BinaryOp::Mul, lhs: v61, rhs: v18, out: v56 },
            Operation::RangeLoop { i: v74, start: v45, end: v47 },
            Operation::Binary { op: BinaryOp::Mul, lhs: v74, rhs: Variable::GlobalScalar(1, Elem::UInt), out: v67 },
            Operation::Binary { op: BinaryOp::GreaterEqual, lhs: v65, rhs: v67, out: v70 },
            Operation::Binary { op: BinaryOp::Sub, lhs: v65, rhs: v67, out: v66 },
            Operation::Binary { op: BinaryOp::Modulo, lhs: v66, rhs: Variable::GlobalScalar(3, Elem::UInt), out: v68 },
            Operation::Binary { op: BinaryOp::Equal, lhs: v68, rhs: Variable::ConstantScalar(0, Elem::UInt), out: v69 },
            Operation::Binary { op: BinaryOp::And, lhs: v70, rhs: v69, out: v71 },
            Operation::If { cond: v71 },
            Operation::Binary { op: BinaryOp::Div, lhs: v66, rhs: Variable::GlobalScalar(3, Elem::UInt), out: v62 },
            Operation::Binary { op: BinaryOp::Mul, lhs: v74, rhs: v3, out: v53 },
            Operation::Binary { op: BinaryOp::Mul, lhs: v62, rhs: v19, out: v57 },
            Operation::Unary { kind: UnaryOp::Assign, input: v50, out: v48 },
            Operation::Binary { op: BinaryOp::Add, lhs: v48, rhs: v51, out: v48 },
            Operation::Binary { op: BinaryOp::Add, lhs: v48, rhs: v52, out: v48 },
            Operation::Binary { op: BinaryOp::Add, lhs: v48, rhs: v53, out: v48 },
            Operation::Unary { kind: UnaryOp::Assign, input: v54, out: v49 },
            Operation::Binary { op: BinaryOp::Add, lhs: v49, rhs: v55, out: v49 },
            Operation::Binary { op: BinaryOp::Add, lhs: v49, rhs: v56, out: v49 },
            Operation::Binary { op: BinaryOp::Add, lhs: v49, rhs: v57, out: v49 },
            Operation::Binary { op: BinaryOp::Index, lhs: input, rhs: v48, out: v58 },
            Operation::Binary { op: BinaryOp::Index, lhs: weight, rhs: v49, out: v59 },
            Operation::Binary { op: BinaryOp::Mul, lhs: v58, rhs: v59, out: v58 },
            Operation::Binary { op: BinaryOp::Add, lhs: v60, rhs: v58, out: v60 },
            Operation::EndBlock,
            Operation::EndBlock,
            Operation::EndBlock,
            Operation::EndBlock,
            Operation::EndBlock,
            Operation::IndexAssign { index: Variable::Id, value: v60, out: output },
        ];
        proof {
            assert(ops@ =~= kernel_accumulate_ops(base, input, weight, bias, output, item));
        }
        scope.register_all(ops);
    }

    /// Expands the transposed-convolution kernel into `scope`: declares its 75
    /// locals after those already there and appends its operations, reading the
    /// arrays `input`, `weight` and `bias` and writing `output`.
    pub fn expand_scope(
        scope: &mut CubeContext,
        input: Variable,
        weight: Variable,
        bias: Variable,
        output: Variable,
        item: Item,
    )
        requires
            old(scope).locals.len() + 75 <= u32::MAX,
        ensures
            final(scope).locals@ == old(scope).locals@ + kernel_locals(item),
            final(scope).operations@ == old(scope).operations@ + kernel_ops(
                old(scope).locals.len() as u32,
                input,
                weight,
                bias,
                output,
                item,
            ),
            final(scope).written@ == old(scope).written@,
            !(input is Local) && !(weight is Local) && !(bias is Local) && !(output is Local)
                ==> forall|j: int|
                old(scope).operations.len() <= j < final(scope).operations.len()
                    ==> operation_declared(#[trigger] final(scope).operations@[j], final(scope).locals@)
                    && conversion_explicit(final(scope).operations@[j]),
    {
        let ghost before = scope.locals@;
        let ghost ops_before = scope.operations@;
        let u = Item::new(Elem::UInt);
        let i = Item::new(Elem::Int(IntKind::I32));
        let b = Item::new(Elem::Bool);
        let items = vec![u, u, u, u, u, u, u, u, u, u, u, u, u, u, u, u, u, u, u, u, u, u, u, u, i, i, u, u, u, u, u, u, u, u, u, u, u, i, i, u, i, i, i, i, u, u, u, u, u, u, u, u, u, u, u, u, u, u, item, item, item, u, u, u, u, u, u, u, u, b, b, b, u, u, u];
        proof {
            assert(items@ =~= kernel_locals(item));
        }
        let base = scope.create_locals(items);
        let ghost ops0 = scope.operations@;
        Self::register_kernel_metadata(scope, base, input, weight, output);
        Self::register_kernel_position(scope, base);
        Self::register_kernel_window(scope, base);
        Self::register_kernel_accumulate(scope, base, input, weight, bias, output, item);
        proof {
            assert(scope.operations@ =~= ops0 + kernel_ops(base, input, weight, bias, output, item));
            if !(input is Local) && !(weight is Local) && !(bias is Local) && !(output is Local) {
                lemma_kernel_ops_well_formed(base, input, weight, bias, output, item, before);
                let ops = kernel_ops(base, input, weight, bias, output, item);
                assert forall|j: int|
                    ops_before.len() <= j < scope.operations.len() implies operation_declared(
                    #[trigger] scope.operations@[j],
                    scope.locals@,
                ) && conversion_explicit(scope.operations@[j]) by {
                    assert(scope.operations@[j] == ops[j - ops_before.len()]);
                }
            }
        }
    }
}

impl Conv2dTransposeEagerKernel {
    /// Compiles the kernel: a root scope that records the output as written by
    /// the kernel and holds the expansion over input arrays 0 (input), 1
    /// (weight) and 2 (bias) and output array 0; the bindings are those three
    /// read-only arrays of the kernel's item, then the seven unsigned scalars
    /// (strides, dilations, paddings, groups), and one output array.
    pub fn compile(&self) -> (r: KernelDefinition)
        ensures
            r.inputs@ == seq![
                InputInfo::Array { item: self.item, visibility: Visibility::Read },
                InputInfo::Array { item: self.item, visibility: Visibility::Read },
                InputInfo::Array { item: self.item, visibility: Visibility::Read },
                InputInfo::Scalar { elem: Elem::UInt, size: 7 },
            ],
            r.outputs@ == seq![OutputInfo::Array { item: self.item }],
            r.scope.locals@ == kernel_locals(self.item),
            r.scope.operations@ == kernel_ops(
                0,
                Variable::GlobalInputArray(0, self.item),
                Variable::GlobalInputArray(1, self.item),
                Variable::GlobalInputArray(2, self.item),
                Variable::GlobalOutputArray(0, self.item),
                self.item,
            ),
            r.scope.written@ == seq![Variable::GlobalOutputArray(0, self.item)],
            forall|j: int|
                0 <= j < r.scope.operations.len() ==> operation_declared(
                    #[trigger] r.scope.operations@[j],
                    r.scope.locals@,
                ) && conversion_explicit(r.scope.operations@[j]),
    {
        let item = self.item;
        let mut scope = CubeContext::root();
        let input = Variable::GlobalInputArray(0, item);
        let weight = Variable::GlobalInputArray(1, item);
        let bias = Variable::GlobalInputArray(2, item);
        let output = Variable::GlobalOutputArray(0, item);
        scope.write_global_custom(output);
        Conv2dTransposeComputeShader::expand_scope(&mut scope, input, weight, bias, output, item);
        proof {
            assert(scope.locals@ =~= kernel_locals(item));
            assert(scope.operations@ =~= kernel_ops(0, input, weight, bias, output, item));
        }
        let input_info = InputInfo::Array { item, visibility: Visibility::Read };
        let weight_info = InputInfo::Array { item, visibility: Visibility::Read };
        let bias_info = InputInfo::Array { item, visibility: Visibility::Read };
        let scalars = InputInfo::Scalar { elem: Elem::UInt, size: 7 };
        let output_info = OutputInfo::Array { item };
        KernelDefinition {
            inputs: vec![input_info, weight_info, bias_info, scalars],
            outputs: vec![output_info],
            scope,
        }
    }
}

#[verifier::rlimit(80)]
proof fn lemma_metadata_ops_well_formed(
    base: u32,
    input: Variable,
    weight: Variable,
    bias: Variable,
    output: Variable,
    item: Item,
    before: Seq<Item>,
)
    requires
        before.len() == base,
        base + 75 <= u32::MAX,
        !(input is Local),
        !(weight is Local),
        !(bias is Local),
        !(output is Local),
    ensures
        forall|j: int|
            0 <= j < kernel_metadata_ops(base, input, weight, output).len() ==> operation_declared(
                #[trigger] kernel_metadata_ops(base, input, weight, output)[j],
                before + kernel_locals(item),
            ) && conversion_explicit(kernel_metadata_ops(base, input, weight, output)[j]),
{
    let locals = before + kernel_locals(item);
    assert forall|k: int| 0 <= k < 75 implies #[trigger] locals[base + k] == kernel_locals(item)[k] by {
    }
}

#[verifier::rlimit(80)]
proof fn lemma_position_ops_well_formed(
    base: u32,
    input: Variable,
    weight: Variable,
    bias: Variable,
    output: Variable,
    item: Item,
    before: Seq<Item>,
)
    requires
        before.len() == base,
        base + 75 <= u32::MAX,
        !(input is Local),
        !(weight is Local),
        !(bias is Local),
        !(output is Local),
    ensures
        forall|j: int|
            0 <= j < kernel_position_ops(base).len() ==> operation_declared(
                #[trigger] kernel_position_ops(base)[j],
                before + kernel_locals(item),
            ) && conversion_explicit(kernel_position_ops(base)[j]),
{
    let locals = before + kernel_locals(item);
    assert forall|k: int| 0 <= k < 75 implies #[trigger] locals[base + k] == kernel_locals(item)[k] by {
    }
}

#[verifier::rlimit(80)]
proof fn lemma_window_ops_well_formed(
    base: u32,
    input: Variable,
    weight: Variable,
    bias: Variable,
    output: Variable,
    item: Item,
    before: Seq<Item>,
)
    requires
        before.len() == base,
        base + 75 <= u32::MAX,
        !(input is Local),
        !(weight is Local),
        !(bias is Local),
        !(output is Local),
    ensures
        forall|j: int|
            0 <= j < kernel_window_ops(base).len() ==> operation_declared(
                #[trigger] kernel_window_ops(base)[j],
                before + kernel_locals(item),
            ) && conversion_explicit(kernel_window_ops(base)[j]),
{
    let locals = before + kernel_locals(item);
    assert forall|k: int| 0 <= k < 75 implies #[trigger] locals[base + k] == kernel_locals(item)[k] by {
    }
}

#[verifier::rlimit(80)]
proof fn lemma_head_ops_well_formed(
    base: u32,
    input: Variable,
    weight: Variable,
    bias: Variable,
    output: Variable,
    item: Item,
    before: Seq<Item>,
)
    requires
        before.len() == base,
        base + 75 <= u32::MAX,
        !(input is Local),
        !(weight is Local),
        !(bias is Local),
        !(output is Local),
    ensures
        forall|j: int|
            0 <= j < kernel_accumulate_head_ops(base, bias, item).len() ==> operation_declared(
                #[trigger] kernel_accumulate_head_ops(base, bias, item)[j],
                before + kernel_locals(item),
            ) && conversion_explicit(kernel_accumulate_head_ops(base, bias, item)[j]),
{
    let locals = before + kernel_locals(item);
    assert forall|k: int| 0 <= k < 75 implies #[trigger] locals[base + k] == kernel_locals(item)[k] by {
    }
}

#[verifier::rlimit(80)]
proof fn lemma_loops_ops_well_formed(
    base: u32,
    input: Variable,
    weight: Variable,
    bias: Variable,
    output: Variable,
    item: Item,
    before: Seq<Item>,
)
    requires
        before.len() == base,
        base + 75 <= u32::MAX,
        !(input is Local),
        !(weight is Local),
        !(bias is Local),
        !(output is Local),
    ensures
        forall|j: int|
            0 <= j < kernel_loop_ops(base, input, weight, output, item).len() ==> operation_declared(
                #[trigger] kernel_loop_ops(base, input, weight, output, item)[j],
                before + kernel_locals(item),
            ) && conversion_explicit(kernel_loop_ops(base, input, weight, output, item)[j]),
{
    let locals = before + kernel_locals(item);
    assert forall|k: int| 0 <= k < 75 implies #[trigger] locals[base + k] == kernel_locals(item)[k] by {
    }
}

/// Every local an operation of the kernel names is declared, after the locals
/// already there, with the item the operation gives it, and every value moved
/// between element types is moved by a `Cast`.
pub proof fn lemma_kernel_ops_well_formed(
    base: u32,
    input: Variable,
    weight: Variable,
    bias: Variable,
    output: Variable,
    item: Item,
    before: Seq<Item>,
)
    requires
        before.len() == base,
        base + 75 <= u32::MAX,
        !(input is Local),
        !(weight is Local),
        !(bias is Local),
        !(output is Local),
    ensures
        forall|j: int|
            0 <= j < kernel_ops(base, input, weight, bias, output, item).len() ==> operation_declared(
                #[trigger] kernel_ops(base, input, weight, bias, output, item)[j],
                before + kernel_locals(item),
            ) && conversion_explicit(kernel_ops(base, input, weight, bias, output, item)[j]),
{
    let a = kernel_metadata_ops(base, input, weight, output);
    let b = kernel_position_ops(base);
    let c = kernel_window_ops(base);
    let d = kernel_accumulate_head_ops(base, bias, item);
    let e = kernel_loop_ops(base, input, weight, output, item);
    lemma_metadata_ops_well_formed(base, input, weight, bias, output, item, before);
    lemma_position_ops_well_formed(base, input, weight, bias, output, item, before);
    lemma_window_ops_well_formed(base, input, weight, bias, output, item, before);
    lemma_head_ops_well_formed(base, input, weight, bias, output, item, before);
    lemma_loops_ops_well_formed(base, input, weight, bias, output, item, before);
    let ops = kernel_ops(base, input, weight, bias, output, item);
    assert(ops == a + b + c + (d + e));
    assert forall|j: int| 0 <= j < ops.len() implies operation_declared(
        #[trigger] ops[j],
        before + kernel_locals(item),
    ) && conversion_explicit(ops[j]) by {
        let la = a.len() as int;
        let lb = b.len() as int;
        let lc = c.len() as int;
        let ld = d.len() as int;
        if j < la {
            assert(ops[j] == a[j]);
        } else if j < la + lb {
            assert(ops[j] == b[j - la]);
        } else if j < la + lb + lc {
            assert(ops[j] == c[j - la - lb]);
        } else if j < la + lb + lc + ld {
            assert(ops[j] == d[j - la - lb - lc]);
        } else {
            assert(ops[j] == e[j - la - lb - lc - ld]);
        }
    }
}

/// Locals 0 to 23 hold the strides and the lengths of the input, the output
/// and the weight, in that order.
pub open spec fn metadata_loaded(
    st: KernelState,
    base: u32,
    launch: Launch,
    input: Variable,
    weight: Variable,
    output: Variable,
) -> bool {
    &&& st.locals[base + 0] == Value::Num(launch.tensors[input].strides@[0] as int)
    &&& st.locals[base + 1] == Value::Num(launch.tensors[input].strides@[1] as int)
    &&& st.locals[base + 2] == Value::Num(launch.tensors[input].strides@[2] as int)
    &&& st.locals[base + 3] == Value::Num(launch.tensors[input].strides@[3] as int)
    &&& st.locals[base + 4] == Value::Num(launch.tensors[input].shape@[0] as int)
    &&& st.locals[base + 5] == Value::Num(launch.tensors[input].shape@[1] as int)
    &&& st.locals[base + 6] == Value::Num(launch.tensors[input].shape@[2] as int)
    &&& st.locals[base + 7] == Value::Num(launch.tensors[input].shape@[3] as int)
    &&& st.locals[base + 8] == Value::Num(launch.tensors[output].strides@[0] as int)
    &&& st.locals[base + 9] == Value::Num(launch.tensors[output].strides@[1] as int)
    &&& st.locals[base + 10] == Value::Num(launch.tensors[output].strides@[2] as int)
    &&& st.locals[base + 11] == Value::Num(launch.tensors[output].strides@[3] as int)
    &&& st.locals[base + 12] == Value::Num(launch.tensors[output].shape@[0] as int)
    &&& st.locals[base + 13] == Value::Num(launch.tensors[output].shape@[1] as int)
    &&& st.locals[base + 14] == Value::Num(launch.tensors[output].shape@[2] as int)
    &&& st.locals[base + 15] == Value::Num(launch.tensors[output].shape@[3] as int)
    &&& st.locals[base + 16] == Value::Num(launch.tensors[weight].strides@[0] as int)
    &&& st.locals[base + 17] == Value::Num(launch.tensors[weight].strides@[1] as int)
    &&& st.locals[base + 18] == Value::Num(launch.tensors[weight].strides@[2] as int)
    &&& st.locals[base + 19] == Value::Num(launch.tensors[weight].strides@[3] as int)
    &&& st.locals[base + 20] == Value::Num(launch.tensors[weight].shape@[0] as int)
    &&& st.locals[base + 21] == Value::Num(launch.tensors[weight].shape@[1] as int)
    &&& st.locals[base + 22] == Value::Num(launch.tensors[weight].shape@[2] as int)
    &&& st.locals[base + 23] == Value::Num(launch.tensors[weight].shape@[3] as int)
}

/// Running the metadata reads loads the metadata.
#[verifier::rlimit(80)]
proof fn lemma_run_metadata(
    base: u32,
    input: Variable,
    weight: Variable,
    output: Variable,
    launch: Launch,
    st: KernelState,
)
    requires
        base + 75 <= u32::MAX,
    ensures
        straight(kernel_metadata_ops(base, input, weight, output)),
        metadata_loaded(
            run(kernel_metadata_ops(base, input, weight, output), launch, st),
            base,
            launch,
            input,
            weight,
            output,
        ),
        run(kernel_metadata_ops(base, input, weight, output), launch, st).stores == st.stores,
{
    reveal_with_fuel(run, 30);
}

/// Locals 24 to 35 hold the signed strides, the output coordinates of the
/// invocation, the group of its output channel, the channel in that group and
/// the group's range of input channels.
pub open spec fn position_loaded(
    st: KernelState,
    base: u32,
    launch: Launch,
    weight: Variable,
    output: Variable,
) -> bool {
    let o = launch.tensors[output];
    let w = launch.tensors[weight];
    let id = launch.id;
    let oc_out = (id / (o.strides@[1] as int)) % (o.shape@[1] as int);
    let k = oc_out / (w.shape@[1] as int);
    let g = k % launch.scalars[6];
    let width = (w.shape@[0] as int) / launch.scalars[6];
    &&& st.locals[base + 24] == Value::Num(launch.scalars[0])
    &&& st.locals[base + 25] == Value::Num(launch.scalars[1])
    &&& st.locals[base + 28] == Value::Num((id / (o.strides@[0] as int)) % (o.shape@[0] as int))
    &&& st.locals[base + 26] == Value::Num(oc_out)
    &&& st.locals[base + 29] == Value::Num((id / (o.strides@[2] as int)) % (o.shape@[2] as int))
    &&& st.locals[base + 30] == Value::Num((id / (o.strides@[3] as int)) % (o.shape@[3] as int))
    &&& st.locals[base + 31] == Value::Num(k)
    &&& st.locals[base + 32] == Value::Num(g)
    &&& st.locals[base + 27] == Value::Num(oc_out - w.shape@[1] * g)
    &&& st.locals[base + 35] == Value::Num(width)
    &&& st.locals[base + 33] == Value::Num(g * width)
    &&& st.locals[base + 34] == Value::Num(g * width + width)
}

/// Running the position operations after the metadata reads computes the
/// position values.
#[verifier::rlimit(80)]
proof fn lemma_run_position(
    base: u32,
    input: Variable,
    weight: Variable,
    output: Variable,
    launch: Launch,
    st: KernelState,
)
    requires
        base + 75 <= u32::MAX,
        metadata_loaded(st, base, launch, input, weight, output),
    ensures
        straight(kernel_position_ops(base)),
        metadata_loaded(run(kernel_position_ops(base), launch, st), base, launch, input, weight, output),
        position_loaded(run(kernel_position_ops(base), launch, st), base, launch, weight, output),
        run(kernel_position_ops(base), launch, st).stores == st.stores,
{
    reveal_with_fuel(run, 20);
}

/// Locals 38 and 44 to 47 hold the constant one and the windows of input rows
/// and columns the invocation scans.
pub open spec fn window_loaded(
    st: KernelState,
    base: u32,
    launch: Launch,
    input: Variable,
    weight: Variable,
    output: Variable,
) -> bool {
    let o = launch.tensors[output];
    let w = launch.tensors[weight];
    let x = launch.tensors[input];
    let id = launch.id;
    let n_h = (id / (o.strides@[2] as int)) % (o.shape@[2] as int) + launch.scalars[4];
    let n_w = (id / (o.strides@[3] as int)) % (o.shape@[3] as int) + launch.scalars[5];
    &&& st.locals[base + 38] == Value::Num(1)
    &&& st.locals[base + 44] == Value::Num(
        window_start(n_h, w.shape@[2] as int, launch.scalars[0], launch.scalars[2]),
    )
    &&& st.locals[base + 46] == Value::Num(
        window_end(n_h, w.shape@[2] as int, launch.scalars[0], launch.scalars[2], x.shape@[2] as int),
    )
    &&& st.locals[base + 45] == Value::Num(
        window_start(n_w, w.shape@[3] as int, launch.scalars[1], launch.scalars[3]),
    )
    &&& st.locals[base + 47] == Value::Num(
        window_end(n_w, w.shape@[3] as int, launch.scalars[1], launch.scalars[3], x.shape@[3] as int),
    )
}

/// Running the window operations after the position operations computes the
/// windows.
#[verifier::rlimit(80)]
proof fn lemma_run_window(
    base: u32,
    input: Variable,
    weight: Variable,
    output: Variable,
    launch: Launch,
    st: KernelState,
)
    requires
        base + 75 <= u32::MAX,
        metadata_loaded(st, base, launch, input, weight, output),
        position_loaded(st, base, launch, weight, output),
    ensures
        straight(kernel_window_ops(base)),
        metadata_loaded(run(kernel_window_ops(base), launch, st), base, launch, input, weight, output),
        position_loaded(run(kernel_window_ops(base), launch, st), base, launch, weight, output),
        window_loaded(run(kernel_window_ops(base), launch, st), base, launch, input, weight, output),
        run(kernel_window_ops(base), launch, st).stores == st.stores,
{
    reveal_with_fuel(run, 32);
}

/// Locals 50, 55, 60, 63 and 65 hold the input offset of the batch, the weight
/// offset of the channel in the group, the sum started at the bias of the
/// output channel, and the padded output row and column.
pub open spec fn head_loaded(
    st: KernelState,
    base: u32,
    launch: Launch,
    input: Variable,
    weight: Variable,
    bias: Variable,
    output: Variable,
) -> bool {
    let o = launch.tensors[output];
    let w = launch.tensors[weight];
    let x = launch.tensors[input];
    let id = launch.id;
    let oc_out = (id / (o.strides@[1] as int)) % (o.shape@[1] as int);
    let g = (oc_out / (w.shape@[1] as int)) % launch.scalars[6];
    &&& st.locals[base + 50] == Value::Num(
        (id / (o.strides@[0] as int)) % (o.shape@[0] as int) * x.strides@[0],
    )
    &&& st.locals[base + 55] == Value::Num((oc_out - w.shape@[1] * g) * w.strides@[1])
    &&& st.locals[base + 60] == Value::Element(Term::Read(bias, oc_out))
    &&& st.locals[base + 63] == Value::Num(
        (id / (o.strides@[2] as int)) % (o.shape@[2] as int) + launch.scalars[4],
    )
    &&& st.locals[base + 65] == Value::Num(
        (id / (o.strides@[3] as int)) % (o.shape@[3] as int) + launch.scalars[5],
    )
}

/// Running the head of the accumulation after the windows fills the head
/// values.
#[verifier::rlimit(80)]
proof fn lemma_run_head(
    base: u32,
    input: Variable,
    weight: Variable,
    bias: Variable,
    output: Variable,
    item: Item,
    launch: Launch,
    st: KernelState,
)
    requires
        base + 75 <= u32::MAX,
        metadata_loaded(st, base, launch, input, weight, output),
        position_loaded(st, base, launch, weight, output),
        window_loaded(st, base, launch, input, weight, output),
    ensures
        straight(kernel_accumulate_head_ops(base, bias, item)),
        ({
            let r = run(kernel_accumulate_head_ops(base, bias, item), launch, st);
            &&& metadata_loaded(r, base, launch, input, weight, output)
            &&& position_loaded(r, base, launch, weight, output)
            &&& window_loaded(r, base, launch, input, weight, output)
            &&& head_loaded(r, base, launch, input, weight, bias, output)
            &&& r.stores == st.stores
        }),
{
    reveal_with_fuel(run, 8);
}

/// The state after the kernel's operations before its loops: the metadata,
/// the output coordinates and group values, the windows and the head of the
/// accumulation.
pub open spec fn prologue_state(
    base: u32,
    input: Variable,
    weight: Variable,
    bias: Variable,
    output: Variable,
    item: Item,
    launch: Launch,
    st: KernelState,
) -> KernelState {
    run(
        kernel_accumulate_head_ops(base, bias, item),
        launch,
        run(
            kernel_window_ops(base),
            launch,
            run(kernel_position_ops(base), launch, run(kernel_metadata_ops(base, input, weight, output), launch, st)),
        ),
    )
}

/// Running the kernel is running its loops from the state after its prologue,
/// in which the prologue's locals hold the metadata of the bound arrays, the
/// output coordinates of the invocation, the group of its output channel and
/// that group's input channels, the windows of rows and columns it scans, and
/// the sum started at the bias of its output channel.
pub proof fn lemma_kernel_prologue(
    base: u32,
    input: Variable,
    weight: Variable,
    bias: Variable,
    output: Variable,
    item: Item,
    launch: Launch,
    st: KernelState,
)
    requires
        base + 75 <= u32::MAX,
    ensures
        run(kernel_ops(base, input, weight, bias, output, item), launch, st) == run(
            kernel_loop_ops(base, input, weight, output, item),
            launch,
            prologue_state(base, input, weight, bias, output, item, launch, st),
        ),
        ({
            let p = prologue_state(base, input, weight, bias, output, item, launch, st);
            &&& metadata_loaded(p, base, launch, input, weight, output)
            &&& position_loaded(p, base, launch, weight, output)
            &&& window_loaded(p, base, launch, input, weight, output)
            &&& head_loaded(p, base, launch, input, weight, bias, output)
            &&& p.stores == st.stores
        }),
{
    let p1 = kernel_metadata_ops(base, input, weight, output);
    let p2 = kernel_position_ops(base);
    let p3 = kernel_window_ops(base);
    let h = kernel_accumulate_head_ops(base, bias, item);
    let l = kernel_loop_ops(base, input, weight, output, item);
    lemma_run_metadata(base, input, weight, output, launch, st);
    let s1 = run(p1, launch, st);
    lemma_run_position(base, input, weight, output, launch, s1);
    let s2 = run(p2, launch, s1);
    lemma_run_window(base, input, weight, output, launch, s2);
    let s3 = run(p3, launch, s2);
    lemma_run_head(base, input, weight, bias, output, item, launch, s3);
    lemma_straight_concat(p1, p2);
    lemma_straight_concat(p1 + p2, p3);
    assert(kernel_ops(base, input, weight, bias, output, item) == ((p1 + p2) + p3) + (h + l));
    lemma_run_concat((p1 + p2) + p3, h + l, launch, st);
    lemma_run_concat(p1 + p2, p3, launch, st);
    lemma_run_concat(p1, p2, launch, st);
    lemma_run_concat(h, l, launch, s3);
}

} // verus!
