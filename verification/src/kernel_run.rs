//! Running the kernel's loops: the invocation's sum is the bias of its
//! output channel plus the products `Conv2dTransposeComputeShader::expand`
//! lists, in that order.
use crate::conv_transpose2d::{
    has_tap, key_before, tap_before, taps_sorted, Conv2dTransposeComputeShader, KernelScalars, Tap,
};
use crate::conv_transpose2d_scope::{
    kernel_loop_ops, kernel_ops, lemma_kernel_prologue, local, metadata_loaded, prologue_state, position_loaded, scalar_item, window_loaded,
};
use crate::window::{
    axis_covered, axis_in_reach, axis_tap, lemma_axis_tap_found, lemma_axis_tap_unique, lemma_window,
    window_end, window_start,
};
use crate::ir::{BinaryOp, Elem, Item, Operation, UnaryOp, Variable};
use crate::semantics::{
    assign, balanced, block_end, lemma_run_block, num, run, run_loop, step, straight,
    term, KernelState, Launch, Term, Value,
};
use vstd::prelude::*;

verus! {

/// One run of the kernel's loops, with what is needed to follow it.
pub struct KernelRun {
    pub shader: Conv2dTransposeComputeShader,
    pub sc: KernelScalars,
    pub id: int,
    pub base: u32,
    pub input: Variable,
    pub weight: Variable,
    pub bias: Variable,
    pub output: Variable,
    pub item: Item,
    pub launch: Launch,
    pub taps: Seq<Tap>,
    pub stores: Seq<(Variable, int, Term)>,
}

/// The block of the loop over input channels.
pub open spec fn ic_body_ops(base: u32, input: Variable, weight: Variable, item: Item) -> Seq<Operation> {
    let u = scalar_item(Elem::UInt);
    let b = scalar_item(Elem::Bool);
    seq![
        Operation::Binary { op: BinaryOp::Mul, lhs: local(base, 72, u), rhs: local(base, 1, u), out: local(base, 51, u) },
        Operation::Binary { op: BinaryOp::Mul, lhs: local(base, 72, u), rhs: local(base, 16, u), out: local(base, 54, u) },
        Operation::RangeLoop { i: local(base, 73, u), start: local(base, 44, u), end: local(base, 46, u) },
        Operation::Binary { op: BinaryOp::Mul, lhs: local(base, 73, u), rhs: Variable::GlobalScalar(0, Elem::UInt), out: local(base, 67, u) },
        Operation::Binary { op: BinaryOp::GreaterEqual, lhs: local(base, 63, u), rhs: local(base, 67, u), out: local(base, 70, b) },
        Operation::Binary { op: BinaryOp::Sub, lhs: local(base, 63, u), rhs: local(base, 67, u), out: local(base, 64, u) },
        Operation::Binary { op: BinaryOp::Modulo, lhs: local(base, 64, u), rhs: Variable::GlobalScalar(2, Elem::UInt), out: local(base, 68, u) },
        Operation::Binary { op: BinaryOp::Equal, lhs: local(base, 68, u), rhs: Variable::ConstantScalar(0, Elem::UInt), out: local(base, 69, b) },
        Operation::Binary { op: BinaryOp::And, lhs: local(base, 70, b), rhs: local(base, 69, b), out: local(base, 71, b) },
        Operation::If { cond: local(base, 71, b) },
        Operation::Binary { op: BinaryOp::Div, lhs: local(base, 64, u), rhs: Variable::GlobalScalar(2, Elem::UInt), out: local(base, 61, u) },
        Operation::Binary { op: BinaryOp::Mul, lhs: local(base, 73, u), rhs: local(base, 2, u), out: local(base, 52, u) },
        Operation::Binary { op: BinaryOp::Mul, lhs: local(base, 61, u), rhs: local(base, 18, u), out: local(base, 56, u) },
        Operation::RangeLoop { i: local(base, 74, u), start: local(base, 45, u), end: local(base, 47, u) },
        Operation::Binary { op: BinaryOp::Mul, lhs: local(base, 74, u), rhs: Variable::GlobalScalar(1, Elem::UInt), out: local(base, 67, u) },
        Operation::Binary { op: BinaryOp::GreaterEqual, lhs: local(base, 65, u), rhs: local(base, 67, u), out: local(base, 70, b) },
        Operation::Binary { op: BinaryOp::Sub, lhs: local(base, 65, u), rhs: local(base, 67, u), out: local(base, 66, u) },
        Operation::Binary { op: BinaryOp::Modulo, lhs: local(base, 66, u), rhs: Variable::GlobalScalar(3, Elem::UInt), out: local(base, 68, u) },
        Operation::Binary { op: BinaryOp::Equal, lhs: local(base, 68, u), rhs: Variable::ConstantScalar(0, Elem::UInt), out: local(base, 69, b) },
        Operation::Binary { op: BinaryOp::And, lhs: local(base, 70, b), rhs: local(base, 69, b), out: local(base, 71, b) },
        Operation::If { cond: local(base, 71, b) },
        Operation::Binary { op: BinaryOp::Div, lhs: local(base, 66, u), rhs: Variable::GlobalScalar(3, Elem::UInt), out: local(base, 62, u) },
        Operation::Binary { op: BinaryOp::Mul, lhs: local(base, 74, u), rhs: local(base, 3, u), out: local(base, 53, u) },
        Operation::Binary { op: BinaryOp::Mul, lhs: local(base, 62, u), rhs: local(base, 19, u), out: local(base, 57, u) },
        Operation::Unary { kind: UnaryOp::Assign, input: local(base, 50, u), out: local(base, 48, u) },
        Operation::Binary { op: BinaryOp::Add, lhs: local(base, 48, u), rhs: local(base, 51, u), out: local(base, 48, u) },
        Operation::Binary { op: BinaryOp::Add, lhs: local(base, 48, u), rhs: local(base, 52, u), out: local(base, 48, u) },
        Operation::Binary { op: BinaryOp::Add, lhs: local(base, 48, u), rhs: local(base, 53, u), out: local(base, 48, u) },
        Operation::Unary { kind: UnaryOp::Assign, input: local(base, 54, u), out: local(base, 49, u) },
        Operation::Binary { op: BinaryOp::Add, lhs: local(base, 49, u), rhs: local(base, 55, u), out: local(base, 49, u) },
        Operation::Binary { op: BinaryOp::Add, lhs: local(base, 49, u), rhs: local(base, 56, u), out: local(base, 49, u) },
        Operation::Binary { op: BinaryOp::Add, lhs: local(base, 49, u), rhs: local(base, 57, u), out: local(base, 49, u) },
        Operation::Binary { op: BinaryOp::Index, lhs: input, rhs: local(base, 48, u), out: local(base, 58, item) },
        Operation::Binary { op: BinaryOp::Index, lhs: weight, rhs: local(base, 49, u), out: local(base, 59, item) },
        Operation::Binary { op: BinaryOp::Mul, lhs: local(base, 58, item), rhs: local(base, 59, item), out: local(base, 58, item) },
        Operation::Binary { op: BinaryOp::Add, lhs: local(base, 60, item), rhs: local(base, 58, item), out: local(base, 60, item) },
        Operation::EndBlock,
        Operation::EndBlock,
        Operation::EndBlock,
        Operation::EndBlock,
    ]
}

/// The block of the loop over input rows.
pub open spec fn ih_body_ops(base: u32, input: Variable, weight: Variable, item: Item) -> Seq<Operation> {
    let u = scalar_item(Elem::UInt);
    let b = scalar_item(Elem::Bool);
    seq![
        Operation::Binary { op: BinaryOp::Mul, lhs: local(base, 73, u), rhs: Variable::GlobalScalar(0, Elem::UInt), out: local(base, 67, u) },
        Operation::Binary { op: BinaryOp::GreaterEqual, lhs: local(base, 63, u), rhs: local(base, 67, u), out: local(base, 70, b) },
        Operation::Binary { op: BinaryOp::Sub, lhs: local(base, 63, u), rhs: local(base, 67, u), out: local(base, 64, u) },
        Operation::Binary { op: BinaryOp::Modulo, lhs: local(base, 64, u), rhs: Variable::GlobalScalar(2, Elem::UInt), out: local(base, 68, u) },
        Operation::Binary { op: BinaryOp::Equal, lhs: local(base, 68, u), rhs: Variable::ConstantScalar(0, Elem::UInt), out: local(base, 69, b) },
        Operation::Binary { op: BinaryOp::And, lhs: local(base, 70, b), rhs: local(base, 69, b), out: local(base, 71, b) },
        Operation::If { cond: local(base, 71, b) },
        Operation::Binary { op: BinaryOp::Div, lhs: local(base, 64, u), rhs: Variable::GlobalScalar(2, Elem::UInt), out: local(base, 61, u) },
        Operation::Binary { op: BinaryOp::Mul, lhs: local(base, 73, u), rhs: local(base, 2, u), out: local(base, 52, u) },
        Operation::Binary { op: BinaryOp::Mul, lhs: local(base, 61, u), rhs: local(base, 18, u), out: local(base, 56, u) },
        Operation::RangeLoop { i: local(base, 74, u), start: local(base, 45, u), end: local(base, 47, u) },
        Operation::Binary { op: BinaryOp::Mul, lhs: local(base, 74, u), rhs: Variable::GlobalScalar(1, Elem::UInt), out: local(base, 67, u) },
        Operation::Binary { op: BinaryOp::GreaterEqual, lhs: local(base, 65, u), rhs: local(base, 67, u), out: local(base, 70, b) },
        Operation::Binary { op: BinaryOp::Sub, lhs: local(base, 65, u), rhs: local(base, 67, u), out: local(base, 66, u) },
        Operation::Binary { op: BinaryOp::Modulo, lhs: local(base, 66, u), rhs: Variable::GlobalScalar(3, Elem::UInt), out: local(base, 68, u) },
        Operation::Binary { op: BinaryOp::Equal, lhs: local(base, 68, u), rhs: Variable::ConstantScalar(0, Elem::UInt), out: local(base, 69, b) },
        Operation::Binary { op: BinaryOp::And, lhs: local(base, 70, b), rhs: local(base, 69, b), out: local(base, 71, b) },
        Operation::If { cond: local(base, 71, b) },
        Operation::Binary { op: BinaryOp::Div, lhs: local(base, 66, u), rhs: Variable::GlobalScalar(3, Elem::UInt), out: local(base, 62, u) },
        Operation::Binary { op: BinaryOp::Mul, lhs: local(base, 74, u), rhs: local(base, 3, u), out: local(base, 53, u) },
        Operation::Binary { op: BinaryOp::Mul, lhs: local(base, 62, u), rhs: local(base, 19, u), out: local(base, 57, u) },
        Operation::Unary { kind: UnaryOp::Assign, input: local(base, 50, u), out: local(base, 48, u) },
        Operation::Binary { op: BinaryOp::Add, lhs: local(base, 48, u), rhs: local(base, 51, u), out: local(base, 48, u) },
        Operation::Binary { op: BinaryOp::Add, lhs: local(base, 48, u), rhs: local(base, 52, u), out: local(base, 48, u) },
        Operation::Binary { op: BinaryOp::Add, lhs: local(base, 48, u), rhs: local(base, 53, u), out: local(base, 48, u) },
        Operation::Unary { kind: UnaryOp::Assign, input: local(base, 54, u), out: local(base, 49, u) },
        Operation::Binary { op: BinaryOp::Add, lhs: local(base, 49, u), rhs: local(base, 55, u), out: local(base, 49, u) },
        Operation::Binary { op: BinaryOp::Add, lhs: local(base, 49, u), rhs: local(base, 56, u), out: local(base, 49, u) },
        Operation::Binary { op: BinaryOp::Add, lhs: local(base, 49, u), rhs: local(base, 57, u), out: local(base, 49, u) },
        Operation::Binary { op: BinaryOp::Index, lhs: input, rhs: local(base, 48, u), out: local(base, 58, item) },
        Operation::Binary { op: BinaryOp::Index, lhs: weight, rhs: local(base, 49, u), out: local(base, 59, item) },
        Operation::Binary { op: BinaryOp::Mul, lhs: local(base, 58, item), rhs: local(base, 59, item), out: local(base, 58, item) },
        Operation::Binary { op: BinaryOp::Add, lhs: local(base, 60, item), rhs: local(base, 58, item), out: local(base, 60, item) },
        Operation::EndBlock,
        Operation::EndBlock,
        Operation::EndBlock,
    ]
}

/// The block run for an input row that a kernel row reaches.
pub open spec fn ih_then_ops(base: u32, input: Variable, weight: Variable, item: Item) -> Seq<Operation> {
    let u = scalar_item(Elem::UInt);
    let b = scalar_item(Elem::Bool);
    seq![
        Operation::Binary { op: BinaryOp::Div, lhs: local(base, 64, u), rhs: Variable::GlobalScalar(2, Elem::UInt), out: local(base, 61, u) },
        Operation::Binary { op: BinaryOp::Mul, lhs: local(base, 73, u), rhs: local(base, 2, u), out: local(base, 52, u) },
        Operation::Binary { op: BinaryOp::Mul, lhs: local(base, 61, u), rhs: local(base, 18, u), out: local(base, 56, u) },
        Operation::RangeLoop { i: local(base, 74, u), start: local(base, 45, u), end: local(base, 47, u) },
        Operation::Binary { op: BinaryOp::Mul, lhs: local(base, 74, u), rhs: Variable::GlobalScalar(1, Elem::UInt), out: local(base, 67, u) },
        Operation::Binary { op: BinaryOp::GreaterEqual, lhs: local(base, 65, u), rhs: local(base, 67, u), out: local(base, 70, b) },
        Operation::Binary { op: BinaryOp::Sub, lhs: local(base, 65, u), rhs: local(base, 67, u), out: local(base, 66, u) },
        Operation::Binary { op: BinaryOp::Modulo, lhs: local(base, 66, u), rhs: Variable::GlobalScalar(3, Elem::UInt), out: local(base, 68, u) },
        Operation::Binary { op: BinaryOp::Equal, lhs: local(base, 68, u), rhs: Variable::ConstantScalar(0, Elem::UInt), out: local(base, 69, b) },
        Operation::Binary { op: BinaryOp::And, lhs: local(base, 70, b), rhs: local(base, 69, b), out: local(base, 71, b) },
        Operation::If { cond: local(base, 71, b) },
        Operation::Binary { op: BinaryOp::Div, lhs: local(base, 66, u), rhs: Variable::GlobalScalar(3, Elem::UInt), out: local(base, 62, u) },
        Operation::Binary { op: BinaryOp::Mul, lhs: local(base, 74, u), rhs: local(base, 3, u), out: local(base, 53, u) },
        Operation::Binary { op: BinaryOp::Mul, lhs: local(base, 62, u), rhs: local(base, 19, u), out: local(base, 57, u) },
        Operation::Unary { kind: UnaryOp::Assign, input: local(base, 50, u), out: local(base, 48, u) },
        Operation::Binary { op: BinaryOp::Add, lhs: local(base, 48, u), rhs: local(base, 51, u), out: local(base, 48, u) },
        Operation::Binary { op: BinaryOp::Add, lhs: local(base, 48, u), rhs: local(base, 52, u), out: local(base, 48, u) },
        Operation::Binary { op: BinaryOp::Add, lhs: local(base, 48, u), rhs: local(base, 53, u), out: local(base, 48, u) },
        Operation::Unary { kind: UnaryOp::Assign, input: local(base, 54, u), out: local(base, 49, u) },
        Operation::Binary { op: BinaryOp::Add, lhs: local(base, 49, u), rhs: local(base, 55, u), out: local(base, 49, u) },
        Operation::Binary { op: BinaryOp::Add, lhs: local(base, 49, u), rhs: local(base, 56, u), out: local(base, 49, u) },
        Operation::Binary { op: BinaryOp::Add, lhs: local(base, 49, u), rhs: local(base, 57, u), out: local(base, 49, u) },
        Operation::Binary { op: BinaryOp::Index, lhs: input, rhs: local(base, 48, u), out: local(base, 58, item) },
        Operation::Binary { op: BinaryOp::Index, lhs: weight, rhs: local(base, 49, u), out: local(base, 59, item) },
        Operation::Binary { op: BinaryOp::Mul, lhs: local(base, 58, item), rhs: local(base, 59, item), out: local(base, 58, item) },
        Operation::Binary { op: BinaryOp::Add, lhs: local(base, 60, item), rhs: local(base, 58, item), out: local(base, 60, item) },
        Operation::EndBlock,
        Operation::EndBlock,
    ]
}

/// The block of the loop over input columns.
pub open spec fn iw_body_ops(base: u32, input: Variable, weight: Variable, item: Item) -> Seq<Operation> {
    let u = scalar_item(Elem::UInt);
    let b = scalar_item(Elem::Bool);
    seq![
        Operation::Binary { op: BinaryOp::Mul, lhs: local(base, 74, u), rhs: Variable::GlobalScalar(1, Elem::UInt), out: local(base, 67, u) },
        Operation::Binary { op: BinaryOp::GreaterEqual, lhs: local(base, 65, u), rhs: local(base, 67, u), out: local(base, 70, b) },
        Operation::Binary { op: BinaryOp::Sub, lhs: local(base, 65, u), rhs: local(base, 67, u), out: local(base, 66, u) },
        Operation::Binary { op: BinaryOp::Modulo, lhs: local(base, 66, u), rhs: Variable::GlobalScalar(3, Elem::UInt), out: local(base, 68, u) },
        Operation::Binary { op: BinaryOp::Equal, lhs: local(base, 68, u), rhs: Variable::ConstantScalar(0, Elem::UInt), out: local(base, 69, b) },
        Operation::Binary { op: BinaryOp::And, lhs: local(base, 70, b), rhs: local(base, 69, b), out: local(base, 71, b) },
        Operation::If { cond: local(base, 71, b) },
        Operation::Binary { op: BinaryOp::Div, lhs: local(base, 66, u), rhs: Variable::GlobalScalar(3, Elem::UInt), out: local(base, 62, u) },
        Operation::Binary { op: BinaryOp::Mul, lhs: local(base, 74, u), rhs: local(base, 3, u), out: local(base, 53, u) },
        Operation::Binary { op: BinaryOp::Mul, lhs: local(base, 62, u), rhs: local(base, 19, u), out: local(base, 57, u) },
        Operation::Unary { kind: UnaryOp::Assign, input: local(base, 50, u), out: local(base, 48, u) },
        Operation::Binary { op: BinaryOp::Add, lhs: local(base, 48, u), rhs: local(base, 51, u), out: local(base, 48, u) },
        Operation::Binary { op: BinaryOp::Add, lhs: local(base, 48, u), rhs: local(base, 52, u), out: local(base, 48, u) },
        Operation::Binary { op: BinaryOp::Add, lhs: local(base, 48, u), rhs: local(base, 53, u), out: local(base, 48, u) },
        Operation::Unary { kind: UnaryOp::Assign, input: local(base, 54, u), out: local(base, 49, u) },
        Operation::Binary { op: BinaryOp::Add, lhs: local(base, 49, u), rhs: local(base, 55, u), out: local(base, 49, u) },
        Operation::Binary { op: BinaryOp::Add, lhs: local(base, 49, u), rhs: local(base, 56, u), out: local(base, 49, u) },
        Operation::Binary { op: BinaryOp::Add, lhs: local(base, 49, u), rhs: local(base, 57, u), out: local(base, 49, u) },
        Operation::Binary { op: BinaryOp::Index, lhs: input, rhs: local(base, 48, u), out: local(base, 58, item) },
        Operation::Binary { op: BinaryOp::Index, lhs: weight, rhs: local(base, 49, u), out: local(base, 59, item) },
        Operation::Binary { op: BinaryOp::Mul, lhs: local(base, 58, item), rhs: local(base, 59, item), out: local(base, 58, item) },
        Operation::Binary { op: BinaryOp::Add, lhs: local(base, 60, item), rhs: local(base, 58, item), out: local(base, 60, item) },
        Operation::EndBlock,
    ]
}

/// The block run for an input column that a kernel column reaches: it adds the product to the sum.
pub open spec fn iw_then_ops(base: u32, input: Variable, weight: Variable, item: Item) -> Seq<Operation> {
    let u = scalar_item(Elem::UInt);
    let b = scalar_item(Elem::Bool);
    seq![
        Operation::Binary { op: BinaryOp::Div, lhs: local(base, 66, u), rhs: Variable::GlobalScalar(3, Elem::UInt), out: local(base, 62, u) },
        Operation::Binary { op: BinaryOp::Mul, lhs: local(base, 74, u), rhs: local(base, 3, u), out: local(base, 53, u) },
        Operation::Binary { op: BinaryOp::Mul, lhs: local(base, 62, u), rhs: local(base, 19, u), out: local(base, 57, u) },
        Operation::Unary { kind: UnaryOp::Assign, input: local(base, 50, u), out: local(base, 48, u) },
        Operation::Binary { op: BinaryOp::Add, lhs: local(base, 48, u), rhs: local(base, 51, u), out: local(base, 48, u) },
        Operation::Binary { op: BinaryOp::Add, lhs: local(base, 48, u), rhs: local(base, 52, u), out: local(base, 48, u) },
        Operation::Binary { op: BinaryOp::Add, lhs: local(base, 48, u), rhs: local(base, 53, u), out: local(base, 48, u) },
        Operation::Unary { kind: UnaryOp::Assign, input: local(base, 54, u), out: local(base, 49, u) },
        Operation::Binary { op: BinaryOp::Add, lhs: local(base, 49, u), rhs: local(base, 55, u), out: local(base, 49, u) },
        Operation::Binary { op: BinaryOp::Add, lhs: local(base, 49, u), rhs: local(base, 56, u), out: local(base, 49, u) },
        Operation::Binary { op: BinaryOp::Add, lhs: local(base, 49, u), rhs: local(base, 57, u), out: local(base, 49, u) },
        Operation::Binary { op: BinaryOp::Index, lhs: input, rhs: local(base, 48, u), out: local(base, 58, item) },
        Operation::Binary { op: BinaryOp::Index, lhs: weight, rhs: local(base, 49, u), out: local(base, 59, item) },
        Operation::Binary { op: BinaryOp::Mul, lhs: local(base, 58, item), rhs: local(base, 59, item), out: local(base, 58, item) },
        Operation::Binary { op: BinaryOp::Add, lhs: local(base, 60, item), rhs: local(base, 58, item), out: local(base, 60, item) },
    ]
}

/// The tests of an input column.
pub open spec fn iw_head_ops(base: u32) -> Seq<Operation> {
    let u = scalar_item(Elem::UInt);
    let b = scalar_item(Elem::Bool);
    seq![
        Operation::Binary { op: BinaryOp::Mul, lhs: local(base, 74, u), rhs: Variable::GlobalScalar(1, Elem::UInt), out: local(base, 67, u) },
        Operation::Binary { op: BinaryOp::GreaterEqual, lhs: local(base, 65, u), rhs: local(base, 67, u), out: local(base, 70, b) },
        Operation::Binary { op: BinaryOp::Sub, lhs: local(base, 65, u), rhs: local(base, 67, u), out: local(base, 66, u) },
        Operation::Binary { op: BinaryOp::Modulo, lhs: local(base, 66, u), rhs: Variable::GlobalScalar(3, Elem::UInt), out: local(base, 68, u) },
        Operation::Binary { op: BinaryOp::Equal, lhs: local(base, 68, u), rhs: Variable::ConstantScalar(0, Elem::UInt), out: local(base, 69, b) },
        Operation::Binary { op: BinaryOp::And, lhs: local(base, 70, b), rhs: local(base, 69, b), out: local(base, 71, b) },
    ]
}

/// The tests of an input row.
pub open spec fn ih_head_ops(base: u32) -> Seq<Operation> {
    let u = scalar_item(Elem::UInt);
    let b = scalar_item(Elem::Bool);
    seq![
        Operation::Binary { op: BinaryOp::Mul, lhs: local(base, 73, u), rhs: Variable::GlobalScalar(0, Elem::UInt), out: local(base, 67, u) },
        Operation::Binary { op: BinaryOp::GreaterEqual, lhs: local(base, 63, u), rhs: local(base, 67, u), out: local(base, 70, b) },
        Operation::Binary { op: BinaryOp::Sub, lhs: local(base, 63, u), rhs: local(base, 67, u), out: local(base, 64, u) },
        Operation::Binary { op: BinaryOp::Modulo, lhs: local(base, 64, u), rhs: Variable::GlobalScalar(2, Elem::UInt), out: local(base, 68, u) },
        Operation::Binary { op: BinaryOp::Equal, lhs: local(base, 68, u), rhs: Variable::ConstantScalar(0, Elem::UInt), out: local(base, 69, b) },
        Operation::Binary { op: BinaryOp::And, lhs: local(base, 70, b), rhs: local(base, 69, b), out: local(base, 71, b) },
    ]
}

/// The offsets of an input channel in the input and in the weight.
pub open spec fn ic_head_ops(base: u32) -> Seq<Operation> {
    let u = scalar_item(Elem::UInt);
    seq![
        Operation::Binary { op: BinaryOp::Mul, lhs: local(base, 72, u), rhs: local(base, 1, u), out: local(base, 51, u) },
        Operation::Binary { op: BinaryOp::Mul, lhs: local(base, 72, u), rhs: local(base, 16, u), out: local(base, 54, u) },
    ]
}

/// The kernel row of an input row and its offsets.
pub open spec fn ih_then_head_ops(base: u32) -> Seq<Operation> {
    let u = scalar_item(Elem::UInt);
    seq![
        Operation::Binary { op: BinaryOp::Div, lhs: local(base, 64, u), rhs: Variable::GlobalScalar(2, Elem::UInt), out: local(base, 61, u) },
        Operation::Binary { op: BinaryOp::Mul, lhs: local(base, 73, u), rhs: local(base, 2, u), out: local(base, 52, u) },
        Operation::Binary { op: BinaryOp::Mul, lhs: local(base, 61, u), rhs: local(base, 18, u), out: local(base, 56, u) },
    ]
}

proof fn lemma_loop_structure(base: u32, input: Variable, weight: Variable, output: Variable, item: Item)
    requires
        base + 75 <= u32::MAX,
    ensures
        straight(iw_head_ops(base)),
        straight(ih_then_head_ops(base)),
        straight(ih_head_ops(base)),
        straight(ic_head_ops(base)),
        straight(Seq::<Operation>::empty()),
        balanced(iw_then_ops(base, input, weight, item)),
        balanced(iw_body_ops(base, input, weight, item)),
        balanced(ih_then_ops(base, input, weight, item)),
        balanced(ih_body_ops(base, input, weight, item)),
        balanced(ic_body_ops(base, input, weight, item)),
        iw_body_ops(base, input, weight, item) == iw_head_ops(base) + (seq![Operation::If { cond: local(base, 71, scalar_item(Elem::Bool)) }]
            + iw_then_ops(base, input, weight, item).push(Operation::EndBlock) + Seq::<Operation>::empty()),
        ih_then_ops(base, input, weight, item) == ih_then_head_ops(base) + (seq![Operation::RangeLoop { i: local(base, 74, scalar_item(Elem::UInt)), start: local(base, 45, scalar_item(Elem::UInt)), end: local(base, 47, scalar_item(Elem::UInt)) }]
            + iw_body_ops(base, input, weight, item).push(Operation::EndBlock) + Seq::<Operation>::empty()),
        ih_body_ops(base, input, weight, item) == ih_head_ops(base) + (seq![Operation::If { cond: local(base, 71, scalar_item(Elem::Bool)) }]
            + ih_then_ops(base, input, weight, item).push(Operation::EndBlock) + Seq::<Operation>::empty()),
        ic_body_ops(base, input, weight, item) == ic_head_ops(base) + (seq![Operation::RangeLoop { i: local(base, 73, scalar_item(Elem::UInt)), start: local(base, 44, scalar_item(Elem::UInt)), end: local(base, 46, scalar_item(Elem::UInt)) }]
            + ih_body_ops(base, input, weight, item).push(Operation::EndBlock) + Seq::<Operation>::empty()),
        kernel_loop_ops(base, input, weight, output, item) == Seq::<Operation>::empty() + (seq![Operation::RangeLoop { i: local(base, 72, scalar_item(Elem::UInt)), start: local(base, 33, scalar_item(Elem::UInt)), end: local(base, 34, scalar_item(Elem::UInt)) }]
            + ic_body_ops(base, input, weight, item).push(Operation::EndBlock) + seq![Operation::IndexAssign { index: Variable::Id, value: local(base, 60, item), out: output }]),
{
    reveal_with_fuel(block_end, 45);
    assert(iw_body_ops(base, input, weight, item) =~= iw_head_ops(base) + (seq![Operation::If { cond: local(base, 71, scalar_item(Elem::Bool)) }]
            + iw_then_ops(base, input, weight, item).push(Operation::EndBlock) + Seq::<Operation>::empty()));
    assert(ih_then_ops(base, input, weight, item) =~= ih_then_head_ops(base) + (seq![Operation::RangeLoop { i: local(base, 74, scalar_item(Elem::UInt)), start: local(base, 45, scalar_item(Elem::UInt)), end: local(base, 47, scalar_item(Elem::UInt)) }]
            + iw_body_ops(base, input, weight, item).push(Operation::EndBlock) + Seq::<Operation>::empty()));
    assert(ih_body_ops(base, input, weight, item) =~= ih_head_ops(base) + (seq![Operation::If { cond: local(base, 71, scalar_item(Elem::Bool)) }]
            + ih_then_ops(base, input, weight, item).push(Operation::EndBlock) + Seq::<Operation>::empty()));
    assert(ic_body_ops(base, input, weight, item) =~= ic_head_ops(base) + (seq![Operation::RangeLoop { i: local(base, 73, scalar_item(Elem::UInt)), start: local(base, 44, scalar_item(Elem::UInt)), end: local(base, 46, scalar_item(Elem::UInt)) }]
            + ih_body_ops(base, input, weight, item).push(Operation::EndBlock) + Seq::<Operation>::empty()));
    assert(kernel_loop_ops(base, input, weight, output, item) =~= Seq::<Operation>::empty() + (seq![Operation::RangeLoop { i: local(base, 72, scalar_item(Elem::UInt)), start: local(base, 33, scalar_item(Elem::UInt)), end: local(base, 34, scalar_item(Elem::UInt)) }]
            + ic_body_ops(base, input, weight, item).push(Operation::EndBlock) + seq![Operation::IndexAssign { index: Variable::Id, value: local(base, 60, item), out: output }]));
}

/// `st` with local `base + 74`, the column index, set to `k`.
pub open spec fn at_column(st: KernelState, base: u32, k: int) -> KernelState {
    assign(st, local(base, 74, scalar_item(Elem::UInt)), Value::Num(k))
}

/// The column tests: local 71 is one exactly when the column `k` held in local
/// 74 does not pass the padded output column and its distance to it is a
/// multiple of the dilation, and local 66 holds that distance.
#[verifier::rlimit(80)]
proof fn lemma_column_head(base: u32, launch: Launch, s: KernelState)
    requires
        base + 75 <= u32::MAX,
    ensures
        ({
            let r = run(iw_head_ops(base), launch, s);
            let n = num(s.locals[base + 65]);
            let k = num(s.locals[base + 74]);
            let st = launch.scalars[1];
            let dl = launch.scalars[3];
            &&& r.stores == s.stores
            &&& forall|j: int|
                j != 67 && j != 70 && j != 66 && j != 68 && j != 69 && j != 71 ==> #[trigger] r.locals[base
                    + j] == s.locals[base + j]
            &&& r.locals[base + 66] == Value::Num(n - k * st)
            &&& r.locals[base + 71] == Value::Num(
                if n >= k * st && (n - k * st) % dl == 0 {
                    1
                } else {
                    0
                },
            )
        }),
{
    reveal_with_fuel(run, 7);
}

/// The block for a reached column adds the product of the input and weight
/// elements at the offsets the locals sum up.
#[verifier::rlimit(80)]
proof fn lemma_column_then(
    base: u32,
    input: Variable,
    weight: Variable,
    item: Item,
    launch: Launch,
    s: KernelState,
)
    requires
        base + 75 <= u32::MAX,
        s.locals[base + 60] is Element,
        s.locals[base + 50] is Num,
        s.locals[base + 51] is Num,
        s.locals[base + 52] is Num,
        s.locals[base + 54] is Num,
        s.locals[base + 55] is Num,
        s.locals[base + 56] is Num,
        s.locals[base + 74] is Num,
    ensures
        ({
            let r = run(iw_then_ops(base, input, weight, item), launch, s);
            &&& r.stores == s.stores
            &&& forall|j: int|
                j != 62 && j != 53 && j != 57 && j != 48 && j != 49 && j != 58 && j != 59 && j != 60
                    ==> #[trigger] r.locals[base + j] == s.locals[base + j]
            &&& r.locals[base + 60] == Value::Element(
                Term::Add(
                    Box::new(term(s.locals[base + 60])),
                    Box::new(
                        Term::Mul(
                            Box::new(
                                Term::Read(
                                    input,
                                    num(s.locals[base + 50]) + num(s.locals[base + 51]) + num(
                                        s.locals[base + 52],
                                    ) + num(s.locals[base + 74]) * num(s.locals[base + 3]),
                                ),
                            ),
                            Box::new(
                                Term::Read(
                                    weight,
                                    num(s.locals[base + 54]) + num(s.locals[base + 55]) + num(
                                        s.locals[base + 56],
                                    ) + num(s.locals[base + 66]) / launch.scalars[3] * num(
                                        s.locals[base + 19],
                                    ),
                                ),
                            ),
                        ),
                    ),
                ),
            )
        }),
{
    reveal_with_fuel(run, 16);
}

/// The sum of `init` and the products `input[t.input_index] * weight[t.weight_index]`
/// of `taps`, added in order.
pub open spec fn accumulate(init: Term, taps: Seq<Tap>, input: Variable, weight: Variable) -> Term
    decreases taps.len(),
{
    if taps.len() == 0 {
        init
    } else {
        Term::Add(
            Box::new(accumulate(init, taps.drop_last(), input, weight)),
            Box::new(
                Term::Mul(
                    Box::new(Term::Read(input, taps.last().input_index as int)),
                    Box::new(Term::Read(weight, taps.last().weight_index as int)),
                ),
            ),
        )
    }
}

/// The first `p` taps come before position `(c, i, w)` and the others do not.
pub open spec fn split_at(taps: Seq<Tap>, p: int, c: int, i: int, w: int) -> bool {
    &&& 0 <= p <= taps.len()
    &&& forall|j: int| 0 <= j < p ==> tap_before(#[trigger] taps[j], c, i, w)
    &&& forall|j: int| p <= j < taps.len() ==> !tap_before(#[trigger] taps[j], c, i, w)
}

/// The tap at position `(c, i, w)` of a sorted list split there is the next
/// one, and the split moves past it.
proof fn lemma_split_hit(taps: Seq<Tap>, p: int, c: int, i: int, w: int, j: int)
    requires
        taps_sorted(taps),
        split_at(taps, p, c, i, w),
        0 <= j < taps.len(),
        taps[j].in_channel == c,
        taps[j].in_row == i,
        taps[j].in_col == w,
    ensures
        j == p,
        split_at(taps, p + 1, c, i, w + 1),
{
    if j < p {
        assert(tap_before(taps[j], c, i, w));
    }
    if j > p {
        assert(tap_before(taps[p], c, i, w));
    }
    assert forall|j2: int| p + 1 <= j2 < taps.len() implies !tap_before(#[trigger] taps[j2], c, i, w + 1) by {
        assert(tap_before(taps[p], taps[j2].in_channel as int, taps[j2].in_row as int, taps[j2].in_col as int));
    }
}

/// A split moves forward over positions no remaining tap has.
proof fn lemma_split_skip(
    taps: Seq<Tap>,
    p: int,
    c: int,
    i: int,
    w: int,
    c2: int,
    i2: int,
    w2: int,
)
    requires
        split_at(taps, p, c, i, w),
        !key_before(c2, i2, w2, c, i, w),
        forall|j: int|
            p <= j < taps.len() && tap_before(#[trigger] taps[j], c2, i2, w2) ==> tap_before(
                taps[j],
                c,
                i,
                w,
            ),
    ensures
        split_at(taps, p, c2, i2, w2),
{
}

impl KernelRun {
    /// The run is of invocation `id` of `shader` with scalars `sc`, the kernel's
    /// locals start at `base`, `input`, `weight` and `output` are bound to the
    /// shader's tensors, and `taps` are the products `expand` lists.
    pub open spec fn ok(self) -> bool {
        &&& self.base + 75 <= u32::MAX
        &&& self.shader.launch_ok(&self.sc)
        &&& 0 <= self.id <= u32::MAX
        &&& self.shader.taps_exactly(&self.sc, self.id, self.taps)
        &&& self.launch.tensors[self.input] == self.shader.input
        &&& self.launch.tensors[self.weight] == self.shader.weight
        &&& self.launch.tensors[self.output] == self.shader.output
        &&& self.launch.scalars.len() == 7
        &&& self.launch.scalars[0] == self.sc.stride[0]
        &&& self.launch.scalars[1] == self.sc.stride[1]
        &&& self.launch.scalars[2] == self.sc.dilation[0]
        &&& self.launch.scalars[3] == self.sc.dilation[1]
        &&& self.launch.scalars[4] == self.sc.padding[0]
        &&& self.launch.scalars[5] == self.sc.padding[1]
        &&& self.launch.scalars[6] == self.sc.groups
        &&& self.launch.id == self.id
    }

    /// The first input column the kernel scans.
    pub open spec fn w_start(self) -> int {
        window_start(
            self.shader.padded_col(&self.sc, self.id),
            self.shader.weight.shape@[3] as int,
            self.sc.stride[1] as int,
            self.sc.dilation[1] as int,
        )
    }

    /// The input column past the last one the kernel scans.
    pub open spec fn w_end(self) -> int {
        window_end(
            self.shader.padded_col(&self.sc, self.id),
            self.shader.weight.shape@[3] as int,
            self.sc.stride[1] as int,
            self.sc.dilation[1] as int,
            self.shader.input.shape@[3] as int,
        )
    }

    /// The first input row the kernel scans.
    pub open spec fn h_start(self) -> int {
        window_start(
            self.shader.padded_row(&self.sc, self.id),
            self.shader.weight.shape@[2] as int,
            self.sc.stride[0] as int,
            self.sc.dilation[0] as int,
        )
    }

    /// The input row past the last one the kernel scans.
    pub open spec fn h_end(self) -> int {
        window_end(
            self.shader.padded_row(&self.sc, self.id),
            self.shader.weight.shape@[2] as int,
            self.sc.stride[0] as int,
            self.sc.dilation[0] as int,
            self.shader.input.shape@[2] as int,
        )
    }

    /// The sum after the first `p` products.
    pub open spec fn sum_at(self, p: int) -> Value {
        Value::Element(
            accumulate(
                Term::Read(self.bias, self.shader.out_coord(self.id, 1)),
                self.taps.take(p),
                self.input,
                self.weight,
            ),
        )
    }

    /// The locals the loops read and do not write hold their prologue values,
    /// and nothing more has been stored.
    pub open spec fn frame(self, s: KernelState) -> bool {
        &&& metadata_loaded(s, self.base, self.launch, self.input, self.weight, self.output)
        &&& position_loaded(s, self.base, self.launch, self.weight, self.output)
        &&& window_loaded(s, self.base, self.launch, self.input, self.weight, self.output)
        &&& s.locals[self.base + 50] == Value::Num(
            self.shader.out_coord(self.id, 0) * self.shader.input.strides@[0],
        )
        &&& s.locals[self.base + 55] == Value::Num(
            self.shader.channel_in_group(&self.sc, self.id) * self.shader.weight.strides@[1],
        )
        &&& s.locals[self.base + 63] == Value::Num(self.shader.padded_row(&self.sc, self.id))
        &&& s.locals[self.base + 65] == Value::Num(self.shader.padded_col(&self.sc, self.id))
        &&& s.stores == self.stores
    }

    /// Input channel `ic` is one of the group's, and input row `ih` reaches the
    /// padded output row through kernel row `kh`, along a covered axis.
    pub open spec fn row_reached(self, ic: int, ih: int, kh: int) -> bool {
        &&& axis_covered(
            self.shader.weight.shape@[2] as int,
            self.sc.stride[0] as int,
            self.sc.dilation[0] as int,
        )
        &&& self.shader.group_of(&self.sc, self.id) * self.shader.group_width(&self.sc) <= ic
            < self.shader.group_of(&self.sc, self.id) * self.shader.group_width(&self.sc)
            + self.shader.group_width(&self.sc)
        &&& axis_tap(
            self.shader.padded_row(&self.sc, self.id),
            ih,
            kh,
            self.shader.input.shape@[2] as int,
            self.shader.weight.shape@[2] as int,
            self.sc.stride[0] as int,
            self.sc.dilation[0] as int,
        )
    }

    /// The state of the column loop at column `k`, after `p` products.
    pub open spec fn column_inv(self, s: KernelState, ic: int, ih: int, kh: int, p: int, k: int) -> bool {
        &&& self.frame(s)
        &&& s.locals[self.base + 51] == Value::Num(ic * self.shader.input.strides@[1])
        &&& s.locals[self.base + 54] == Value::Num(ic * self.shader.weight.strides@[0])
        &&& s.locals[self.base + 52] == Value::Num(ih * self.shader.input.strides@[2])
        &&& s.locals[self.base + 56] == Value::Num(kh * self.shader.weight.strides@[2])
        &&& s.locals[self.base + 60] == self.sum_at(p)
        &&& split_at(self.taps, p, ic, ih, k)
    }
}

/// One run of the column block moves the column loop one column on, adding
/// the next product when the column is reached.
#[verifier::rlimit(80)]
proof fn lemma_column_step(r: KernelRun, s: KernelState, ic: int, ih: int, kh: int, p: int, k: int) -> (p2: int)
    requires
        r.ok(),
        r.column_inv(s, ic, ih, kh, p, k),
        r.row_reached(ic, ih, kh),
        r.w_start() <= k < r.w_end(),
    ensures
        r.column_inv(
            run(iw_body_ops(r.base, r.input, r.weight, r.item), r.launch, at_column(s, r.base, k)),
            ic,
            ih,
            kh,
            p2,
            k + 1,
        ),
{
    let base = r.base;
    let sh = r.shader;
    let sc = r.sc;
    let launch = r.launch;
    let n = sh.padded_col(&sc, r.id);
    let st = sc.stride[1] as int;
    let dl = sc.dilation[1] as int;
    let kw_len = sh.weight.shape@[3] as int;
    let width = sh.input.shape@[3] as int;
    lemma_window(n, kw_len, st, dl, width);
    lemma_loop_structure(base, r.input, r.weight, r.input, r.item);
    let s0 = at_column(s, base, k);
    let h = iw_head_ops(base);
    let t = iw_then_ops(base, r.input, r.weight, r.item);
    let open = Operation::If { cond: local(base, 71, scalar_item(Elem::Bool)) };
    lemma_run_block(h, open, t, Seq::empty(), launch, s0);
    lemma_column_head(base, launch, s0);
    let s6 = run(h, launch, s0);
    let res = run(iw_body_ops(r.base, r.input, r.weight, r.item), launch, s0);
    let reached = n >= k * st && (n - k * st) % dl == 0;
    assert(s0.locals[base + 74] == Value::Num(k));
    assert(s0.locals[base + 65] == s.locals[base + 65]);
    if reached {
        assert(res == run(t, launch, s6));
        lemma_column_then(base, r.input, r.weight, r.item, launch, s6);
        assert(axis_in_reach(n, k, kw_len, st, dl));
        lemma_axis_tap_found(n, k, width, kw_len, st, dl);
        let kw = (n - k * st) / dl;
        assert(sh.contributes_in_window(&sc, r.id, ic, ih, k, kh, kw));
        assert(has_tap(r.taps, ic, ih, k, kh, kw));
        let j = choose|j: int|
            0 <= j < r.taps.len() && #[trigger] r.taps[j].in_channel == ic && r.taps[j].in_row == ih
                && r.taps[j].in_col == k && r.taps[j].kernel_row == kh && r.taps[j].kernel_col == kw;
        lemma_split_hit(r.taps, p, ic, ih, k, j);
        assert(sh.tap_at(&sc, r.id, r.taps[p]));
        assert(r.taps.take(p + 1).drop_last() =~= r.taps.take(p));
        assert(r.taps.take(p + 1).last() == r.taps[p]);
        p + 1
    } else {
        assert(res == s6);
        assert forall|j: int|
            p <= j < r.taps.len() && tap_before(#[trigger] r.taps[j], ic, ih, k + 1) implies tap_before(
            r.taps[j],
            ic,
            ih,
            k,
        ) by {
            let t = r.taps[j];
            if t.in_channel == ic && t.in_row == ih && t.in_col == k {
                assert(sh.tap_at(&sc, r.id, t));
                lemma_axis_tap_unique(n, k, t.kernel_col as int, width, kw_len, st, dl);
            }
        }
        lemma_split_skip(r.taps, p, ic, ih, k, ic, ih, k + 1);
        p
    }
}

/// The row tests: local 71 is one exactly when the row `k` held in local 73
/// does not pass the padded output row and its distance to it is a multiple
/// of the dilation, and local 64 holds that distance.
#[verifier::rlimit(80)]
proof fn lemma_row_head(base: u32, launch: Launch, s: KernelState)
    requires
        base + 75 <= u32::MAX,
    ensures
        ({
            let r = run(ih_head_ops(base), launch, s);
            let n = num(s.locals[base + 63]);
            let k = num(s.locals[base + 73]);
            let st = launch.scalars[0];
            let dl = launch.scalars[2];
            &&& r.stores == s.stores
            &&& forall|j: int|
                j != 67 && j != 70 && j != 64 && j != 68 && j != 69 && j != 71 ==> #[trigger] r.locals[base
                    + j] == s.locals[base + j]
            &&& r.locals[base + 64] == Value::Num(n - k * st)
            &&& r.locals[base + 71] == Value::Num(
                if n >= k * st && (n - k * st) % dl == 0 {
                    1
                } else {
                    0
                },
            )
        }),
{
    reveal_with_fuel(run, 7);
}

/// The start of the block for a reached row: the kernel row and the row's
/// offsets in the input and in the weight.
#[verifier::rlimit(80)]
proof fn lemma_row_then_head(base: u32, launch: Launch, s: KernelState)
    requires
        base + 75 <= u32::MAX,
        s.locals[base + 73] is Num,
    ensures
        ({
            let r = run(ih_then_head_ops(base), launch, s);
            &&& r.stores == s.stores
            &&& forall|j: int| j != 61 && j != 52 && j != 56 ==> #[trigger] r.locals[base + j] == s.locals[base + j]
            &&& r.locals[base + 61] == Value::Num(num(s.locals[base + 64]) / launch.scalars[2])
            &&& r.locals[base + 52] == Value::Num(num(s.locals[base + 73]) * num(s.locals[base + 2]))
            &&& r.locals[base + 56] == Value::Num(
                num(s.locals[base + 64]) / launch.scalars[2] * num(s.locals[base + 18]),
            )
        }),
{
    reveal_with_fuel(run, 4);
}

/// The start of the block for an input channel: its offsets in the input and
/// in the weight.
#[verifier::rlimit(80)]
proof fn lemma_channel_head(base: u32, launch: Launch, s: KernelState)
    requires
        base + 75 <= u32::MAX,
        s.locals[base + 72] is Num,
    ensures
        ({
            let r = run(ic_head_ops(base), launch, s);
            &&& r.stores == s.stores
            &&& forall|j: int| j != 51 && j != 54 ==> #[trigger] r.locals[base + j] == s.locals[base + j]
            &&& r.locals[base + 51] == Value::Num(num(s.locals[base + 72]) * num(s.locals[base + 1]))
            &&& r.locals[base + 54] == Value::Num(num(s.locals[base + 72]) * num(s.locals[base + 16]))
        }),
{
    reveal_with_fuel(run, 3);
}

/// The column loop from column `k` to the end of the window.
proof fn lemma_column_loop(r: KernelRun, s: KernelState, ic: int, ih: int, kh: int, p: int, k: int) -> (p2: int)
    requires
        r.ok(),
        r.column_inv(s, ic, ih, kh, p, k),
        r.row_reached(ic, ih, kh),
        r.w_start() <= k,
    ensures
        r.column_inv(
            run_loop(
                iw_body_ops(r.base, r.input, r.weight, r.item),
                local(r.base, 74, scalar_item(Elem::UInt)),
                k,
                r.w_end(),
                r.launch,
                s,
            ),
            ic,
            ih,
            kh,
            p2,
            if k >= r.w_end() {
                k
            } else {
                r.w_end()
            },
        ),
    decreases r.w_end() - k,
{
    if k >= r.w_end() {
        p
    } else {
        let p1 = lemma_column_step(r, s, ic, ih, kh, p, k);
        let s1 = run(iw_body_ops(r.base, r.input, r.weight, r.item), r.launch, at_column(s, r.base, k));
        lemma_column_loop(r, s1, ic, ih, kh, p1, k + 1)
    }
}

impl KernelRun {
    /// The state of the row loop of input channel `ic` at row `k`, after `p`
    /// products.
    pub open spec fn row_inv(self, s: KernelState, ic: int, p: int, k: int) -> bool {
        &&& self.frame(s)
        &&& s.locals[self.base + 51] == Value::Num(ic * self.shader.input.strides@[1])
        &&& s.locals[self.base + 54] == Value::Num(ic * self.shader.weight.strides@[0])
        &&& s.locals[self.base + 60] == self.sum_at(p)
        &&& split_at(self.taps, p, ic, k, 0)
    }

    /// Input channel `ic` is one of the group's.
    pub open spec fn channel_in_range(self, ic: int) -> bool {
        self.shader.group_of(&self.sc, self.id) * self.shader.group_width(&self.sc) <= ic
            < self.shader.group_of(&self.sc, self.id) * self.shader.group_width(&self.sc)
            + self.shader.group_width(&self.sc)
    }
}

/// One run of the row block moves the row loop one row on, adding the
/// products of the row's reached columns when the row is reached.
#[verifier::rlimit(80)]
proof fn lemma_row_step(r: KernelRun, s: KernelState, ic: int, p: int, k: int) -> (p2: int)
    requires
        r.ok(),
        r.row_inv(s, ic, p, k),
        r.channel_in_range(ic),
        r.h_start() <= k < r.h_end(),
    ensures
        r.row_inv(
            run(
                ih_body_ops(r.base, r.input, r.weight, r.item),
                r.launch,
                assign(s, local(r.base, 73, scalar_item(Elem::UInt)), Value::Num(k)),
            ),
            ic,
            p2,
            k + 1,
        ),
{
    let base = r.base;
    let sh = r.shader;
    let sc = r.sc;
    let launch = r.launch;
    let n = sh.padded_row(&sc, r.id);
    let st = sc.stride[0] as int;
    let dl = sc.dilation[0] as int;
    let kh_len = sh.weight.shape@[2] as int;
    let height = sh.input.shape@[2] as int;
    lemma_window(n, kh_len, st, dl, height);
    lemma_window(
        sh.padded_col(&sc, r.id),
        sh.weight.shape@[3] as int,
        sc.stride[1] as int,
        sc.dilation[1] as int,
        sh.input.shape@[3] as int,
    );
    lemma_loop_structure(base, r.input, r.weight, r.input, r.item);
    let s0 = assign(s, local(base, 73, scalar_item(Elem::UInt)), Value::Num(k));
    let h = ih_head_ops(base);
    let t = ih_then_ops(base, r.input, r.weight, r.item);
    let open = Operation::If { cond: local(base, 71, scalar_item(Elem::Bool)) };
    lemma_run_block(h, open, t, Seq::empty(), launch, s0);
    lemma_row_head(base, launch, s0);
    let s6 = run(h, launch, s0);
    let res = run(ih_body_ops(r.base, r.input, r.weight, r.item), launch, s0);
    let reached = n >= k * st && (n - k * st) % dl == 0;
    assert(s0.locals[base + 73] == Value::Num(k));
    assert(s0.locals[base + 63] == s.locals[base + 63]);
    if reached {
        assert(res == run(t, launch, s6));
        let th = ih_then_head_ops(base);
        let loop_open = Operation::RangeLoop {
            i: local(base, 74, scalar_item(Elem::UInt)),
            start: local(base, 45, scalar_item(Elem::UInt)),
            end: local(base, 47, scalar_item(Elem::UInt)),
        };
        let cb = iw_body_ops(base, r.input, r.weight, r.item);
        lemma_run_block(th, loop_open, cb, Seq::empty(), launch, s6);
        lemma_row_then_head(base, launch, s6);
        let s9 = run(th, launch, s6);
        assert(axis_in_reach(n, k, kh_len, st, dl));
        lemma_axis_tap_found(n, k, height, kh_len, st, dl);
        let kh = (n - k * st) / dl;
        assert(r.row_reached(ic, k, kh));
        let ws = r.w_start();
        assert forall|j: int|
            p <= j < r.taps.len() && tap_before(#[trigger] r.taps[j], ic, k, ws) implies tap_before(
            r.taps[j],
            ic,
            k,
            0,
        ) by {
            let tp = r.taps[j];
            if tp.in_channel == ic && tp.in_row == k {
                assert(sh.tap_at(&sc, r.id, tp));
                lemma_axis_tap_unique(
                    sh.padded_col(&sc, r.id),
                    tp.in_col as int,
                    tp.kernel_col as int,
                    sh.input.shape@[3] as int,
                    sh.weight.shape@[3] as int,
                    sc.stride[1] as int,
                    sc.dilation[1] as int,
                );
            }
        }
        lemma_split_skip(r.taps, p, ic, k, 0, ic, k, ws);
        assert(r.column_inv(s9, ic, k, kh, p, ws));
        let p1 = lemma_column_loop(r, s9, ic, k, kh, p, ws);
        let we = if ws >= r.w_end() {
            ws
        } else {
            r.w_end()
        };
        assert forall|j: int|
            p1 <= j < r.taps.len() && tap_before(#[trigger] r.taps[j], ic, k + 1, 0) implies tap_before(
            r.taps[j],
            ic,
            k,
            we,
        ) by {
            let tp = r.taps[j];
            if tp.in_channel == ic && tp.in_row == k {
                assert(sh.tap_at(&sc, r.id, tp));
                lemma_axis_tap_unique(
                    sh.padded_col(&sc, r.id),
                    tp.in_col as int,
                    tp.kernel_col as int,
                    sh.input.shape@[3] as int,
                    sh.weight.shape@[3] as int,
                    sc.stride[1] as int,
                    sc.dilation[1] as int,
                );
            }
        }
        lemma_split_skip(r.taps, p1, ic, k, we, ic, k + 1, 0);
        p1
    } else {
        assert(res == s6);
        assert forall|j: int|
            p <= j < r.taps.len() && tap_before(#[trigger] r.taps[j], ic, k + 1, 0) implies tap_before(
            r.taps[j],
            ic,
            k,
            0,
        ) by {
            let tp = r.taps[j];
            if tp.in_channel == ic && tp.in_row == k {
                assert(sh.tap_at(&sc, r.id, tp));
                lemma_axis_tap_unique(n, k, tp.kernel_row as int, height, kh_len, st, dl);
            }
        }
        lemma_split_skip(r.taps, p, ic, k, 0, ic, k + 1, 0);
        p
    }
}

/// The row loop of input channel `ic` from row `k` to the end of the window.
proof fn lemma_row_loop(r: KernelRun, s: KernelState, ic: int, p: int, k: int) -> (p2: int)
    requires
        r.ok(),
        r.row_inv(s, ic, p, k),
        r.channel_in_range(ic),
        r.h_start() <= k,
    ensures
        r.row_inv(
            run_loop(
                ih_body_ops(r.base, r.input, r.weight, r.item),
                local(r.base, 73, scalar_item(Elem::UInt)),
                k,
                r.h_end(),
                r.launch,
                s,
            ),
            ic,
            p2,
            if k >= r.h_end() {
                k
            } else {
                r.h_end()
            },
        ),
    decreases r.h_end() - k,
{
    if k >= r.h_end() {
        p
    } else {
        let p1 = lemma_row_step(r, s, ic, p, k);
        let s1 = run(
            ih_body_ops(r.base, r.input, r.weight, r.item),
            r.launch,
            assign(s, local(r.base, 73, scalar_item(Elem::UInt)), Value::Num(k)),
        );
        lemma_row_loop(r, s1, ic, p1, k + 1)
    }
}

impl KernelRun {
    /// The state of the channel loop at input channel `k`, after `p` products.
    pub open spec fn channel_inv(self, s: KernelState, p: int, k: int) -> bool {
        &&& self.frame(s)
        &&& s.locals[self.base + 60] == self.sum_at(p)
        &&& split_at(self.taps, p, k, 0, 0)
    }

    /// The first input channel of the output channel's group.
    pub open spec fn ic_start(self) -> int {
        self.shader.group_of(&self.sc, self.id) * self.shader.group_width(&self.sc)
    }

    /// The input channel past the last one of the group.
    pub open spec fn ic_end(self) -> int {
        self.ic_start() + self.shader.group_width(&self.sc)
    }
}

/// One run of the channel block moves the channel loop one channel on, adding
/// the products of the channel's reached rows and columns.
#[verifier::rlimit(80)]
proof fn lemma_channel_step(r: KernelRun, s: KernelState, p: int, k: int) -> (p2: int)
    requires
        r.ok(),
        r.channel_inv(s, p, k),
        r.ic_start() <= k < r.ic_end(),
    ensures
        r.channel_inv(
            run(
                ic_body_ops(r.base, r.input, r.weight, r.item),
                r.launch,
                assign(s, local(r.base, 72, scalar_item(Elem::UInt)), Value::Num(k)),
            ),
            p2,
            k + 1,
        ),
{
    let base = r.base;
    let sh = r.shader;
    let sc = r.sc;
    let launch = r.launch;
    let n = sh.padded_row(&sc, r.id);
    let st = sc.stride[0] as int;
    let dl = sc.dilation[0] as int;
    let kh_len = sh.weight.shape@[2] as int;
    let height = sh.input.shape@[2] as int;
    lemma_window(n, kh_len, st, dl, height);
    lemma_loop_structure(base, r.input, r.weight, r.input, r.item);
    let s0 = assign(s, local(base, 72, scalar_item(Elem::UInt)), Value::Num(k));
    let h = ic_head_ops(base);
    let rb = ih_body_ops(base, r.input, r.weight, r.item);
    let open = Operation::RangeLoop {
        i: local(base, 73, scalar_item(Elem::UInt)),
        start: local(base, 44, scalar_item(Elem::UInt)),
        end: local(base, 46, scalar_item(Elem::UInt)),
    };
    lemma_run_block(h, open, rb, Seq::empty(), launch, s0);
    assert(s0.locals[base + 72] == Value::Num(k));
    lemma_channel_head(base, launch, s0);
    let s2 = run(h, launch, s0);
    let hs = r.h_start();
    assert forall|j: int|
        p <= j < r.taps.len() && tap_before(#[trigger] r.taps[j], k, hs, 0) implies tap_before(
        r.taps[j],
        k,
        0,
        0,
    ) by {
        let tp = r.taps[j];
        if tp.in_channel == k {
            assert(sh.tap_at(&sc, r.id, tp));
            lemma_axis_tap_unique(n, tp.in_row as int, tp.kernel_row as int, height, kh_len, st, dl);
        }
    }
    lemma_split_skip(r.taps, p, k, 0, 0, k, hs, 0);
    assert(r.row_inv(s2, k, p, hs));
    let p1 = lemma_row_loop(r, s2, k, p, hs);
    let he = if hs >= r.h_end() {
        hs
    } else {
        r.h_end()
    };
    assert forall|j: int|
        p1 <= j < r.taps.len() && tap_before(#[trigger] r.taps[j], k + 1, 0, 0) implies tap_before(
        r.taps[j],
        k,
        he,
        0,
    ) by {
        let tp = r.taps[j];
        if tp.in_channel == k {
            assert(sh.tap_at(&sc, r.id, tp));
            lemma_axis_tap_unique(n, tp.in_row as int, tp.kernel_row as int, height, kh_len, st, dl);
        }
    }
    lemma_split_skip(r.taps, p1, k, he, 0, k + 1, 0, 0);
    p1
}

/// The channel loop from input channel `k` to the end of the group.
proof fn lemma_channel_loop(r: KernelRun, s: KernelState, p: int, k: int) -> (p2: int)
    requires
        r.ok(),
        r.channel_inv(s, p, k),
        r.ic_start() <= k,
    ensures
        r.channel_inv(
            run_loop(
                ic_body_ops(r.base, r.input, r.weight, r.item),
                local(r.base, 72, scalar_item(Elem::UInt)),
                k,
                r.ic_end(),
                r.launch,
                s,
            ),
            p2,
            if k >= r.ic_end() {
                k
            } else {
                r.ic_end()
            },
        ),
    decreases r.ic_end() - k,
{
    if k >= r.ic_end() {
        p
    } else {
        let p1 = lemma_channel_step(r, s, p, k);
        let s1 = run(
            ic_body_ops(r.base, r.input, r.weight, r.item),
            r.launch,
            assign(s, local(r.base, 72, scalar_item(Elem::UInt)), Value::Num(k)),
        );
        lemma_channel_loop(r, s1, p1, k + 1)
    }
}

/// Running the kernel's operations as invocation `id` stores exactly one
/// value: at index `id` of `output`, the bias of the invocation's output
/// channel plus, added in order, the products `taps` lists, which are the
/// products `Conv2dTransposeComputeShader::expand` returns.
pub proof fn lemma_kernel_runs_invocation(r: KernelRun, st: KernelState)
    requires
        r.ok(),
        r.stores == st.stores,
    ensures
        run(kernel_ops(r.base, r.input, r.weight, r.bias, r.output, r.item), r.launch, st).stores
            == st.stores.push(
            (
                r.output,
                r.id,
                accumulate(Term::Read(r.bias, r.shader.out_coord(r.id, 1)), r.taps, r.input, r.weight),
            ),
        ),
{
    let base = r.base;
    let sh = r.shader;
    let sc = r.sc;
    let launch = r.launch;
    lemma_kernel_prologue(base, r.input, r.weight, r.bias, r.output, r.item, launch, st);
    let p0 = prologue_state(base, r.input, r.weight, r.bias, r.output, r.item, launch, st);
    assert(r.taps.take(0) =~= Seq::<Tap>::empty());
    assert(r.frame(p0));
    assert(p0.locals[base + 60] == r.sum_at(0));
    vstd::arithmetic::div_mod::lemma_div_pos_is_pos(sh.weight.shape@[0] as int, sc.groups as int);
    assert forall|j: int| 0 <= j < r.taps.len() implies !tap_before(#[trigger] r.taps[j], r.ic_start(), 0, 0) by {
        assert(sh.tap_at(&sc, r.id, r.taps[j]));
    }
    assert(r.channel_inv(p0, 0, r.ic_start()));
    lemma_loop_structure(base, r.input, r.weight, r.output, r.item);
    let cb = ic_body_ops(base, r.input, r.weight, r.item);
    let open = Operation::RangeLoop {
        i: local(base, 72, scalar_item(Elem::UInt)),
        start: local(base, 33, scalar_item(Elem::UInt)),
        end: local(base, 34, scalar_item(Elem::UInt)),
    };
    let store = seq![Operation::IndexAssign { index: Variable::Id, value: local(base, 60, r.item), out: r.output }];
    lemma_run_block(Seq::empty(), open, cb, store, launch, p0);
    assert(run(Seq::<Operation>::empty(), launch, p0) == p0);
    let p = lemma_channel_loop(r, p0, 0, r.ic_start());
    let q = run_loop(cb, local(base, 72, scalar_item(Elem::UInt)), r.ic_start(), r.ic_end(), launch, p0);
    assert forall|j: int| 0 <= j < r.taps.len() implies #[trigger] r.taps[j] == r.taps[j] && j < p by {
        assert(sh.tap_at(&sc, r.id, r.taps[j]));
        assert(tap_before(r.taps[j], r.ic_end(), 0, 0));
    }
    if p < r.taps.len() {
        assert(r.taps[p] == r.taps[p]);
    }
    assert(r.taps.take(p) =~= r.taps);
    assert(run(store, launch, q) == step(store[0], launch, q)) by {
        reveal_with_fuel(run, 2);
        assert(store.skip(1) =~= Seq::<Operation>::empty());
    }
}

} // verus!
