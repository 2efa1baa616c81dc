//! What the operations of a kernel compute when one invocation runs them.
//!
//! Integer values are exact mathematical integers; element values (those of
//! the kernel's arrays) are kept as symbolic expressions over the array reads
//! they come from, so the semantics says which elements an invocation combines
//! and how, without computing with them.
use crate::ir::{BinaryOp, Metadata, Operation, Variable};
use crate::tensor_info::Tensor;
use crate::window::trunc_div;
use vstd::prelude::*;

verus! {

/// An element value: element `index` of array `array`, or the product or the
/// sum of two element values.
pub enum Term {
    Read(Variable, int),
    Mul(Box<Term>, Box<Term>),
    Add(Box<Term>, Box<Term>),
}

/// The value of a kernel variable: an integer (booleans are 0 and 1), or an
/// element value.
pub enum Value {
    Num(int),
    Element(Term),
}

/// What an invocation runs against: the metadata of the arrays bound to the
/// kernel, the values of its scalars, and its id.
pub struct Launch {
    pub tensors: Map<Variable, Tensor>,
    pub scalars: Seq<int>,
    pub id: int,
}

/// The state of an invocation: the values of its locals, by index, and the
/// stores it has made, in order, as `(array, index, value)`.
pub struct KernelState {
    pub locals: Map<int, Value>,
    pub stores: Seq<(Variable, int, Term)>,
}

/// The integer of a value (0 for an element value).
pub open spec fn num(v: Value) -> int {
    match v {
        Value::Num(n) => n,
        Value::Element(_) => 0,
    }
}

/// The element value of a value (element 0 of the invocation id for an integer).
pub open spec fn term(v: Value) -> Term {
    match v {
        Value::Element(t) => t,
        Value::Num(_) => Term::Read(Variable::Id, 0),
    }
}

/// The value of a variable.
pub open spec fn eval(v: Variable, launch: Launch, st: KernelState) -> Value {
    match v {
        Variable::Local { index, .. } => st.locals[index as int],
        Variable::ConstantScalar(c, _) => Value::Num(c as int),
        Variable::GlobalScalar(i, _) => Value::Num(launch.scalars[i as int]),
        Variable::Id => Value::Num(launch.id),
        _ => Value::Num(0),
    }
}

/// Whether the variable holds a signed integer.
pub open spec fn is_signed(v: Variable) -> bool {
    match v {
        Variable::Local { item, .. } => item.elem is Int,
        Variable::ConstantScalar(_, elem) => elem is Int,
        Variable::GlobalScalar(_, elem) => elem is Int,
        _ => false,
    }
}

/// The result of a binary operation on the values of `lhs` and `rhs`.
pub open spec fn binary_value(op: BinaryOp, lhs: Variable, a: Value, b: Value) -> Value {
    let x = num(a);
    let y = num(b);
    match op {
        BinaryOp::Add => if a is Element {
            Value::Element(Term::Add(Box::new(term(a)), Box::new(term(b))))
        } else {
            Value::Num(x + y)
        },
        BinaryOp::Sub => Value::Num(x - y),
        BinaryOp::Mul => if a is Element {
            Value::Element(Term::Mul(Box::new(term(a)), Box::new(term(b))))
        } else {
            Value::Num(x * y)
        },
        BinaryOp::Div => Value::Num(
            if is_signed(lhs) {
                trunc_div(x, y)
            } else {
                x / y
            },
        ),
        BinaryOp::Modulo => Value::Num(x % y),
        BinaryOp::Max => Value::Num(
            if x >= y {
                x
            } else {
                y
            },
        ),
        BinaryOp::Min => Value::Num(
            if x <= y {
                x
            } else {
                y
            },
        ),
        BinaryOp::GreaterEqual => Value::Num(
            if x >= y {
                1
            } else {
                0
            },
        ),
        BinaryOp::Equal => Value::Num(
            if x == y {
                1
            } else {
                0
            },
        ),
        BinaryOp::And => Value::Num(
            if x != 0 && y != 0 {
                1
            } else {
                0
            },
        ),
        BinaryOp::Index => Value::Element(Term::Read(lhs, y)),
    }
}

/// The value a metadata query stores: the stride or the length of dimension
/// `dim` of the array bound to `var`.
pub open spec fn metadata_value(m: Metadata, launch: Launch, st: KernelState) -> int {
    match m {
        Metadata::Stride { dim, var, .. } => launch.tensors[var].strides@[num(
            eval(dim, launch, st),
        )] as int,
        Metadata::Shape { dim, var, .. } => launch.tensors[var].shape@[num(
            eval(dim, launch, st),
        )] as int,
    }
}

/// The variable a metadata query stores into.
pub open spec fn metadata_out(m: Metadata) -> Variable {
    match m {
        Metadata::Stride { out, .. } => out,
        Metadata::Shape { out, .. } => out,
    }
}

/// `st` with the value of local `out` set to `v` (other variables are left
/// as they are).
pub open spec fn assign(st: KernelState, out: Variable, v: Value) -> KernelState {
    match out {
        Variable::Local { index, .. } => KernelState {
            locals: st.locals.insert(index as int, v),
            ..st
        },
        _ => st,
    }
}

/// One operation that opens no block.
pub open spec fn step(op: Operation, launch: Launch, st: KernelState) -> KernelState {
    match op {
        Operation::Metadata(m) => assign(
            st,
            metadata_out(m),
            Value::Num(metadata_value(m, launch, st)),
        ),
        Operation::Binary { op, lhs, rhs, out } => assign(
            st,
            out,
            binary_value(op, lhs, eval(lhs, launch, st), eval(rhs, launch, st)),
        ),
        Operation::Unary { input, out, .. } => assign(st, out, eval(input, launch, st)),
        Operation::IndexAssign { index, value, out } => KernelState {
            stores: st.stores.push((out, num(eval(index, launch, st)), term(eval(value, launch, st)))),
            ..st
        },
        _ => st,
    }
}

/// Index in `ops` of the `EndBlock` that closes the block open at `from`,
/// when `depth` more blocks have been opened since; `ops.len()` if there is
/// none.
pub open spec fn block_end(ops: Seq<Operation>, from: int, depth: nat) -> int
    decreases ops.len() - from,
{
    if from < 0 || from >= ops.len() {
        ops.len() as int
    } else {
        match ops[from] {
            Operation::EndBlock => if depth == 0 {
                from
            } else {
                block_end(ops, from + 1, (depth - 1) as nat)
            },
            Operation::RangeLoop { .. } => block_end(ops, from + 1, depth + 1),
            Operation::If { .. } => block_end(ops, from + 1, depth + 1),
            _ => block_end(ops, from + 1, depth),
        }
    }
}

/// The end of the block opened by `ops[0]`, kept inside `1 ..= ops.len()`.
pub open spec fn body_end(ops: Seq<Operation>) -> int {
    let e = block_end(ops, 1, 0);
    if e < 1 {
        1
    } else if e > ops.len() {
        ops.len() as int
    } else {
        e
    }
}

/// The operations after the block opened by `ops[0]` and its `EndBlock`.
pub open spec fn after_block(ops: Seq<Operation>) -> Seq<Operation> {
    if body_end(ops) < ops.len() {
        ops.skip(body_end(ops) + 1)
    } else {
        Seq::empty()
    }
}

/// Runs `ops` in order. A `RangeLoop` runs its block once for each value of
/// its index from `start` up to, not including, `end`; an `If` runs its block
/// when its condition is not zero.
pub open spec fn run(ops: Seq<Operation>, launch: Launch, st: KernelState) -> KernelState
    decreases ops.len(), 0int, 0int,
{
    if ops.len() == 0 {
        st
    } else {
        match ops[0] {
            Operation::RangeLoop { i, start, end } => {
                let body = ops.subrange(1, body_end(ops));
                let lo = num(eval(start, launch, st));
                let hi = num(eval(end, launch, st));
                run(after_block(ops), launch, run_loop(body, i, lo, hi, launch, st))
            },
            Operation::If { cond } => {
                let body = ops.subrange(1, body_end(ops));
                let st2 = if num(eval(cond, launch, st)) != 0 {
                    run(body, launch, st)
                } else {
                    st
                };
                run(after_block(ops), launch, st2)
            },
            _ => run(ops.skip(1), launch, step(ops[0], launch, st)),
        }
    }
}

/// Runs `body` for the index `i` taking each value from `k` up to, not
/// including, `hi`.
pub open spec fn run_loop(
    body: Seq<Operation>,
    i: Variable,
    k: int,
    hi: int,
    launch: Launch,
    st: KernelState,
) -> KernelState
    decreases body.len(), 1int, hi - k,
{
    if k >= hi {
        st
    } else {
        run_loop(body, i, k + 1, hi, launch, run(body, launch, assign(st, i, Value::Num(k))))
    }
}

/// No operation opens a block.
pub open spec fn straight(ops: Seq<Operation>) -> bool {
    forall|j: int| 0 <= j < ops.len() ==> !(#[trigger] ops[j] is RangeLoop) && !(ops[j] is If)
}

/// Every block that `t` opens, `t` closes, and `t` closes no other.
pub open spec fn balanced(t: Seq<Operation>) -> bool {
    block_end(t.push(Operation::EndBlock), 0, 0) == t.len()
}

/// Running operations that open no block, then others, is running the first
/// and then the second.
pub proof fn lemma_run_concat(a: Seq<Operation>, b: Seq<Operation>, launch: Launch, st: KernelState)
    requires
        straight(a),
    ensures
        run(a + b, launch, st) == run(b, launch, run(a, launch, st)),
    decreases a.len(),
{
    if a.len() == 0 {
        assert(a + b =~= b);
    } else {
        assert((a + b)[0] == a[0]);
        assert((a + b).skip(1) =~= a.skip(1) + b);
        assert(straight(a.skip(1))) by {
            assert forall|j: int| 0 <= j < a.skip(1).len() implies !(#[trigger] a.skip(
                1,
            )[j] is RangeLoop) && !(a.skip(1)[j] is If) by {
                assert(a.skip(1)[j] == a[j + 1]);
            }
        }
        lemma_run_concat(a.skip(1), b, launch, step(a[0], launch, st));
    }
}

proof fn lemma_block_end_shift(x: Operation, ys: Seq<Operation>, from: int, d: nat)
    requires
        0 <= from,
    ensures
        block_end(seq![x] + ys, from + 1, d) == block_end(ys, from, d) + 1,
    decreases ys.len() - from,
{
    let xs = seq![x] + ys;
    if from < ys.len() {
        assert(xs[from + 1] == ys[from]);
        match ys[from] {
            Operation::EndBlock => {
                if d > 0 {
                    lemma_block_end_shift(x, ys, from + 1, (d - 1) as nat);
                }
            },
            Operation::RangeLoop { .. } => {
                lemma_block_end_shift(x, ys, from + 1, d + 1);
            },
            Operation::If { .. } => {
                lemma_block_end_shift(x, ys, from + 1, d + 1);
            },
            _ => {
                lemma_block_end_shift(x, ys, from + 1, d);
            },
        }
    }
}

proof fn lemma_block_end_extend(ys: Seq<Operation>, zs: Seq<Operation>, from: int, d: nat)
    requires
        0 <= from,
        block_end(ys, from, d) < ys.len(),
    ensures
        block_end(ys + zs, from, d) == block_end(ys, from, d),
    decreases ys.len() - from,
{
    if from < ys.len() {
        assert((ys + zs)[from] == ys[from]);
        match ys[from] {
            Operation::EndBlock => {
                if d > 0 {
                    lemma_block_end_extend(ys, zs, from + 1, (d - 1) as nat);
                }
            },
            Operation::RangeLoop { .. } => {
                lemma_block_end_extend(ys, zs, from + 1, d + 1);
            },
            Operation::If { .. } => {
                lemma_block_end_extend(ys, zs, from + 1, d + 1);
            },
            _ => {
                lemma_block_end_extend(ys, zs, from + 1, d);
            },
        }
    }
}

/// What a block opened by `open` does to a state: a `RangeLoop` runs `body`
/// for each index value, an `If` runs it when its condition is not zero.
pub open spec fn run_block(open: Operation, body: Seq<Operation>, launch: Launch, st: KernelState) -> KernelState {
    match open {
        Operation::RangeLoop { i, start, end } => run_loop(
            body,
            i,
            num(eval(start, launch, st)),
            num(eval(end, launch, st)),
            launch,
            st,
        ),
        Operation::If { cond } => if num(eval(cond, launch, st)) != 0 {
            run(body, launch, st)
        } else {
            st
        },
        _ => st,
    }
}

/// Running operations `h` that open no block, then a block opened by `open`
/// around the balanced `t`, then `rest`.
pub proof fn lemma_run_block(
    h: Seq<Operation>,
    open: Operation,
    t: Seq<Operation>,
    rest: Seq<Operation>,
    launch: Launch,
    st: KernelState,
)
    requires
        straight(h),
        balanced(t),
        open is RangeLoop || open is If,
    ensures
        run(h + (seq![open] + t.push(Operation::EndBlock) + rest), launch, st) == run(
            rest,
            launch,
            run_block(open, t, launch, run(h, launch, st)),
        ),
{
    let y = seq![open] + t.push(Operation::EndBlock) + rest;
    lemma_run_concat(h, y, launch, st);
    let s = run(h, launch, st);
    let te = t.push(Operation::EndBlock);
    assert(y == seq![open] + (te + rest));
    lemma_block_end_shift(open, te + rest, 0, 0);
    lemma_block_end_extend(te, rest, 0, 0);
    assert(block_end(y, 1, 0) == t.len() + 1);
    assert(y.subrange(1, t.len() as int + 1) =~= t);
    assert(y.skip(t.len() as int + 2) =~= rest);
    assert(y[0] == open);
}

/// Operations that open no block, one after the other, open no block.
pub proof fn lemma_straight_concat(a: Seq<Operation>, b: Seq<Operation>)
    requires
        straight(a),
        straight(b),
    ensures
        straight(a + b),
{
    assert forall|j: int| 0 <= j < (a + b).len() implies !(#[trigger] (a + b)[j] is RangeLoop)
        && !((a + b)[j] is If) by {
        if j < a.len() {
            assert((a + b)[j] == a[j]);
        } else {
            assert((a + b)[j] == b[j - a.len()]);
        }
    }
}

} // verus!
