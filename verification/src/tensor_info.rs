//! Tensor metadata: the shape and the strides of a global array, read by the
//! kernel directly or through metadata operations registered in a context.
use crate::semantics::{eval, step, Launch, KernelState, Value};
use crate::ir::{CubeContext, Elem, ExpandElement, Item, Metadata, Operation, Variable};
use vstd::arithmetic::mul::lemma_mul_inequality;
use vstd::prelude::*;

verus! {

/// Metadata of a tensor as a kernel sees it: the length and the stride (in
/// elements) of every dimension.
pub struct Tensor {
    pub shape: Vec<u32>,
    pub strides: Vec<u32>,
}

impl Tensor {
    /// Both the shape and the strides describe four dimensions.
    pub open spec fn rank4(&self) -> bool {
        self.shape.len() == 4 && self.strides.len() == 4
    }

    /// Offset of element `[a, b, c, d]` of a four-dimensional tensor.
    pub open spec fn offset4(&self, a: int, b: int, c: int, d: int) -> int {
        a * self.strides@[0] + b * self.strides@[1] + c * self.strides@[2] + d * self.strides@[3]
    }

    /// Offset of the last element of a four-dimensional tensor.
    pub open spec fn max_offset4(&self) -> int {
        self.offset4(
            self.shape@[0] - 1,
            self.shape@[1] - 1,
            self.shape@[2] - 1,
            self.shape@[3] - 1,
        )
    }

    /// The sum over the first `k` dimensions of `(length - 1) * stride`.
    pub open spec fn partial_max_offset4(&self, k: int) -> int
        decreases k,
    {
        if k <= 0 {
            0
        } else {
            self.partial_max_offset4(k - 1) + (self.shape@[k - 1] - 1) * self.strides@[k - 1]
        }
    }

    /// Number of elements of a four-dimensional tensor.
    pub open spec fn num_elements4(&self) -> int {
        self.shape@[0] * self.shape@[1] * self.shape@[2] * self.shape@[3]
    }

    /// Row-major strides: the last dimension is dense and each stride is the
    /// product of the lengths of the dimensions after it.
    pub open spec fn contiguous4(&self) -> bool {
        &&& self.rank4()
        &&& self.strides@[3] == 1
        &&& self.strides@[2] == self.shape@[3]
        &&& self.strides@[1] == self.shape@[2] * self.shape@[3]
        &&& self.strides@[0] == self.shape@[1] * self.shape@[2] * self.shape@[3]
    }
}

impl Tensor {
    /// Metadata of a contiguous tensor of the given shape, or `None` where a
    /// stride does not fit in `u32`.
    pub fn new_contiguous(shape: [u32; 4]) -> (r: Option<Tensor>)
        ensures
            r is Some <==> (shape[2] * shape[3] <= u32::MAX && shape[1] * shape[2] * shape[3]
                <= u32::MAX),
            r matches Some(t) ==> t.contiguous4() && t.shape@[0] == shape[0] && t.shape@[1]
                == shape[1] && t.shape@[2] == shape[2] && t.shape@[3] == shape[3],
    {
        assert(shape[2] * shape[3] <= u64::MAX) by (nonlinear_arith)
            requires
                shape[2] <= u32::MAX,
                shape[3] <= u32::MAX,
        ;
        let s2 = shape[2] as u64 * shape[3] as u64;
        if s2 > u32::MAX as u64 {
            return None;
        }
        assert(shape[1] * s2 <= u64::MAX) by (nonlinear_arith)
            requires
                s2 <= u32::MAX,
                shape[1] <= u32::MAX,
        ;
        let s1 = shape[1] as u64 * s2;
        assert(s1 == shape[1] * shape[2] * shape[3]) by (nonlinear_arith)
            requires
                s1 == shape[1] * s2,
                s2 == shape[2] * shape[3],
        ;
        if s1 > u32::MAX as u64 {
            return None;
        }
        Some(
            Tensor {
                shape: vec![shape[0], shape[1], shape[2], shape[3]],
                strides: vec![s1 as u32, s2 as u32, shape[3], 1],
            },
        )
    }

    /// Whether the last element of a four-dimensional tensor lies at an offset
    /// that fits in `u32`.
    pub fn offsets_fit_u32(&self) -> (r: bool)
        requires
            self.rank4(),
        ensures
            r == (self.max_offset4() <= u32::MAX),
    {
        let mut above: u128 = 0;
        let mut below: u128 = 0;
        let mut k: usize = 0;
        while k < 4
            invariant
                self.rank4(),
                0 <= k <= 4,
                above - below == self.partial_max_offset4(k as int),
                above <= k * 0xffff_ffff_ffff_ffff,
                below <= k * 0xffff_ffff,
            decreases 4 - k,
        {
            let len = self.shape[k];
            let st = self.strides[k];
            let ghost prev = self.partial_max_offset4(k as int);
            assert(self.partial_max_offset4(k + 1) == prev + (len - 1) * st);
            if len > 0 {
                assert((len - 1) * st <= 0xffff_ffff_ffff_ffff) by (nonlinear_arith)
                    requires
                        0 <= len - 1 < u32::MAX,
                        st <= u32::MAX,
                ;
                above = above + (len - 1) as u128 * st as u128;
            } else {
                assert((len - 1) * st == -st) by (nonlinear_arith)
                    requires
                        len == 0,
                ;
                below = below + st as u128;
            }
            k = k + 1;
        }
        assert(self.partial_max_offset4(4) == self.max_offset4()) by {
            reveal_with_fuel(Tensor::partial_max_offset4, 5);
        }
        above <= u32::MAX as u128 + below
    }

    /// Offset of element `[a, b, c, d]`, for an element inside a tensor whose
    /// last element lies at an offset that fits in `u32`.
    pub fn index4(&self, a: u32, b: u32, c: u32, d: u32) -> (r: u32)
        requires
            self.rank4(),
            a < self.shape@[0],
            b < self.shape@[1],
            c < self.shape@[2],
            d < self.shape@[3],
            self.max_offset4() <= u32::MAX,
        ensures
            r == self.offset4(a as int, b as int, c as int, d as int),
            r <= self.max_offset4(),
    {
        let s0 = self.strides[0];
        let s1 = self.strides[1];
        let s2 = self.strides[2];
        let s3 = self.strides[3];
        proof {
            lemma_mul_inequality(a as int, self.shape@[0] - 1, s0 as int);
            lemma_mul_inequality(b as int, self.shape@[1] - 1, s1 as int);
            lemma_mul_inequality(c as int, self.shape@[2] - 1, s2 as int);
            lemma_mul_inequality(d as int, self.shape@[3] - 1, s3 as int);
            assert(0 <= a * s0 && 0 <= b * s1 && 0 <= c * s2 && 0 <= d * s3) by (nonlinear_arith);
        }
        let t0 = a as u64 * s0 as u64;
        let t1 = b as u64 * s1 as u64;
        let t2 = c as u64 * s2 as u64;
        let t3 = d as u64 * s3 as u64;
        let sum = t0 + t1 + t2 + t3;
        sum as u32
    }
}

/// Obtain the stride of input at dimension dim
pub fn stride(input: &Tensor, dim: u32) -> (r: u32)
    requires
        dim < input.strides.len(),
    ensures
        r == input.strides@[dim as int],
{
    input.strides[dim as usize]
}

/// Obtain the shape of input at dimension dim
pub fn shape(input: &Tensor, dim: u32) -> (r: u32)
    requires
        dim < input.shape.len(),
    ensures
        r == input.shape@[dim as int],
{
    input.shape[dim as usize]
}

/// `new` is `old` with one more local, the unsigned `out`, and one more
/// operation, the metadata query `query`.
pub open spec fn registers_query(
    old: CubeContext,
    new: CubeContext,
    query: Metadata,
    out: ExpandElement,
) -> bool {
    &&& out.variable == (Variable::Local {
        index: old.locals.len() as u32,
        item: Item { elem: Elem::UInt, vectorization: 1 },
    })
    &&& new.locals@ == old.locals@.push(Item { elem: Elem::UInt, vectorization: 1 })
    &&& new.operations@ == old.operations@.push(Operation::Metadata(query))
    &&& new.written@ == old.written@
}

/// Obtain the stride of input at dimension dim: declares a new unsigned local
/// and registers the metadata query that stores the stride into it; run, the
/// query stores the stride of dimension `dim` of the array bound to `input`.
pub fn stride_expand(context: &mut CubeContext, input: ExpandElement, dim: u32) -> (out:
    ExpandElement)
    requires
        old(context).locals.len() < u32::MAX,
    ensures
        registers_query(
            *old(context),
            *final(context),
            Metadata::Stride {
                dim: Variable::ConstantScalar(dim, Elem::UInt),
                var: input.variable,
                out: out.variable,
            },
            out,
        ),
        forall|launch: Launch, st: KernelState|
            eval(
                out.variable,
                launch,
                #[trigger] step(final(context).operations@.last(), launch, st),
            ) == Value::Num(launch.tensors[input.variable].strides@[dim as int] as int),
{
    let out = context.create_local(Item::new(Elem::UInt));
    context.register(
        Operation::Metadata(
            Metadata::Stride {
                dim: Variable::ConstantScalar(dim, Elem::UInt),
                var: input.variable,
                out: out.variable,
            },
        ),
    );
    out
}

/// Obtain the shape of input at dimension dim: declares a new unsigned local
/// and registers the metadata query that stores the length into it; run, the
/// query stores the length of dimension `dim` of the array bound to `input`.
pub fn shape_expand(context: &mut CubeContext, input: ExpandElement, dim: u32) -> (out:
    ExpandElement)
    requires
        old(context).locals.len() < u32::MAX,
    ensures
        registers_query(
            *old(context),
            *final(context),
            Metadata::Shape {
                dim: Variable::ConstantScalar(dim, Elem::UInt),
                var: input.variable,
                out: out.variable,
            },
            out,
        ),
        forall|launch: Launch, st: KernelState|
            eval(
                out.variable,
                launch,
                #[trigger] step(final(context).operations@.last(), launch, st),
            ) == Value::Num(launch.tensors[input.variable].shape@[dim as int] as int),
{
    let out = context.create_local(Item::new(Elem::UInt));
    context.register(
        Operation::Metadata(
            Metadata::Shape {
                dim: Variable::ConstantScalar(dim, Elem::UInt),
                var: input.variable,
                out: out.variable,
            },
        ),
    );
    out
}

/// From the same context, a stride query and a shape query of the same input
/// and dimension declare the same local and register operations that differ
/// only in their kind.
pub proof fn lemma_stride_and_shape_queries_agree(
    before: CubeContext,
    after_stride: CubeContext,
    after_shape: CubeContext,
    input: ExpandElement,
    dim: u32,
    stride_out: ExpandElement,
    shape_out: ExpandElement,
)
    requires
        registers_query(
            before,
            after_stride,
            Metadata::Stride {
                dim: Variable::ConstantScalar(dim, Elem::UInt),
                var: input.variable,
                out: stride_out.variable,
            },
            stride_out,
        ),
        registers_query(
            before,
            after_shape,
            Metadata::Shape {
                dim: Variable::ConstantScalar(dim, Elem::UInt),
                var: input.variable,
                out: shape_out.variable,
            },
            shape_out,
        ),
    ensures
        stride_out == shape_out,
        after_stride.locals@ == after_shape.locals@,
        after_stride.written@ == after_shape.written@,
        after_stride.operations@.drop_last() == after_shape.operations@.drop_last(),
        after_stride.operations@.last() == Operation::Metadata(
            Metadata::Stride {
                dim: Variable::ConstantScalar(dim, Elem::UInt),
                var: input.variable,
                out: stride_out.variable,
            },
        ),
        after_shape.operations@.last() == Operation::Metadata(
            Metadata::Shape {
                dim: Variable::ConstantScalar(dim, Elem::UInt),
                var: input.variable,
                out: stride_out.variable,
            },
        ),
{
    assert(after_stride.operations@.drop_last() =~= before.operations@);
    assert(after_shape.operations@.drop_last() =~= before.operations@);
}

} // verus!
