//! The part of the kernel intermediate representation that tensor metadata
//! queries produce: element types, variables, metadata operations, and the
//! context that collects the operations of a kernel while it is expanded.
use vstd::prelude::*;

verus! {

/// Width of a floating-point element type.
#[derive(Clone, Copy, Debug, PartialEq, Eq, Structural)]
pub enum FloatKind {
    F16,
    BF16,
    F32,
    F64,
}

/// Width of a signed integer element type.
#[derive(Clone, Copy, Debug, PartialEq, Eq, Structural)]
pub enum IntKind {
    I32,
    I64,
}

/// Element type of a kernel variable. The kinds are tags naming a type; no
/// value of the type is held.
#[derive(Clone, Copy, Debug, PartialEq, Eq, Structural)]
pub enum Elem {
    Float(FloatKind),
    Int(IntKind),
    UInt,
    Bool,
}

/// The element type a variable holds.
pub open spec fn elem_of(v: Variable) -> Elem {
    match v {
        Variable::GlobalInputArray(_, item) => item.elem,
        Variable::GlobalOutputArray(_, item) => item.elem,
        Variable::GlobalScalar(_, elem) => elem,
        Variable::Local { item, .. } => item.elem,
        Variable::ConstantScalar(_, elem) => elem,
        Variable::Id => Elem::UInt,
    }
}

/// A local that `v` names is declared in `locals`, with the item `v` gives it.
pub open spec fn variable_declared(v: Variable, locals: Seq<Item>) -> bool {
    match v {
        Variable::Local { index, item } => index < locals.len() && locals[index as int] == item,
        _ => true,
    }
}

/// Every local the operation names is declared in `locals` with the item the
/// operation gives it.
pub open spec fn operation_declared(op: Operation, locals: Seq<Item>) -> bool {
    match op {
        Operation::Metadata(Metadata::Stride { dim, var, out }) => variable_declared(dim, locals)
            && variable_declared(var, locals) && variable_declared(out, locals),
        Operation::Metadata(Metadata::Shape { dim, var, out }) => variable_declared(dim, locals)
            && variable_declared(var, locals) && variable_declared(out, locals),
        Operation::Binary { lhs, rhs, out, .. } => variable_declared(lhs, locals) && variable_declared(
            rhs,
            locals,
        ) && variable_declared(out, locals),
        Operation::Unary { input, out, .. } => variable_declared(input, locals) && variable_declared(
            out,
            locals,
        ),
        Operation::IndexAssign { index, value, out } => variable_declared(index, locals)
            && variable_declared(value, locals) && variable_declared(out, locals),
        Operation::RangeLoop { i, start, end } => variable_declared(i, locals) && variable_declared(
            start,
            locals,
        ) && variable_declared(end, locals),
        Operation::If { cond } => variable_declared(cond, locals),
        Operation::EndBlock => true,
    }
}

/// An `Assign` copies a value between variables of one element type; moving a
/// value to another element type takes a `Cast`.
pub open spec fn conversion_explicit(op: Operation) -> bool {
    match op {
        Operation::Unary { kind, input, out } => kind is Assign ==> elem_of(input) == elem_of(out),
        _ => true,
    }
}

/// Element type with its vectorization factor.
#[derive(Clone, Copy, Debug, PartialEq, Eq, Structural)]
pub struct Item {
    pub elem: Elem,
    pub vectorization: u8,
}

impl Item {
    /// A scalar (vectorization 1) item of the given element type.
    pub fn new(elem: Elem) -> (r: Item)
        ensures
            r == (Item { elem, vectorization: 1 }),
    {
        Item { elem, vectorization: 1 }
    }
}

/// A variable of the kernel: a binding of the kernel, a local, a constant or
/// the invocation id.
#[derive(Clone, Copy, Debug, PartialEq, Eq, Structural)]
pub enum Variable {
    GlobalInputArray(u16, Item),
    GlobalOutputArray(u16, Item),
    GlobalScalar(u16, Elem),
    Local { index: u32, item: Item },
    ConstantScalar(u32, Elem),
    Id,
}

/// Queries of the metadata of a global array: `out` receives the stride or
/// the length of dimension `dim` of `var`.
#[derive(Clone, Copy, Debug, PartialEq, Eq, Structural)]
pub enum Metadata {
    Stride { dim: Variable, var: Variable, out: Variable },
    Shape { dim: Variable, var: Variable, out: Variable },
}

/// Operators with two operands. `Index` reads element `rhs` of array `lhs`.
#[derive(Clone, Copy, Debug, PartialEq, Eq, Structural)]
pub enum BinaryOp {
    Add,
    Sub,
    Mul,
    Div,
    Modulo,
    Max,
    Min,
    GreaterEqual,
    Equal,
    And,
    Index,
}

/// Operators with one operand: a copy, or a conversion to the type of `out`.
#[derive(Clone, Copy, Debug, PartialEq, Eq, Structural)]
pub enum UnaryOp {
    Assign,
    Cast,
}

/// An operation registered in a kernel. Control flow is structured: a
/// `RangeLoop` (running `i` from `start` up to, not including, `end`) or an
/// `If` opens a block that the matching `EndBlock` closes.
#[derive(Clone, Copy, Debug, PartialEq, Eq, Structural)]
pub enum Operation {
    Metadata(Metadata),
    Binary { op: BinaryOp, lhs: Variable, rhs: Variable, out: Variable },
    Unary { kind: UnaryOp, input: Variable, out: Variable },
    IndexAssign { index: Variable, value: Variable, out: Variable },
    RangeLoop { i: Variable, start: Variable, end: Variable },
    If { cond: Variable },
    EndBlock,
}

/// A variable handed out during the expansion of a kernel.
#[derive(Clone, Copy, Debug, PartialEq, Eq, Structural)]
pub struct ExpandElement {
    pub variable: Variable,
}

/// How a kernel may access a global array.
#[derive(Clone, Copy, Debug, PartialEq, Eq, Structural)]
pub enum Visibility {
    Read,
    ReadWrite,
}

/// An input binding of a kernel: a global array, or a group of `size` scalars.
#[derive(Clone, Copy, Debug, PartialEq, Eq, Structural)]
pub enum InputInfo {
    Array { item: Item, visibility: Visibility },
    Scalar { elem: Elem, size: u32 },
}

/// An output binding of a kernel: a global array.
#[derive(Clone, Copy, Debug, PartialEq, Eq, Structural)]
pub enum OutputInfo {
    Array { item: Item },
}

/// Collects the locals and the operations of a kernel while it is expanded.
/// Local `i` is the `i`-th entry of `locals`; operations run in the order of
/// `operations`; `written` lists the global arrays the kernel writes itself.
pub struct CubeContext {
    pub locals: Vec<Item>,
    pub operations: Vec<Operation>,
    pub written: Vec<Variable>,
}

impl CubeContext {
    /// An empty context.
    pub fn root() -> (r: CubeContext)
        ensures
            r.locals@ == Seq::<Item>::empty(),
            r.operations@ == Seq::<Operation>::empty(),
            r.written@ == Seq::<Variable>::empty(),
    {
        CubeContext { locals: Vec::new(), operations: Vec::new(), written: Vec::new() }
    }

    /// Declares a new local of the given item; its index is the number of
    /// locals declared before it.
    pub fn create_local(&mut self, item: Item) -> (r: ExpandElement)
        requires
            old(self).locals.len() < u32::MAX,
        ensures
            r.variable == (Variable::Local { index: old(self).locals.len() as u32, item }),
            final(self).locals@ == old(self).locals@.push(item),
            final(self).operations@ == old(self).operations@,
            final(self).written@ == old(self).written@,
    {
        let index = self.locals.len() as u32;
        self.locals.push(item);
        ExpandElement { variable: Variable::Local { index, item } }
    }

    /// Appends an operation to the kernel.
    pub fn register(&mut self, op: Operation)
        ensures
            final(self).operations@ == old(self).operations@.push(op),
            final(self).locals@ == old(self).locals@,
            final(self).written@ == old(self).written@,
    {
        self.operations.push(op);
    }

    /// Declares the given locals, in order; the first gets the index equal to
    /// the number of locals declared before, which is returned.
    pub fn create_locals(&mut self, items: Vec<Item>) -> (first: u32)
        requires
            old(self).locals.len() + items.len() <= u32::MAX,
        ensures
            first == old(self).locals.len(),
            final(self).locals@ == old(self).locals@ + items@,
            final(self).operations@ == old(self).operations@,
            final(self).written@ == old(self).written@,
    {
        let first = self.locals.len() as u32;
        let mut items = items;
        self.locals.append(&mut items);
        first
    }

    /// Appends the given operations, in order.
    pub fn register_all(&mut self, ops: Vec<Operation>)
        ensures
            final(self).operations@ == old(self).operations@ + ops@,
            final(self).locals@ == old(self).locals@,
            final(self).written@ == old(self).written@,
    {
        let mut ops = ops;
        self.operations.append(&mut ops);
    }

    /// Records that the kernel writes the global array `output` itself.
    pub fn write_global_custom(&mut self, output: Variable)
        ensures
            final(self).written@ == old(self).written@.push(output),
            final(self).locals@ == old(self).locals@,
            final(self).operations@ == old(self).operations@,
    {
        self.written.push(output);
    }
}

} // verus!
