use cube_conv::ir::{CubeContext, Elem, IntKind, ExpandElement, Item, Metadata, Operation, Variable};
use cube_conv::tensor_info::{shape, shape_expand, stride, stride_expand, Tensor};

fn sample() -> Tensor {
    Tensor { shape: vec![2, 3, 4, 5], strides: vec![60, 20, 5, 1] }
}

#[test]
fn stride_reads_each_dimension() {
    let t = sample();
    assert_eq!(stride(&t, 0), 60);
    assert_eq!(stride(&t, 1), 20);
    assert_eq!(stride(&t, 2), 5);
    assert_eq!(stride(&t, 3), 1);
}

#[test]
fn shape_reads_each_dimension() {
    let t = sample();
    assert_eq!(shape(&t, 0), 2);
    assert_eq!(shape(&t, 1), 3);
    assert_eq!(shape(&t, 2), 4);
    assert_eq!(shape(&t, 3), 5);
}

#[test]
fn index4_is_the_strided_offset() {
    let t = sample();
    assert_eq!(t.index4(0, 0, 0, 0), 0);
    assert_eq!(t.index4(1, 2, 3, 4), 60 + 40 + 15 + 4);
    let strided = Tensor { shape: vec![2, 2, 2, 2], strides: vec![1, 7, 100, 3] };
    assert_eq!(strided.index4(1, 1, 1, 1), 111);
}

#[test]
fn new_contiguous_layouts() {
    let t = Tensor::new_contiguous([2, 3, 4, 5]).unwrap();
    assert_eq!(t.shape, vec![2, 3, 4, 5]);
    assert_eq!(t.strides, vec![60, 20, 5, 1]);
    assert!(Tensor::new_contiguous([1, 2, 65536, 65536]).is_none());
    assert!(Tensor::new_contiguous([1, 65536, 256, 256]).is_none());
    assert!(Tensor::new_contiguous([70000, 1, 65535, 65537]).is_some());
}

#[test]
fn offsets_fit_u32_bounds_the_last_element() {
    assert!(sample().offsets_fit_u32());
    let edge = Tensor { shape: vec![2, 1, 1, 1], strides: vec![u32::MAX, 0, 0, 0] };
    assert!(edge.offsets_fit_u32());
    let over = Tensor { shape: vec![2, 1, 1, 2], strides: vec![u32::MAX, 0, 0, 1] };
    assert!(!over.offsets_fit_u32());
    // An empty dimension pulls the last offset down by its stride.
    let empty = Tensor { shape: vec![2, 0, 1, 2], strides: vec![u32::MAX, 5, 0, 1] };
    assert!(empty.offsets_fit_u32());
}

#[test]
fn stride_expand_registers_a_stride_query_into_a_new_local() {
    let mut context = CubeContext::root();
    let input = ExpandElement { variable: Variable::GlobalInputArray(0, Item::new(Elem::UInt)) };
    let first = stride_expand(&mut context, input, 2);
    let uint = Item { elem: Elem::UInt, vectorization: 1 };
    assert_eq!(first.variable, Variable::Local { index: 0, item: uint });
    assert_eq!(context.locals, vec![uint]);
    assert_eq!(
        context.operations,
        vec![Operation::Metadata(Metadata::Stride {
            dim: Variable::ConstantScalar(2, Elem::UInt),
            var: input.variable,
            out: first.variable,
        })]
    );
    let second = stride_expand(&mut context, input, 3);
    assert_eq!(second.variable, Variable::Local { index: 1, item: uint });
    assert_eq!(context.locals.len(), 2);
    assert_eq!(context.operations.len(), 2);
}

#[test]
fn shape_expand_registers_a_shape_query_into_a_new_local() {
    let mut context = CubeContext::root();
    let weight = ExpandElement { variable: Variable::GlobalInputArray(1, Item::new(Elem::UInt)) };
    let local = context.create_local(Item::new(Elem::Int(IntKind::I32)));
    assert_eq!(local.variable, Variable::Local { index: 0, item: Item::new(Elem::Int(IntKind::I32)) });
    let out = shape_expand(&mut context, weight, 0);
    let uint = Item { elem: Elem::UInt, vectorization: 1 };
    assert_eq!(out.variable, Variable::Local { index: 1, item: uint });
    assert_eq!(
        context.operations,
        vec![Operation::Metadata(Metadata::Shape {
            dim: Variable::ConstantScalar(0, Elem::UInt),
            var: weight.variable,
            out: out.variable,
        })]
    );
}

#[test]
fn register_appends_in_order() {
    let mut context = CubeContext::root();
    let a = Variable::GlobalInputArray(0, Item::new(Elem::UInt));
    let op1 = Operation::Metadata(Metadata::Shape {
        dim: Variable::ConstantScalar(1, Elem::UInt),
        var: a,
        out: Variable::Id,
    });
    let op2 = Operation::Metadata(Metadata::Stride {
        dim: Variable::ConstantScalar(1, Elem::UInt),
        var: a,
        out: Variable::Id,
    });
    context.register(op1);
    context.register(op2);
    assert_eq!(context.operations, vec![op1, op2]);
    assert!(context.locals.is_empty());
}
