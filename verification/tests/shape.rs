use lmrs::dtype::DType;
use lmrs::error::Error;
use lmrs::layout::{check_kernel_len, checked_i32, TensorLayout};
use lmrs::shape::Shape;

#[test]
fn shape_basics() {
    let s = Shape::new(&[2, 3, 4]);
    assert_eq!(s.dims(), &[2, 3, 4]);
    assert_eq!(s.rank(), 3);
    assert_eq!(s.dim(1).unwrap(), 3);
    assert_eq!(s.last_dim().unwrap(), 4);
    assert_eq!(s.elem_count().unwrap(), 24);
    assert_eq!(s.contiguous_strides().as_slice(), &[12, 4, 1]);
}

#[test]
fn scalar_shape() {
    let s = Shape::scalar();
    assert_eq!(s.rank(), 0);
    assert_eq!(s.elem_count().unwrap(), 1);
    assert!(s.contiguous_strides().as_slice().is_empty());
    match s.last_dim() {
        Err(Error::InvalidDim { dim, reason }) => {
            assert_eq!(dim, 0);
            assert_eq!(reason, "scalar shape has no last dimension");
        }
        other => panic!("unexpected {:?}", other),
    }
}

#[test]
fn dimension_out_of_bounds() {
    match Shape::new(&[5]).dim(3) {
        Err(Error::InvalidDim { dim, reason }) => {
            assert_eq!(dim, 3);
            assert_eq!(reason, "dimension is out of bounds");
        }
        other => panic!("unexpected {:?}", other),
    }
}

#[test]
fn element_count_overflow_is_reported_even_before_a_zero() {
    let s = Shape::new(&[usize::MAX, 2, 0]);
    match s.elem_count() {
        Err(Error::ElementCountOverflow(shape)) => assert_eq!(shape.dims(), &[usize::MAX, 2, 0]),
        other => panic!("unexpected {:?}", other),
    }
    assert_eq!(Shape::new(&[0, usize::MAX, 2]).elem_count().unwrap(), 0);
}

#[test]
fn strides_saturate() {
    let s = Shape::new(&[3, usize::MAX, 2]);
    assert_eq!(s.contiguous_strides().as_slice(), &[usize::MAX, 2, 1]);
}

#[test]
fn rank_and_shape_requirements() {
    let s = Shape::new(&[2, 3]);
    assert!(s.require_rank(2).is_ok());
    match s.require_rank(3) {
        Err(Error::RankMismatch { expected, actual, shape }) => {
            assert_eq!((expected, actual), (3, 2));
            assert_eq!(shape.dims(), &[2, 3]);
        }
        other => panic!("unexpected {:?}", other),
    }
    assert!(s.require_same(&Shape::new(&[2, 3])).is_ok());
    match s.require_same(&Shape::new(&[3, 2])) {
        Err(Error::ShapeMismatch { expected, actual }) => {
            assert_eq!(expected.dims(), &[2, 3]);
            assert_eq!(actual.dims(), &[3, 2]);
        }
        other => panic!("unexpected {:?}", other),
    }
}

#[test]
fn i32_limits() {
    assert_eq!(checked_i32(7, "x").unwrap(), 7);
    assert_eq!(checked_i32(i32::MAX as usize, "x").unwrap(), i32::MAX);
    match checked_i32(i32::MAX as usize + 1, "matmul rows") {
        Err(Error::InvalidDim { dim, reason }) => {
            assert_eq!(dim, i32::MAX as usize + 1);
            assert_eq!(reason, "matmul rows");
        }
        other => panic!("unexpected {:?}", other),
    }
    assert!(check_kernel_len(i32::MAX as usize).is_ok());
    assert!(matches!(
        check_kernel_len(i32::MAX as usize + 1),
        Err(Error::KernelElementLimit { actual, max }) if actual == i32::MAX as usize + 1 && max == i32::MAX as usize
    ));
}

fn layout(dims: &[usize], ordinal: usize) -> TensorLayout {
    TensorLayout::zeroed(Shape::new(dims), DType::F16, ordinal).unwrap()
}

#[test]
fn layouts_for_uploaded_data() {
    let t = TensorLayout::for_data(Shape::new(&[2, 3]), DType::F32, 1, 6).unwrap();
    assert_eq!(t.len(), 6);
    assert_eq!(t.strides(), &[3, 1]);
    assert_eq!(t.dtype(), DType::F32);
    assert_eq!(t.device_ordinal(), 1);
    assert!(t.is_contiguous());
    assert!(!t.is_empty());
    match TensorLayout::for_data(Shape::new(&[2, 3]), DType::F32, 0, 5) {
        Err(Error::ElementCountMismatch { shape, expected, actual }) => {
            assert_eq!(shape.dims(), &[2, 3]);
            assert_eq!((expected, actual), (6, 5));
        }
        other => panic!("unexpected {:?}", other),
    }
}

#[test]
fn zeroed_layouts_respect_the_kernel_limit() {
    assert!(matches!(
        TensorLayout::zeroed(Shape::new(&[1 << 31]), DType::F16, 0),
        Err(Error::KernelElementLimit { .. })
    ));
    assert!(TensorLayout::zeroed(Shape::new(&[0]), DType::F16, 0).unwrap().is_empty());
}

#[test]
fn reshape_keeps_the_element_count() {
    let t = layout(&[2, 6], 0).reshape(Shape::new(&[3, 4])).unwrap();
    assert_eq!(t.shape().dims(), &[3, 4]);
    assert_eq!(t.strides(), &[4, 1]);
    assert_eq!(t.len(), 12);
    match layout(&[2, 6], 0).reshape(Shape::new(&[5])) {
        Err(Error::ElementCountMismatch { expected, actual, .. }) => assert_eq!((expected, actual), (5, 12)),
        other => panic!("unexpected {:?}", other),
    }
}

#[test]
fn element_wise_checks() {
    let a = layout(&[2, 3], 0);
    let b = layout(&[2, 3], 0);
    let c = layout(&[3, 2], 0);
    let d = layout(&[2, 3], 1);
    assert!(a.check_binary(&b).is_ok());
    assert!(matches!(a.check_binary(&c), Err(Error::ShapeMismatch { .. })));
    assert!(matches!(a.check_binary(&d), Err(Error::DeviceMismatch { expected: 0, actual: 1 })));
    assert!(a.check_binary_into(&b, &layout(&[2, 3], 0)).is_ok());
    assert!(matches!(a.check_binary_into(&b, &d), Err(Error::DeviceMismatch { .. })));
    assert!(matches!(a.ensure_output(&c), Err(Error::ShapeMismatch { .. })));
    assert!(a.check_unary().is_ok());
    assert!(a.ensure_contiguous().is_ok());
    let e = a.empty_like().unwrap();
    assert_eq!(e.shape().dims(), &[2, 3]);
    assert!(a.ensure_output(&e).is_ok());
}

#[test]
fn normalization_widths() {
    let x = layout(&[4, 8], 0);
    let w = layout(&[8], 0);
    let out = layout(&[4, 8], 0);
    assert_eq!(x.rms_norm_width(&w, &out).unwrap(), 8);
    let short = layout(&[7], 0);
    match x.rms_norm_width(&short, &out) {
        Err(Error::ElementCountMismatch { shape, expected, actual }) => {
            assert_eq!(shape.dims(), &[7]);
            assert_eq!((expected, actual), (8, 7));
        }
        other => panic!("unexpected {:?}", other),
    }
    let b = layout(&[8], 0);
    assert_eq!(x.layer_norm_width(&w, &b, &out).unwrap(), 8);
    let b2 = layout(&[2, 4], 0);
    assert!(matches!(x.layer_norm_width(&w, &b2, &out), Err(Error::ShapeMismatch { .. })));
    let remote = layout(&[8], 3);
    assert!(matches!(x.layer_norm_width(&w, &remote, &out), Err(Error::DeviceMismatch { expected: 0, actual: 3 })));
    assert_eq!(x.softmax_width(&out).unwrap(), 8);
}

#[test]
fn causal_mask_needs_two_dimensions() {
    let x = layout(&[2, 5, 7], 0);
    assert_eq!(x.causal_mask_lens(&layout(&[2, 5, 7], 0)).unwrap(), (5, 7));
    let v = layout(&[5], 0);
    match v.causal_mask_lens(&layout(&[5], 0)) {
        Err(Error::RankMismatch { expected, actual, .. }) => assert_eq!((expected, actual), (2, 1)),
        other => panic!("unexpected {:?}", other),
    }
}

#[test]
fn rope_arguments() {
    let x = layout(&[4, 8], 0);
    assert_eq!(x.rope_args(4, 8).unwrap(), (4, 8));
    match x.rope_args(4, 3) {
        Err(Error::InvalidDim { dim, reason }) => {
            assert_eq!(dim, 3);
            assert_eq!(reason, "head_dim must divide tensor length");
        }
        other => panic!("unexpected {:?}", other),
    }
    match layout(&[3, 3], 0).rope_args(3, 9) {
        Err(Error::InvalidDim { dim, reason }) => {
            assert_eq!(dim, 9);
            assert_eq!(reason, "head_dim must be even for rotary pairs");
        }
        other => panic!("unexpected {:?}", other),
    }
}

#[test]
fn matmul_dimensions() {
    let a = layout(&[2, 4], 0);
    let b = layout(&[4, 3], 0);
    assert_eq!(a.matmul_dims(&b, false).unwrap(), (2, 3, 4));
    let out = a.matmul_output(&b, false).unwrap();
    assert_eq!(out.shape().dims(), &[2, 3]);
    assert_eq!(a.matmul_args(&b, false, &out).unwrap(), (2, 3, 4));
    let bt = layout(&[3, 4], 0);
    assert_eq!(a.matmul_dims(&bt, true).unwrap(), (2, 3, 4));
    match a.matmul_dims(&bt, false) {
        Err(Error::ShapeMismatch { expected, actual }) => {
            assert_eq!(expected.dims(), &[4]);
            assert_eq!(actual.dims(), &[3]);
        }
        other => panic!("unexpected {:?}", other),
    }
    assert!(matches!(a.matmul_dims(&layout(&[4], 0), false), Err(Error::RankMismatch { expected: 2, actual: 1, .. })));
    assert!(matches!(a.matmul_args(&b, false, &layout(&[3, 2], 0)), Err(Error::ShapeMismatch { .. })));
}

#[test]
fn shapes_compare_and_convert() {
    let a = Shape::new(&[2, 3]);
    let b = Shape::from(vec![2, 3]);
    let c = Shape::from([2usize, 3]);
    let d = Shape::from(&[2usize, 4][..]);
    assert!(a == b);
    assert!(a == c);
    assert!(a != d);
    assert!(a.clone() == a);
    assert_eq!(d.dims(), &[2, 4]);
    assert_eq!(b.dims(), &[2, 3]);
    assert_eq!(c.dims(), &[2, 3]);
}
