use manifold::conv::{conv2d_backward_dims, conv2d_output_dims, conv2d_weight_dims, kernel_span};
use manifold::error::Error;
use manifold::layer::{dense_backward_dims, dense_forward_dims, Slot};

#[test]
fn conv_weight_dims_order() {
    assert_eq!(conv2d_weight_dims(3, 8, (5, 4)), (8, 3, 5, 4));
}

#[test]
fn conv_valid_output_dims() {
    assert_eq!(conv2d_output_dims((2, 3, 7, 6), (8, 3, 3, 2)), Ok((2, 8, 5, 5)));
    assert_eq!(conv2d_output_dims((1, 1, 3, 3), (1, 1, 3, 3)), Ok((1, 1, 1, 1)));
}

#[test]
fn conv_rejects_bad_shapes() {
    // kernel larger than the input
    assert_eq!(conv2d_output_dims((1, 1, 2, 5), (1, 1, 3, 3)), Err(Error::Shape));
    // channels differ
    assert_eq!(conv2d_output_dims((1, 2, 5, 5), (1, 3, 3, 3)), Err(Error::Shape));
    // empty kernel
    assert_eq!(conv2d_output_dims((1, 1, 5, 5), (1, 1, 0, 3)), Err(Error::Shape));
}

#[test]
fn conv_backward_restores_input_dims() {
    let x = (2, 3, 7, 6);
    let w = (8, 3, 3, 2);
    let out = conv2d_output_dims(x, w).unwrap();
    assert_eq!(conv2d_backward_dims(x, w, out), Ok(x));
    assert_eq!(conv2d_backward_dims(x, w, (2, 8, 5, 4)), Err(Error::Shape));
}

#[test]
fn kernel_span_interior_and_edges() {
    // input length 7, kernel 3, output length 5
    assert_eq!(kernel_span(0, 3, 5), (0, 1));
    assert_eq!(kernel_span(1, 3, 5), (0, 2));
    assert_eq!(kernel_span(3, 3, 5), (0, 3));
    assert_eq!(kernel_span(5, 3, 5), (1, 3));
    assert_eq!(kernel_span(6, 3, 5), (2, 3));
}

#[test]
fn kernel_span_empty_cases() {
    let (lo, hi) = kernel_span(9, 3, 5);
    assert_eq!(lo, hi);
    let (lo, hi) = kernel_span(0, 3, 0);
    assert_eq!(lo, hi);
}

#[test]
fn dense_forward_then_backward_dims() {
    let x = (4, 2);
    let w = (3, 2);
    let out = dense_forward_dims(x, w).unwrap();
    assert_eq!(out, (4, 3));
    assert_eq!(dense_backward_dims(x, w, out), Ok(x));
}

#[test]
fn dense_dims_mismatch() {
    assert_eq!(dense_forward_dims((4, 2), (3, 5)), Err(Error::Shape));
    assert_eq!(dense_backward_dims((4, 2), (3, 2), (4, 2)), Err(Error::Shape));
}

#[test]
fn slot_lifecycle() {
    let mut s: Slot<Vec<i32>> = Slot::empty();
    assert!(!s.is_filled());
    assert_eq!(s.get(), Err(Error::UninitializedState));
    s.fill(vec![1, 2]);
    assert!(s.is_filled());
    assert_eq!(s.get(), Ok(&vec![1, 2]));
    s.fill(vec![3]);
    assert_eq!(s.take(), Ok(vec![3]));
    assert!(!s.is_filled());
    assert_eq!(s.take(), Err(Error::UninitializedState));
    let d: Slot<u8> = Slot::default();
    assert!(!d.is_filled());
}

#[test]
fn slot_clone() {
    let mut s: Slot<(Vec<i32>, Vec<i32>)> = Slot::empty();
    s.fill((vec![1], vec![2]));
    let c = s.clone();
    assert_eq!(c.get(), Ok(&(vec![1], vec![2])));
    assert_eq!(s.take(), Ok((vec![1], vec![2])));
    assert!(c.is_filled());
}
