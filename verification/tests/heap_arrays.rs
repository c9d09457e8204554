use chessatiel::neural_networks::data_structures;
use chessatiel::neural_networks::heap_arrays;

#[test]
fn heap_arrays_apply_fn() {
    let hv = heap_arrays::HeapVector::<i64, 4>::new(vec![1, 2, 3, 4]);
    let res = hv.apply(|i| i + 1).to_vec().clone();
    let expected = vec![2, 3, 4, 5];
    assert_eq!(res, expected);
}

#[test]
fn heap_vector_apply_fn() {
    let hv = data_structures::HeapVector::from([1, 2, 3, 4]);
    let res = hv.apply(|i| i + 1).to_vec().clone();
    let expected = vec![2, 3, 4, 5];
    assert_eq!(res, expected);
}

#[test]
fn test_dot() {
    let hv1 = data_structures::HeapVector::from([1, 2, 3, 4]);
    let hv2 = data_structures::HeapVector::from([1, 2, 3, 4]);
    assert_eq!(hv1.dot(&hv2), 30)
}

#[test]
fn test_hadamard() {
    let hv1 = data_structures::HeapVector::from([1, 2, 3, 4]);
    let hv2 = data_structures::HeapVector::from([1, 2, 3, 4]);
    let expected = data_structures::HeapVector::from([1, 4, 9, 16]);
    assert_eq!(hv1.hadamard(&hv2), expected)
}

#[test]
fn test_product_to_matrix() {
    let hv1 = data_structures::HeapVector::from([1, 2, 3, 4]);
    let hv2 = data_structures::HeapVector::from([1, 2, 3]);
    let expected =
        data_structures::HeapMatrix::from([[1, 2, 3], [2, 4, 6], [3, 6, 9], [4, 8, 12]]);
    assert_eq!(hv1.product_to_matrix(&hv2), expected)
}

#[test]
fn test_sum() {
    let hv1 = data_structures::HeapVector::from([1, 2, 3, -4]);
    assert_eq!(hv1.sum(), 2)
}

#[test]
fn test_squared_size() {
    let hv1 = data_structures::HeapVector::from([1, 2, 3, -4]);
    assert_eq!(hv1.squared_size(), 30)
}

#[test]
fn test_add_sub_mul_div_scalar() {
    let hv1 = data_structures::HeapVector::from([1, 2, 3, -4]);
    let expected = data_structures::HeapVector::from([0, 1, 2, -5]);
    assert_eq!(hv1.clone() - 1, expected);
    let hv1 = data_structures::HeapVector::from([1, 2, 3, -4]);
    let expected = data_structures::HeapVector::from([2, 3, 4, -3]);
    assert_eq!(hv1 + 1, expected);
    let hv1 = data_structures::HeapVector::from([1, 2, 3, -4]);
    let expected = data_structures::HeapVector::from([2, 4, 6, -8]);
    assert_eq!(hv1 * 2, expected);
    let hv1 = data_structures::HeapVector::from([2, 4, 6, -8]);
    let expected = data_structures::HeapVector::from([1, 2, 3, -4]);
    assert_eq!(hv1 / 2, expected);
}

#[test]
fn test_sub_vector() {
    let hv1 = data_structures::HeapVector::from([1, 2, 3, -4]);
    let hv2 = data_structures::HeapVector::from([1, 2, 3, 4]);
    let expected = data_structures::HeapVector::from([0, 0, 0, -8]);
    assert_eq!(hv1 - &hv2, expected)
}

#[test]
fn test_mul_transposed() {
    let hm1 = data_structures::HeapMatrix::from([[1, 2, 3], [4, 5, 6]]);
    let hv1 = data_structures::HeapVector::from([1, 2]);
    let expected = data_structures::HeapVector::from([9, 12, 15]);
    assert_eq!(hm1.mul_transposed(&hv1), expected)
}

#[test]
fn test_mul() {
    let hm1 = data_structures::HeapMatrix::from([[1, 4], [2, 5], [3, 6]]);
    let hv1 = data_structures::HeapVector::from([1, 2]);
    let expected = data_structures::HeapVector::from([9, 12, 15]);
    assert_eq!(hm1 * &hv1, expected)
}

#[test]
fn division_rounds_towards_zero() {
    let hv = heap_arrays::HeapVector::from([7, -7, 6, -1]);
    let expected = heap_arrays::HeapVector::from([-3, 3, -3, 0]);
    assert_eq!(hv / -2, expected)
}

#[test]
fn matrix_scalar_operations() {
    let hm = heap_arrays::HeapMatrix::from([[2, -4], [6, 8]]);
    let expected = heap_arrays::HeapMatrix::from([[1, -2], [3, 4]]);
    assert_eq!(hm.clone() / 2, expected);
    let expected = heap_arrays::HeapMatrix::from([[4, -8], [12, 16]]);
    assert_eq!(hm.clone() * 2, expected);
    let expected = heap_arrays::HeapMatrix::from([[1, -5], [5, 7]]);
    assert_eq!(hm.clone() - 1, expected);
    let mut m = hm.clone();
    m.sub_assign(&hm);
    assert_eq!(m, heap_arrays::HeapMatrix::<i64, 2, 2>::zeroed());
    let mut d = hm;
    d.div_assign(-2);
    assert_eq!(d, heap_arrays::HeapMatrix::from([[-1, 2], [-3, -4]]));
}

#[test]
fn vector_assign_operations() {
    let mut hv = heap_arrays::HeapVector::from([1, 2, 3]);
    hv.add_assign(&heap_arrays::HeapVector::from([10, 20, 30]));
    assert_eq!(hv, heap_arrays::HeapVector::from([11, 22, 33]));
    hv.div_assign(11);
    assert_eq!(hv, heap_arrays::HeapVector::from([1, 2, 3]));
    assert_eq!(hv.len(), 3);
    assert!(!hv.is_empty());
    let m = hv.matrix();
    assert_eq!(m.len(), 1);
    assert_eq!(m.vector(), &heap_arrays::HeapVector::from([1, 2, 3]));
    assert_eq!(&heap_arrays::HeapVector::from([5, 5]) - &heap_arrays::HeapVector::from([1, 7]),
        heap_arrays::HeapVector::from([4, -2]));
    assert_eq!(heap_arrays::HeapVector::from([5, 5]) + &heap_arrays::HeapVector::from([1, 7]),
        heap_arrays::HeapVector::from([6, 12]));
}

#[test]
fn zeroed_shapes() {
    let z = heap_arrays::HeapVector::<i64, 3>::zeroed();
    assert_eq!(z.to_vec(), &vec![0, 0, 0]);
    let m = heap_arrays::HeapMatrix::<i64, 2, 3>::zeroed();
    assert_eq!(m.len(), 2);
    assert!(!m.is_empty());
    assert_eq!(m, heap_arrays::HeapMatrix::from([[0, 0, 0], [0, 0, 0]]));
}

#[test]
fn dot_is_symmetric_and_zero_with_zeros() {
    let a = data_structures::HeapVector::from([3, -1, 4, 1]);
    let b = data_structures::HeapVector::from([2, 7, -1, 8]);
    assert_eq!(a.dot(&b), b.dot(&a));
    assert_eq!(a.dot(&b), 6 - 7 - 4 + 8);
    let z = heap_arrays::HeapVector::<i64, 4>::zeroed();
    assert_eq!(a.dot(&z), 0);
}

#[test]
fn input_and_table_indices() {
    use_indices();
}

fn use_indices() {
    assert_eq!(chessatiel::neural_networks::input_index(0, 0, 0), 0);
    assert_eq!(chessatiel::neural_networks::input_index(63, 5, 1), 767);
    assert_eq!(chessatiel::neural_networks::input_index(10, 2, 1), 10 + 128 + 384);
    assert_eq!(chessatiel::brain::pst::indices_for(0, 0), (0, 1));
    assert_eq!(chessatiel::brain::pst::indices_for(5, 63), (766, 767));
    assert_eq!(chessatiel::brain::pst::indices_for(2, 1), (16, 17));
}

#[test]
fn vector_matrix_vector_round_trip() {
    let v = heap_arrays::HeapVector::<i64, 3>::new(vec![7, -2, 0]);
    let m = v.clone().matrix();
    assert_eq!(m.vector(), &v);
    assert_eq!(m.vector().to_vec(), &vec![7, -2, 0]);
}

#[test]
fn matrix_clone_keeps_rows_in_order() {
    let m = heap_arrays::HeapMatrix::<i64, 2, 2>::new(vec![
        heap_arrays::HeapVector::new(vec![1, 2]),
        heap_arrays::HeapVector::new(vec![3, 4]),
    ]);
    let c = m.clone();
    assert_eq!(c, m);
}
