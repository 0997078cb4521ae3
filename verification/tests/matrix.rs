use molcv::matrix::ResultMatrix;

#[test]
fn cells_are_laid_out_cutoff_by_cutoff() {
    let flat: Vec<u32> = (0..6).collect();
    let matrix = ResultMatrix::assemble(flat.clone(), 2, 3).unwrap();
    assert_eq!(matrix.rows(), 2);
    assert_eq!(matrix.cols(), 3);
    for c in 0..2 {
        for r in 0..3 {
            assert_eq!(matrix.get(c, r), Some(flat[c * 3 + r]));
        }
    }
    assert_eq!(matrix.get(2, 0), None);
    assert_eq!(matrix.get(0, 3), None);
    assert_eq!(matrix.as_slice(), &flat[..]);
}

#[test]
fn wrong_number_of_values_is_refused() {
    assert!(ResultMatrix::assemble(vec![1, 2, 3], 2, 2).is_none());
    assert!(ResultMatrix::assemble(vec![1, 2, 3, 4, 5], 2, 2).is_none());
    assert!(ResultMatrix::assemble(vec![], 1, 1).is_none());
    assert!(ResultMatrix::assemble(vec![], usize::MAX, 2).is_none());
    assert!(ResultMatrix::assemble(vec![], 0, 9).is_some());
    assert!(ResultMatrix::assemble(vec![], 9, 0).is_some());
}

#[test]
fn matrix_without_rows_keeps_its_columns() {
    let matrix = ResultMatrix::empty(4);
    assert_eq!(matrix.rows(), 0);
    assert_eq!(matrix.cols(), 4);
    assert_eq!(matrix.as_slice(), &[] as &[u32]);
    assert_eq!(matrix.get(0, 0), None);
    assert_eq!(matrix, ResultMatrix::assemble(vec![], 0, 4).unwrap());
}

#[test]
fn transposing_exchanges_rows_and_columns() {
    let matrix = ResultMatrix::assemble(vec![1, 2, 3, 4, 5, 6], 2, 3).unwrap();
    let turned = matrix.transposed();
    assert_eq!(turned.rows(), 3);
    assert_eq!(turned.cols(), 2);
    assert_eq!(turned.as_slice(), &[1, 4, 2, 5, 3, 6]);
    for c in 0..2 {
        for r in 0..3 {
            assert_eq!(turned.get(r, c), matrix.get(c, r));
        }
    }
    assert_eq!(turned.transposed(), matrix);
}

#[test]
fn transposing_an_empty_matrix() {
    let turned = ResultMatrix::empty(3).transposed();
    assert_eq!(turned.rows(), 3);
    assert_eq!(turned.cols(), 0);
    assert_eq!(turned.as_slice(), &[] as &[u32]);
}

#[test]
fn single_rows_stack_into_a_matrix() {
    let rows = vec![
        ResultMatrix::assemble(vec![1, 2, 3], 1, 3).unwrap(),
        ResultMatrix::assemble(vec![4, 5, 6], 1, 3).unwrap(),
    ];
    let matrix = ResultMatrix::from_rows(&rows, 3).unwrap();
    assert_eq!(matrix, ResultMatrix::assemble(vec![1, 2, 3, 4, 5, 6], 2, 3).unwrap());
    assert_eq!(ResultMatrix::from_rows(&[].to_vec(), 3), Some(ResultMatrix::empty(3)));
}

#[test]
fn rows_of_another_shape_do_not_stack() {
    let rows = vec![
        ResultMatrix::assemble(vec![1, 2, 3], 1, 3).unwrap(),
        ResultMatrix::assemble(vec![4, 5], 1, 2).unwrap(),
    ];
    assert_eq!(ResultMatrix::from_rows(&rows, 3), None);
    let rows = vec![ResultMatrix::assemble(vec![1, 2, 3, 4], 2, 2).unwrap()];
    assert_eq!(ResultMatrix::from_rows(&rows, 2), None);
}

#[test]
fn clone_is_equal() {
    let matrix = ResultMatrix::assemble(vec![7, 8], 1, 2).unwrap();
    assert_eq!(matrix.clone(), matrix);
}
