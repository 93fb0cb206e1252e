use dense_matrix::{multiply, product_in_range, Matrix, MatrixError};

#[test]
fn test_matrix_display() {
    let m = Matrix::new(2, 3, vec![1, 2, 3, 4, 5, 6]);
    assert_eq!("{1 2 3}, {4 5 6}", m.display());
}

#[test]
fn test_matrix_debug() {
    let m = Matrix::new(2, 3, vec![1, 2, 3, 4, 5, 6]);
    assert_eq!("Matrix(rows=2, cols=3, {1 2 3}, {4 5 6})", m.debug());
}

#[test]
fn test_matrix_multiply() -> Result<(), MatrixError> {
    let a = Matrix::new(2, 3, Vec::from([1, 2, 3, 4, 5, 6]));
    let b = Matrix::new(3, 2, Vec::from([1, 2, 3, 4, 5, 6]));
    let c = multiply(&a, &b)?;
    assert_eq!("{22 28}, {49 64}", c.display());
    Ok(())
}

#[test]
fn multiply_gives_each_cell_its_dot_product() {
    let a = Matrix::new(2, 3, vec![1i64, -2, 3, 0, 5, -6]);
    let b = Matrix::new(3, 2, vec![7i64, 8, -9, 10, 11, 12]);
    let c = multiply(&a, &b).unwrap();
    assert_eq!(c.rows(), 2);
    assert_eq!(c.cols(), 2);
    assert_eq!(c.get(0, 0), 1 * 7 + (-2) * (-9) + 3 * 11);
    assert_eq!(c.get(0, 1), 1 * 8 + (-2) * 10 + 3 * 12);
    assert_eq!(c.get(1, 0), 5 * (-9) + (-6) * 11);
    assert_eq!(c.get(1, 1), 5 * 10 + (-6) * 12);
    assert_eq!(c.display(), "{58 24}, {-111 -22}");
}

#[test]
fn multiply_is_not_commutative_on_shapes() {
    let a = Matrix::new(2, 3, vec![1, 2, 3, 4, 5, 6]);
    let b = Matrix::new(3, 2, vec![1, 2, 3, 4, 5, 6]);
    let c = multiply(&b, &a).unwrap();
    assert_eq!(c.rows(), 3);
    assert_eq!(c.cols(), 3);
    assert_eq!(c.display(), "{9 12 15}, {19 26 33}, {29 40 51}");
}

#[test]
fn multiply_result_has_outer_shape() {
    let a = Matrix::new(1, 4, vec![1u64, 2, 3, 4]);
    let b = Matrix::new(4, 3, vec![1u64, 0, 0, 0, 1, 0, 0, 0, 1, 1, 1, 1]);
    let c = multiply(&a, &b).unwrap();
    assert_eq!((c.rows(), c.cols()), (1, 3));
    assert_eq!(c.display(), "{5 6 7}");
    assert_eq!(c.debug(), "Matrix(rows=1, cols=3, {5 6 7})");
}

#[test]
fn multiply_refuses_mismatched_inner_dimensions() {
    let a = Matrix::new(2, 3, vec![1, 2, 3, 4, 5, 6]);
    let b = Matrix::new(2, 2, vec![1, 2, 3, 4]);
    let r = multiply(&a, &b);
    match r {
        Err(e) => assert_eq!(
            e,
            MatrixError::DimensionMismatch { a_rows: 2, a_cols: 3, b_rows: 2, b_cols: 2 }
        ),
        Ok(_) => panic!("a product of mismatched shapes"),
    }
}

#[test]
fn mismatch_message_names_both_shapes() {
    let a = Matrix::new(2, 3, vec![1, 2, 3, 4, 5, 6]);
    let b = Matrix::new(10, 1, vec![0; 10]);
    let e = multiply(&a, &b).err().unwrap();
    assert_eq!(e.message(), "Cannot multiply matrices with dimensions 2x3 and 10x1");
}

#[test]
fn multiply_is_associative_on_an_example() {
    let a = Matrix::new(2, 3, vec![1, 2, 3, 4, 5, 6]);
    let b = Matrix::new(3, 2, vec![-1, 2, 0, 3, 4, -5]);
    let c = Matrix::new(2, 4, vec![2, 0, 1, -1, 3, 1, 0, 2]);
    let left = multiply(&multiply(&a, &b).unwrap(), &c).unwrap();
    let right = multiply(&a, &multiply(&b, &c).unwrap()).unwrap();
    assert_eq!(left.display(), right.display());
    assert_eq!(left.display(), "{1 -7 11 -25}, {19 -7 20 -34}");
}

#[test]
fn multiply_with_empty_inner_dimension_gives_zeros() {
    let a: Matrix<i32> = Matrix::new(2, 0, vec![]);
    let b: Matrix<i32> = Matrix::new(0, 3, vec![]);
    let c = multiply(&a, &b).unwrap();
    assert_eq!(c.display(), "{0 0 0}, {0 0 0}");
}

#[test]
fn display_of_an_empty_matrix_is_empty() {
    let m: Matrix<i32> = Matrix::new(0, 3, vec![]);
    assert_eq!(m.display(), "");
    assert_eq!(m.debug(), "Matrix(rows=0, cols=3, )");
}

#[test]
fn display_of_rows_without_columns_is_empty_braces() {
    let m: Matrix<i32> = Matrix::new(3, 0, vec![]);
    assert_eq!(m.display(), "{}, {}, {}");
}

#[test]
fn display_of_a_single_cell() {
    let m = Matrix::new(1, 1, vec![-7]);
    assert_eq!(m.display(), "{-7}");
    assert_eq!(m.debug(), "Matrix(rows=1, cols=1, {-7})");
}

#[test]
fn display_has_one_block_per_row_and_one_element_per_column() {
    let m = Matrix::new(3, 4, vec![10, -11, 12, 0, 1, 2, 3, 4, -5, 6, 7, 800]);
    let text = m.display();
    assert_eq!(text, "{10 -11 12 0}, {1 2 3 4}, {-5 6 7 800}");
    let blocks: Vec<&str> = text.split(", ").collect();
    assert_eq!(blocks.len(), 3);
    for block in blocks {
        assert!(block.starts_with('{') && block.ends_with('}'));
        assert_eq!(block[1..block.len() - 1].split(' ').count(), 4);
    }
}

#[test]
fn debug_wraps_display_with_the_shape() {
    let m = Matrix::new(12, 1, vec![5u64; 12]);
    let expected = format!("Matrix(rows={}, cols={}, {})", 12, 1, m.display());
    assert_eq!(m.debug(), expected);
}

#[test]
fn get_reads_row_major() {
    let m = Matrix::new(2, 3, vec![1, 2, 3, 4, 5, 6]);
    assert_eq!(m.get(0, 0), 1);
    assert_eq!(m.get(0, 2), 3);
    assert_eq!(m.get(1, 0), 4);
    assert_eq!(m.get(1, 2), 6);
}

#[test]
fn try_new_accepts_a_matching_length() {
    let m = Matrix::try_new(2, 2, vec![1, 2, 3, 4]).unwrap();
    assert_eq!(m.display(), "{1 2}, {3 4}");
}

#[test]
fn try_new_refuses_a_wrong_length() {
    let r = Matrix::try_new(2, 2, vec![1, 2]);
    match r {
        Err(e) => {
            assert_eq!(e, MatrixError::ShapeMismatch { rows: 2, cols: 2, len: 2 });
            assert_eq!(e.message(), "Cannot build a 2x2 matrix from 2 elements");
        }
        Ok(_) => panic!("a matrix over too few elements"),
    }
}

#[test]
fn try_new_refuses_a_shape_too_large_to_address() {
    let r: Result<Matrix<u8>, MatrixError> = Matrix::try_new(usize::MAX, 2, vec![]);
    assert_eq!(
        r.err(),
        Some(MatrixError::ShapeMismatch { rows: usize::MAX, cols: 2, len: 0 })
    );
}

#[test]
fn product_in_range_accepts_small_values() {
    let a = Matrix::new(2, 3, vec![1, 2, 3, 4, 5, 6]);
    let b = Matrix::new(3, 2, vec![1, 2, 3, 4, 5, 6]);
    assert!(product_in_range(&a, &b));
}

#[test]
fn product_in_range_refuses_a_term_out_of_range() {
    let a = Matrix::new(1, 1, vec![16u8]);
    let b = Matrix::new(1, 1, vec![16u8]);
    assert!(!product_in_range(&a, &b));
    let c = Matrix::new(1, 1, vec![15u8]);
    let d = Matrix::new(1, 1, vec![17u8]);
    assert!(product_in_range(&c, &d));
    assert_eq!(multiply(&c, &d).unwrap().get(0, 0), 255);
}

#[test]
fn product_in_range_refuses_a_running_sum_out_of_range() {
    let a = Matrix::new(1, 3, vec![100i8, 100, -100]);
    let b = Matrix::new(3, 1, vec![1i8, 1, 1]);
    assert!(!product_in_range(&a, &b));
    let c = Matrix::new(1, 3, vec![100i8, -100, 100]);
    assert!(product_in_range(&c, &b));
    assert_eq!(multiply(&c, &b).unwrap().get(0, 0), 100);
}

#[test]
fn product_in_range_holds_where_the_product_is_refused() {
    let a = Matrix::new(1, 2, vec![i32::MAX, i32::MAX]);
    let b = Matrix::new(1, 2, vec![i32::MAX, i32::MAX]);
    assert!(product_in_range(&a, &b));
    assert!(multiply(&a, &b).is_err());
}

#[test]
fn display_punctuation_counts_follow_the_shape() {
    let m = Matrix::new(3, 4, vec![10, -11, 12, 0, 1, 2, 3, 4, -5, 6, 7, 800]);
    let text = m.display();
    let count = |c: char| text.chars().filter(|x| *x == c).count();
    assert_eq!(count('{'), 3);
    assert_eq!(count('}'), 3);
    assert_eq!(count(','), 2);
    assert_eq!(count(' '), 3 * 3 + 2);
}

#[test]
fn matrices_hold_every_integer_type() {
    let a = Matrix::new(1, 2, vec![i128::MAX, 0]);
    let b = Matrix::new(2, 1, vec![1i128, 5]);
    assert_eq!(multiply(&a, &b).unwrap().display(), format!("{{{}}}", i128::MAX));
    let c = Matrix::new(1, 1, vec![usize::MAX]);
    assert_eq!(c.display(), format!("{{{}}}", usize::MAX));
    let d = Matrix::new(1, 2, vec![i16::MIN, -1]);
    assert_eq!(d.debug(), "Matrix(rows=1, cols=2, {-32768 -1})");
}
