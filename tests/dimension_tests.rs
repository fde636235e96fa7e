use dimensions::{DimensionVector, QuantityError};

#[test]
fn test_dimension_addition() {
    let dim1 = DimensionVector([1, 0, 0, 0, 0, 0, 0, 0]);
    let dim2 = DimensionVector([0, 1, 0, 0, 0, 0, 0, 0]);
    let result = (dim1 + dim2).unwrap();
    assert_eq!(result, DimensionVector([1, 1, 0, 0, 0, 0, 0, 0]));

    let dim3 = DimensionVector([1, 0, 0, 0, 0, 0, 0, 0]);
    let dim4 = DimensionVector([1, 0, 0, 0, 0, 0, 0, 0]);
    let result = (dim3 + dim4).unwrap();
    assert_eq!(result, DimensionVector([2, 0, 0, 0, 0, 0, 0, 0]));
}

#[test]
fn test_dimension_subtraction() {
    let dim1 = DimensionVector([1, 1, 0, 0, 0, 0, 0, 0]);
    let dim2 = DimensionVector([0, 1, 0, 0, 0, 0, 0, 0]);
    let result = (dim1 - dim2).unwrap();
    assert_eq!(result, DimensionVector([1, 0, 0, 0, 0, 0, 0, 0]));

    let dim3 = DimensionVector([1, 0, 0, 0, 0, 0, 0, 0]);
    let dim4 = DimensionVector([2, 0, 0, 0, 0, 0, 0, 0]);
    let result = (dim3 - dim4).unwrap();
    assert_eq!(result, DimensionVector([-1, 0, 0, 0, 0, 0, 0, 0]));
}

#[test]
fn test_dimension_overflow() {
    let dim1 = DimensionVector([127, 0, 0, 0, 0, 0, 0, 0]);
    let dim2 = DimensionVector([1, 0, 0, 0, 0, 0, 0, 0]);

    let result = dim1 + dim2;
    assert!(result.is_err());

    if let Err(QuantityError::DimensionOverflow { dimension_index, attempted_value, .. }) = result {
        assert_eq!(dimension_index, 0);
        assert_eq!(attempted_value, 128);
    } else {
        panic!("Expected DimensionOverflow error");
    }
}

#[test]
fn test_deref_functionality() {
    let dim = DimensionVector([1, 2, 3, 4, 5, 6, 7, 8]);
    assert_eq!(dim.get(0), 1);
    assert_eq!(dim.get(3), 4);

    let sum = dim.sum();
    assert_eq!(sum, 36);
}

#[test]
fn test_from_conversion() {
    let array = [1, 2, 3, 4, 5, 6, 7, 8];
    let dim = DimensionVector::from(array);
    assert_eq!(dim, DimensionVector([1, 2, 3, 4, 5, 6, 7, 8]));

    let dim2: DimensionVector = array.into();
    assert_eq!(dim2, DimensionVector([1, 2, 3, 4, 5, 6, 7, 8]));
}

#[test]
fn test_to_array() {
    let dim = DimensionVector([1, 2, 3, 4, 5, 6, 7, 8]);
    let array = dim.to_array();
    assert_eq!(array, [1, 2, 3, 4, 5, 6, 7, 8]);
}
