use deployer::errors::{AggregateError, ProcessFileError};

#[test]
fn test_aggregate_error() {
    let err = AggregateError::from_iter(vec![
        ProcessFileError::S3Error,
        ProcessFileError::NoMeta,
    ]);

    let errors = err.into_vec();
    assert_eq!(errors.len(), 2);
    assert!(matches!(errors[0], ProcessFileError::S3Error));
    assert!(matches!(errors[1], ProcessFileError::NoMeta));
}

#[test]
fn aggregate_preserves_length_and_order() {
    let agg = AggregateError::from_iter(vec![1u32, 2, 3]);
    assert_eq!(agg.into_vec(), vec![1u32, 2, 3]);
}

#[test]
fn aggregate_of_one() {
    let agg = AggregateError::new("only".to_owned());
    assert_eq!(agg.into_vec(), vec!["only".to_owned()]);
}
