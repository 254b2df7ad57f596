use aws_lib::errors::{AwsError, DEFAULT_RETRY_COUNT};

#[test]
fn an_error_reports_its_message() {
    let error = AwsError::new("something went wrong");
    assert_eq!(error.message(), "something went wrong");
}

#[test]
fn a_prefixed_error_keeps_prefix_and_detail() {
    let error = AwsError::with_prefix("operation failed: ", "timeout");
    assert_eq!(error.message(), "operation failed: timeout");
}

#[test]
fn the_default_retry_count_is_five() {
    assert_eq!(DEFAULT_RETRY_COUNT, 5_u32);
}
