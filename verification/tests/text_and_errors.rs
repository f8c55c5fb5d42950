use real_estate_server::error::{get_error_response, DefaultAppError};
use real_estate_server::text::{append_decimal, append_signed_decimal, decimal_text};

#[test]
fn decimal_text_of_zero_is_a_single_digit() {
    assert_eq!(decimal_text(0), "0");
}

#[test]
fn decimal_text_has_no_leading_zero() {
    assert_eq!(decimal_text(7), "7");
    assert_eq!(decimal_text(10), "10");
    assert_eq!(decimal_text(1090), "1090");
}

#[test]
fn decimal_text_of_the_largest_number() {
    assert_eq!(decimal_text(u64::MAX), "18446744073709551615");
}

#[test]
fn decimal_text_agrees_with_the_standard_rendering() {
    let samples: [u64; 8] = [0, 1, 9, 10, 99, 100, 4607182418800017408, u64::MAX - 1];
    for n in samples {
        assert_eq!(decimal_text(n), n.to_string());
    }
}

#[test]
fn append_decimal_keeps_what_was_there() {
    let mut text = String::from("$");
    append_decimal(&mut text, 12);
    assert_eq!(text, "$12");
}

#[test]
fn append_signed_decimal_writes_the_sign() {
    let mut text = String::from("code ");
    append_signed_decimal(&mut text, -42);
    assert_eq!(text, "code -42");
    let mut text = String::new();
    append_signed_decimal(&mut text, 0);
    assert_eq!(text, "0");
    let mut text = String::new();
    append_signed_decimal(&mut text, i64::MIN);
    assert_eq!(text, "-9223372036854775808");
    let mut text = String::new();
    append_signed_decimal(&mut text, i64::MAX);
    assert_eq!(text, "9223372036854775807");
}

#[test]
fn message_falls_back_to_the_stock_text() {
    let error = DefaultAppError { message: None, status_code: 503 };
    assert_eq!(error.message(), "Internal Server Error");
    assert_eq!(error.status_code(), 503);
}

#[test]
fn message_is_returned_when_present() {
    let error = DefaultAppError { message: Some(String::from("boom")), status_code: 418 };
    assert_eq!(error.message(), "boom");
}

#[test]
fn in_short_puts_message_and_code_on_two_lines() {
    let error = DefaultAppError { message: Some(String::from("boom")), status_code: 404 };
    assert_eq!(error.in_short(), "Error Message: boom\n Status Code: 404");
    let error = DefaultAppError { message: None, status_code: -7 };
    assert_eq!(error.in_short(), "Error Message: Internal Server Error\n Status Code: -7");
}

#[test]
fn duplicate_of_an_error_is_equal_to_it() {
    let error = DefaultAppError { message: Some(String::from("boom")), status_code: 404 };
    assert_eq!(error.duplicate(), error);
}

#[test]
fn unexpected_results_names_the_count() {
    let error = DefaultAppError::unexpected_results(0);
    assert_eq!(error.message, Some(String::from("Unexpected number of results: 0")));
    assert_eq!(error.status_code, 500);
    let error = DefaultAppError::unexpected_results(12);
    assert_eq!(error.message(), "Unexpected number of results: 12");
}

#[test]
fn unexpected_rows_created_names_the_count() {
    let error = DefaultAppError::unexpected_rows_created(3);
    assert_eq!(error.message(), "Unexpected number of rows created: 3");
    assert_eq!(error.status_code, 500);
}

#[test]
fn invalid_search_has_its_message() {
    let error = DefaultAppError::invalid_search();
    assert_eq!(error.message(), "Invalid searching params");
    assert_eq!(error.status_code, 500);
}

#[test]
fn mismatched_arrays_names_both_lengths() {
    let error = DefaultAppError::mismatched_arrays(3, 2);
    assert_eq!(error.message(), "Mismatched coordinate arrays: 3 latitudes, 2 longitudes");
    assert_eq!(error.status_code, 500);
}

#[test]
fn unexpected_reply_has_its_message() {
    let error = DefaultAppError::unexpected_reply();
    assert_eq!(error.message(), "Unexpected reply from the store");
    assert_eq!(error.status_code, 500);
}

#[test]
fn error_response_keeps_a_known_status() {
    let error = DefaultAppError { message: Some(String::from("gone")), status_code: 404 };
    let (status, body) = get_error_response(&error);
    assert_eq!(status, 404);
    assert_eq!(body, "Error Message: gone\n Status Code: 404");
}

#[test]
fn error_response_accepts_the_ends_of_the_known_range() {
    for code in [100, 101, 200, 500, 599, 999] {
        let error = DefaultAppError { message: None, status_code: code };
        assert_eq!(get_error_response(&error).0, code as u16);
    }
}

#[test]
fn error_response_defaults_to_server_error_for_unknown_codes() {
    for code in [0, 1, 99, 1000, 1001, 40000, 65535] {
        let error = DefaultAppError { message: None, status_code: code };
        assert_eq!(get_error_response(&error).0, 500);
    }
}

#[test]
fn error_response_never_wraps_a_code_into_the_known_range() {
    let error = DefaultAppError { message: None, status_code: 65536 + 404 };
    let (status, body) = get_error_response(&error);
    assert_eq!(status, 500);
    assert_eq!(body, "Error Message: Internal Server Error\n Status Code: 65940");
    for code in [-1, -65536 + 201, -65132, 65536 + 100, 131072 + 999, i32::MIN, i32::MAX] {
        let error = DefaultAppError { message: None, status_code: code };
        assert_eq!(get_error_response(&error).0, 500);
    }
}

#[test]
fn error_response_body_is_the_error_in_short() {
    let error = DefaultAppError { message: None, status_code: 7 };
    let (status, body) = get_error_response(&error);
    assert_eq!(status, 500);
    assert_eq!(body, error.in_short());
    assert_eq!(body, "Error Message: Internal Server Error\n Status Code: 7");
}
