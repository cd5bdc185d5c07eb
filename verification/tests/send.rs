//! Deciding the outcome of a dispatched request from its response.

use prowl::evaluate_response;
use prowl::AddError;

fn response_with_status(status: u16) -> reqwest::Response {
    http::Response::builder()
        .status(status)
        .body(String::new())
        .expect("a plain response must build")
        .into()
}

#[test]
fn status_200_is_success() {
    let result = evaluate_response(200, response_with_status(200));
    assert!(result.is_ok());
}

#[test]
fn status_500_is_an_api_error_carrying_the_response() {
    let result = evaluate_response(500, response_with_status(500));
    match result {
        Err(AddError::Api(response)) => assert_eq!(response.status().as_u16(), 500),
        _ => panic!("expected an Api error"),
    }
}

#[test]
fn status_404_is_an_api_error() {
    let result = evaluate_response(404, response_with_status(404));
    assert!(matches!(result, Err(AddError::Api(_))));
}

#[test]
fn format_errors_convert_into_add_errors() {
    let converted = AddError::from(std::fmt::Error);
    assert!(matches!(converted, AddError::Format(_)));
}
