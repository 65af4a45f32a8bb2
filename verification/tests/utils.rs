use acid::common::PaginatedResponse;
use acid::utils::{
    error_chain_fmt, get_error_response, get_fail_response, ErrorResponse, PatternTB303Response,
};

#[test]
fn an_error_response_carries_the_message() {
    assert_eq!(
        get_error_response("Something went wrong.".to_string()),
        ErrorResponse { status: "error".to_string(), message: "Something went wrong.".to_string() }
    );
}

#[test]
fn a_fail_response_carries_the_message() {
    assert_eq!(
        get_fail_response("There is no user associated with the provided token.".to_string()),
        ErrorResponse {
            status: "fail".to_string(),
            message: "There is no user associated with the provided token.".to_string()
        }
    );
}

#[test]
fn a_successful_write_reports_the_identifier() {
    let response = PatternTB303Response::success(0x123e4567_e89b_12d3_a456_426614174000);
    assert_eq!(response.status, "success");
    assert_eq!(response.data.id, "123e4567-e89b-12d3-a456-426614174000");
}

#[test]
fn an_error_is_written_with_the_chain_of_its_causes() {
    let causes = vec!["connection refused".to_string(), "timed out".to_string()];
    assert_eq!(
        error_chain_fmt("Failed to fetch patterns", &causes),
        "Failed to fetch patterns\n\nCaused by:\n\tconnection refused\nCaused by:\n\ttimed out\n"
    );
    assert_eq!(error_chain_fmt("alone", &vec![]), "alone\n\n");
}

#[test]
fn a_page_holds_its_parts() {
    let page = PaginatedResponse::new(vec![1, 2, 3], 2, 10, Some(13), Some(2));
    assert_eq!(page.records, [1, 2, 3]);
    assert_eq!(page.page, 2);
    assert_eq!(page.page_size, 10);
    assert_eq!(page.total, Some(13));
    assert_eq!(page.total_pages, Some(2));
}
