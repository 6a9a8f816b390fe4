use pokemon_tcg_sdk::client::{parse_response, ApiResult, DataEnvelope};
use pokemon_tcg_sdk::errors::{ApiError, ClientError, ErrorEnvelope};

fn failure(code: usize, message: &str) -> ErrorEnvelope {
    ErrorEnvelope { error: ApiError { message: String::from(message), code } }
}

fn classify(code: usize) -> ClientError {
    ClientError::from(failure(code, "boom"))
}

#[test]
fn success_payload_keeps_server_order() {
    let result: ApiResult<Vec<String>> = ApiResult::Success(DataEnvelope {
        data: vec![String::from("c"), String::from("a"), String::from("b")],
        total_count: Some(3),
    });
    match parse_response(result) {
        Ok(v) => assert_eq!(v, vec![String::from("c"), String::from("a"), String::from("b")]),
        Err(_) => panic!("expected the payload"),
    }
}

#[test]
fn single_entity_payload_is_returned() {
    let result: ApiResult<u32> = ApiResult::Success(DataEnvelope { data: 7, total_count: None });
    assert!(matches!(parse_response(result), Ok(7)));
}

#[test]
fn bad_request_keeps_server_message() {
    let result: ApiResult<String> = ApiResult::Failure(failure(400, "The id base1-5x is unknown"));
    match parse_response(result) {
        Err(ClientError::BadRequest(e)) => {
            assert_eq!(e.error.message, "The id base1-5x is unknown");
            assert_eq!(e.error.code, 400);
        }
        _ => panic!("expected BadRequest"),
    }
}

#[test]
fn codes_are_classified() {
    assert!(matches!(classify(400), ClientError::BadRequest(_)));
    assert!(matches!(classify(402), ClientError::RequestFailed(_)));
    assert!(matches!(classify(403), ClientError::Forbidden(_)));
    assert!(matches!(classify(404), ClientError::NotFound(_)));
    assert!(matches!(classify(429), ClientError::TooManyRequests(_)));
    assert!(matches!(classify(500), ClientError::ServerError(_)));
    assert!(matches!(classify(502), ClientError::ServerError(_)));
    assert!(matches!(classify(504), ClientError::ServerError(_)));
}

#[test]
fn other_codes_default_to_bad_request() {
    assert!(matches!(classify(401), ClientError::BadRequest(_)));
    assert!(matches!(classify(418), ClientError::BadRequest(_)));
    assert!(matches!(classify(499), ClientError::BadRequest(_)));
    assert!(matches!(classify(505), ClientError::BadRequest(_)));
    assert!(matches!(classify(0), ClientError::BadRequest(_)));
}

#[test]
fn not_found_keeps_envelope() {
    match classify(404) {
        ClientError::NotFound(e) => {
            assert_eq!(e.error.code, 404);
            assert_eq!(e.error.message, "boom");
        }
        _ => panic!("expected NotFound"),
    }
}

#[test]
fn total_count_read_from_success_only() {
    let ok: ApiResult<Vec<u8>> = ApiResult::Success(DataEnvelope { data: vec![], total_count: Some(251) });
    assert_eq!(ok.total_count(), Some(251));
    let none: ApiResult<Vec<u8>> = ApiResult::Success(DataEnvelope { data: vec![], total_count: None });
    assert_eq!(none.total_count(), None);
    let err: ApiResult<Vec<u8>> = ApiResult::Failure(failure(500, "down"));
    assert_eq!(err.total_count(), None);
}
