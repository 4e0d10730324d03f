use vendor_api::error::AppError;

#[test]
fn each_error_has_its_status_and_text() {
    let cases = vec![
        (AppError::Unauthorized("a".to_string()), 401, "Unauthorized: a"),
        (AppError::Forbidden("b".to_string()), 403, "Forbidden: b"),
        (AppError::ValidationError("c".to_string()), 422, "Validation error: c"),
        (AppError::DatabaseError("d".to_string()), 500, "Database error: d"),
        (AppError::TokenError("e".to_string()), 500, "Token error: e"),
        (AppError::NotFound("f".to_string()), 404, "Not found: f"),
    ];
    for (err, code, text) in cases {
        assert_eq!(err.status_code(), code);
        assert_eq!(err.message(), text);
        assert_eq!(err.into_response(), (code, text.to_string()));
    }
}

#[test]
fn empty_detail_keeps_the_label() {
    assert_eq!(AppError::NotFound(String::new()).message(), "Not found: ");
}
