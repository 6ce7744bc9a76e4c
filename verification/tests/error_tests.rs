use bitcoin_backend::errors::{i32_to_dec, u64_to_dec, AppError};
use bitcoin_backend::responses::ApiResponse;
use bitcoin_backend::store::DbError;

#[test]
fn decimal_rendering_is_exact() {
    assert_eq!(u64_to_dec(0), "0");
    assert_eq!(u64_to_dec(7), "7");
    assert_eq!(u64_to_dec(10), "10");
    assert_eq!(u64_to_dec(900100), "900100");
    assert_eq!(u64_to_dec(u64::MAX), "18446744073709551615");
    assert_eq!(i32_to_dec(0), "0");
    assert_eq!(i32_to_dec(-1), "-1");
    assert_eq!(i32_to_dec(i32::MIN), "-2147483648");
    assert_eq!(i32_to_dec(i32::MAX), "2147483647");
}

#[test]
fn status_codes_follow_the_taxonomy() {
    assert_eq!(
        AppError::BitcoinRpcConnection("x".to_string()).status_code(),
        502
    );
    assert_eq!(
        AppError::BitcoinRpcError {
            code: -1,
            message: "x".to_string()
        }
        .status_code(),
        502
    );
    assert_eq!(AppError::BitcoinRpcParse("x".to_string()).status_code(), 502);
    assert_eq!(AppError::BitcoinRpcNoResult.status_code(), 502);
    assert_eq!(AppError::ConfigError("x".to_string()).status_code(), 500);
    assert_eq!(AppError::Internal("x".to_string()).status_code(), 500);
    assert_eq!(AppError::NotFound("x".to_string()).status_code(), 404);
    assert_eq!(AppError::DatabaseError("x".to_string()).status_code(), 500);
}

#[test]
fn error_types_are_stable_tags() {
    assert_eq!(
        AppError::BitcoinRpcConnection("x".to_string()).error_type(),
        "bitcoin_rpc_connection_error"
    );
    assert_eq!(
        AppError::BitcoinRpcError {
            code: 0,
            message: "x".to_string()
        }
        .error_type(),
        "bitcoin_rpc_error"
    );
    assert_eq!(
        AppError::BitcoinRpcParse("x".to_string()).error_type(),
        "bitcoin_rpc_parse_error"
    );
    assert_eq!(AppError::BitcoinRpcNoResult.error_type(), "bitcoin_rpc_no_result");
    assert_eq!(AppError::ConfigError("x".to_string()).error_type(), "config_error");
    assert_eq!(
        AppError::Internal("x".to_string()).error_type(),
        "internal_server_error"
    );
    assert_eq!(AppError::NotFound("x".to_string()).error_type(), "not_found");
    assert_eq!(
        AppError::DatabaseError("x".to_string()).error_type(),
        "database_error"
    );
}

#[test]
fn messages_are_rendered_exactly() {
    assert_eq!(
        AppError::BitcoinRpcConnection("refused".to_string()).message(),
        "Failed to connect to Bitcoin node: refused"
    );
    assert_eq!(
        AppError::BitcoinRpcError {
            code: -1,
            message: "x".to_string()
        }
        .message(),
        "Bitcoin RPC error (code -1): x"
    );
    assert_eq!(
        AppError::BitcoinRpcParse("bad".to_string()).message(),
        "Failed to parse Bitcoin RPC response: bad"
    );
    assert_eq!(
        AppError::BitcoinRpcNoResult.message(),
        "Bitcoin RPC returned no result"
    );
    assert_eq!(
        AppError::ConfigError("k".to_string()).message(),
        "Configuration error: k"
    );
    assert_eq!(
        AppError::Internal("oops".to_string()).message(),
        "Internal server error: oops"
    );
    assert_eq!(AppError::NotFound("gone".to_string()).message(), "gone");
    assert_eq!(
        AppError::DatabaseError("locked".to_string()).message(),
        "Database error: locked"
    );
}

#[test]
fn only_the_structured_error_has_details() {
    assert_eq!(
        AppError::BitcoinRpcError {
            code: -28,
            message: "warming up".to_string()
        }
        .details(),
        Some("RPC error code: -28, message: warming up".to_string())
    );
    assert_eq!(AppError::BitcoinRpcNoResult.details(), None);
    assert_eq!(AppError::NotFound("x".to_string()).details(), None);
}

#[test]
fn db_error_messages_are_rendered_exactly() {
    assert_eq!(DbError::NotFound.message(), "Record not found");
    assert_eq!(
        DbError::DatabaseError("disk full".to_string()).message(),
        "Database error: disk full"
    );
    assert_eq!(
        DbError::InvalidInput("empty name".to_string()).message(),
        "Invalid input: empty name"
    );
}

#[test]
fn db_errors_map_onto_the_app_taxonomy() {
    match AppError::from_db(DbError::NotFound) {
        AppError::NotFound(msg) => assert_eq!(msg, "Record not found"),
        other => panic!("expected not-found, got {:?}", other),
    }
    match AppError::from_db(DbError::DatabaseError("locked".to_string())) {
        AppError::DatabaseError(msg) => assert_eq!(msg, "locked"),
        other => panic!("expected a database error, got {:?}", other),
    }
    match AppError::from_db(DbError::InvalidInput("bad".to_string())) {
        AppError::DatabaseError(msg) => assert_eq!(msg, "bad"),
        other => panic!("expected a database error, got {:?}", other),
    }
}

#[test]
fn success_envelope_carries_payload_and_message() {
    let r = ApiResponse::success(vec![1u64, 2, 3], "ok");
    assert_eq!(r.status, 200);
    assert_eq!(r.data, Some(vec![1u64, 2, 3]));
    assert_eq!(r.message, "ok");
    assert!(r.error.is_none());
    assert!(r.details.is_none());

    // The timestamp is an RFC 3339 UTC instant: date, 'T', time, +00:00.
    let ts = r.timestamp.as_bytes();
    assert!(ts.len() >= 25);
    assert_eq!(ts[4], b'-');
    assert_eq!(ts[7], b'-');
    assert_eq!(ts[10], b'T');
    assert_eq!(ts[13], b':');
    assert_eq!(ts[16], b':');
    assert!(r.timestamp.ends_with("+00:00"));
}

#[test]
fn success_envelope_with_custom_status() {
    let r = ApiResponse::success_with_status(201, 5u8, "created");
    assert_eq!(r.status, 201);
    assert_eq!(r.data, Some(5u8));
    assert_eq!(r.message, "created");
    assert!(r.error.is_none());
}

#[test]
fn error_envelope_carries_tag_message_and_detail() {
    let e = AppError::BitcoinRpcError {
        code: -1,
        message: "x".to_string(),
    };
    let r = ApiResponse::error(e.status_code(), e.error_type(), e.message(), e.details());
    assert_eq!(r.status, 502);
    assert!(r.data.is_none());
    assert_eq!(r.message, "Bitcoin RPC error (code -1): x");
    assert_eq!(r.error, Some("bitcoin_rpc_error".to_string()));
    assert_eq!(r.details, Some("RPC error code: -1, message: x".to_string()));
}
