use bitcoin_backend::errors::AppError;
use bitcoin_backend::rpc::{
    connection_test_response, evaluate_rpc_body, rpc_request_body, test_connection, BitcoinRpc,
    BlockchainInfo, ErrorFieldShape, ResultFieldShape, RpcBodyShape, TransportOutcome,
};

fn client() -> BitcoinRpc {
    BitcoinRpc::new(
        "http://127.0.0.1:8332".to_string(),
        "user".to_string(),
        "pass".to_string(),
    )
}

#[test]
fn request_body_has_the_wire_shape() {
    assert_eq!(
        rpc_request_body("getblockchaininfo"),
        "{\"jsonrpc\":\"1.0\",\"id\":\"getblockchaininfo\",\"method\":\"getblockchaininfo\",\"params\":[]}"
    );
}

#[test]
fn client_prepares_url_auth_and_body() {
    let rpc = client();
    let request = rpc.blockchain_info_request();
    assert_eq!(request.url, "http://127.0.0.1:8332");
    // base64("user:pass") under the standard alphabet with padding.
    assert_eq!(request.auth_header, "Basic dXNlcjpwYXNz");
    assert_eq!(
        request.body,
        "{\"jsonrpc\":\"1.0\",\"id\":\"getblockchaininfo\",\"method\":\"getblockchaininfo\",\"params\":[]}"
    );
}

#[test]
fn auth_header_is_padded_base64() {
    let rpc = BitcoinRpc::new(
        "http://h".to_string(),
        "u".to_string(),
        "p".to_string(),
    );
    // base64("u:p") == "dTpw".
    assert_eq!(rpc.auth_header, "Basic dTpw");
}

#[test]
fn structured_error_becomes_protocol_error() {
    let rpc = client();
    let outcome = TransportOutcome::Response(
        "{\"result\":null,\"error\":{\"code\":-1,\"message\":\"x\"}}".to_string(),
    );
    match rpc.get_blockchain_info(outcome) {
        Err(AppError::BitcoinRpcError { code, message }) => {
            assert_eq!(code, -1);
            assert_eq!(message, "x");
        }
        other => panic!("expected a protocol error, got {:?}", other),
    }
}

#[test]
fn unparsable_body_becomes_parse_error() {
    let rpc = client();
    let outcome = TransportOutcome::Response("this is not json".to_string());
    assert!(matches!(
        rpc.get_blockchain_info(outcome),
        Err(AppError::BitcoinRpcParse(_))
    ));
}

#[test]
fn non_object_body_becomes_parse_error() {
    let rpc = client();
    let outcome = TransportOutcome::Response("[1,2,3]".to_string());
    assert!(matches!(
        rpc.get_blockchain_info(outcome),
        Err(AppError::BitcoinRpcParse(_))
    ));
}

#[test]
fn transport_failure_becomes_connection_error() {
    let rpc = client();
    let outcome = TransportOutcome::Failure("connection refused".to_string());
    match rpc.get_blockchain_info(outcome) {
        Err(AppError::BitcoinRpcConnection(msg)) => assert_eq!(msg, "connection refused"),
        other => panic!("expected a connection error, got {:?}", other),
    }
}

#[test]
fn null_result_and_null_error_become_empty_result() {
    let rpc = client();
    let outcome = TransportOutcome::Response("{\"result\":null,\"error\":null}".to_string());
    assert!(matches!(
        rpc.get_blockchain_info(outcome),
        Err(AppError::BitcoinRpcNoResult)
    ));
}

#[test]
fn missing_members_also_mean_empty_result() {
    let rpc = client();
    let outcome = TransportOutcome::Response("{}".to_string());
    assert!(matches!(
        rpc.get_blockchain_info(outcome),
        Err(AppError::BitcoinRpcNoResult)
    ));
}

#[test]
fn malformed_error_object_becomes_parse_error() {
    let rpc = client();
    let outcome = TransportOutcome::Response(
        "{\"result\":null,\"error\":{\"code\":\"x\"}}".to_string(),
    );
    assert!(matches!(
        rpc.get_blockchain_info(outcome),
        Err(AppError::BitcoinRpcParse(_))
    ));
}

#[test]
fn error_code_outside_i32_becomes_parse_error() {
    let rpc = client();
    let outcome = TransportOutcome::Response(
        "{\"result\":null,\"error\":{\"code\":2147483648,\"message\":\"m\"}}".to_string(),
    );
    assert!(matches!(
        rpc.get_blockchain_info(outcome),
        Err(AppError::BitcoinRpcParse(_))
    ));
}

fn status_body() -> String {
    "{\"result\":{\"chain\":\"main\",\"blocks\":900000,\"headers\":900002,\"bestblockhash\":\"00000000000000000002a7c4c1e48d76c5a37902165a270156b7a8d72728a054\",\"difficulty\":95672703408223.94,\"verificationprogress\":0.9999,\"pruned\":false,\"initialblockdownload\":false},\"error\":null}".to_string()
}

#[test]
fn well_formed_result_is_returned() {
    let rpc = client();
    let info = rpc
        .get_blockchain_info(TransportOutcome::Response(status_body()))
        .unwrap();
    assert_eq!(info.chain, "main");
    assert_eq!(info.blocks, 900000);
    assert_eq!(info.headers, 900002);
    assert_eq!(
        info.bestblockhash,
        "00000000000000000002a7c4c1e48d76c5a37902165a270156b7a8d72728a054"
    );
    assert_eq!(info.difficulty, "95672703408223.94");
    assert_eq!(info.verificationprogress, "0.9999");
    assert!(!info.pruned);
    assert!(!info.initialblockdownload);
}

#[test]
fn number_fields_carry_serde_jsons_rendering() {
    // A number in exponent notation comes back as serde_json renders the
    // parsed value, not as the wire text.
    let rpc = client();
    let body = status_body().replace("\"difficulty\":95672703408223.94", "\"difficulty\":1e3");
    let info = rpc
        .get_blockchain_info(TransportOutcome::Response(body))
        .unwrap();
    assert_eq!(info.difficulty, "1000.0");
}

#[test]
fn malformed_result_preempts_structured_error() {
    // The result does not fit the expected shape, so the response is a
    // parse failure even though a structured error is present too.
    let shape = RpcBodyShape::Shaped(
        ResultFieldShape::Malformed("blocks is not an unsigned integer".to_string()),
        ErrorFieldShape::Structured {
            code: -1,
            message: "x".to_string(),
        },
    );
    assert!(matches!(
        evaluate_rpc_body(shape),
        Err(AppError::BitcoinRpcParse(_))
    ));
}

#[test]
fn node_info_projects_the_status_fields() {
    let rpc = client();
    let info = rpc
        .get_node_info(TransportOutcome::Response(status_body()))
        .unwrap();
    assert_eq!(info.network, "main");
    assert_eq!(info.block_height, 900000);
    assert_eq!(
        info.best_block_hash,
        "00000000000000000002a7c4c1e48d76c5a37902165a270156b7a8d72728a054"
    );
    assert!(info.sync.is_synced);
    assert_eq!(info.sync.progress, "0.9999");
    assert!(!info.pruned);
    assert_eq!(info.verification_progress, "0.9999");
    assert_eq!(info.backend.version, "Bitcoin Core");
    assert_eq!(info.backend.node_type, "bitcoind");
}

#[test]
fn node_info_reports_initial_block_download_as_not_synced() {
    let rpc = client();
    let body = status_body().replace(
        "\"initialblockdownload\":false",
        "\"initialblockdownload\":true",
    );
    let info = rpc
        .get_node_info(TransportOutcome::Response(body))
        .unwrap();
    assert!(!info.sync.is_synced);
}

#[test]
fn probe_collapses_failures_to_false() {
    let rpc = client();
    let failed: Result<BlockchainInfo, AppError> =
        rpc.get_blockchain_info(TransportOutcome::Failure("unreachable".to_string()));
    let collapsed = test_connection(&failed).unwrap();
    assert!(!collapsed);

    let response = connection_test_response(collapsed);
    assert!(!response.success);
    assert_eq!(response.message, "Connection failed");
}

#[test]
fn probe_reports_success() {
    let rpc = client();
    let ok = rpc.get_blockchain_info(TransportOutcome::Response(status_body()));
    let collapsed = test_connection(&ok).unwrap();
    assert!(collapsed);

    let response = connection_test_response(collapsed);
    assert!(response.success);
    assert_eq!(response.message, "Connection successful");
}
