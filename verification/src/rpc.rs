//! The remote RPC client: builds the JSON-RPC-over-HTTP-Basic-Auth
//! request for a status call and classifies the outcome into a typed
//! result or one of the normalized error kinds.
//!
//! The client itself performs no network I/O: the transport layer sends
//! the prepared request and hands back a [`TransportOutcome`], which the
//! functions here turn into typed results.  Every call is exactly-once
//! from the client's perspective; no retries happen at this layer.

use vstd::prelude::*;
use vstd::string::StringExecFns;

use crate::domain::{BackendInfo, NodeInfo, SyncInfo};
use crate::errors::AppError;
use crate::json::{
    json_as_bool, json_as_bool_of, json_as_i64, json_as_i64_of, json_as_str, json_as_str_of,
    json_as_u64, json_as_u64_of, json_from_str, json_get, json_is_null, json_is_null_of,
    json_is_object, json_is_object_of, json_member_of, json_number_text, json_number_text_of,
    json_parse_of,
};
use crate::store::DbError;

verus! {

/// Name for the base64 rendering (standard alphabet, with padding) of
/// the UTF-8 bytes of a text: what base64's `STANDARD.encode` returns.
pub uninterp spec fn base64_of(s: Seq<char>) -> Seq<char>;

/// Relies on base64's `STANDARD` engine: `encode` returns the padded
/// standard-alphabet base64 of the bytes of `s`, a function of the text
/// alone.
#[verifier::external_body]
fn base64_encode(s: &str) -> (r: String)
    ensures
        r@ == base64_of(s@),
{
    base64::Engine::encode(&base64::engine::general_purpose::STANDARD, s.as_bytes())
}

/// The `Authorization` header value for HTTP Basic authentication with
/// the given user and password.
pub open spec fn spec_basic_auth(user: Seq<char>, pass: Seq<char>) -> Seq<char> {
    "Basic "@ + base64_of(user + ":"@ + pass)
}

/// The JSON-RPC request body for a call of `method` with an empty
/// parameter list, as the remote node's control protocol expects it.
pub open spec fn spec_rpc_request_body(method: Seq<char>) -> Seq<char> {
    "{\"jsonrpc\":\"1.0\",\"id\":\""@ + method + "\",\"method\":\""@ + method
        + "\",\"params\":[]}"@
}

/// Build the request body for `method`.  The method name is spliced in
/// verbatim: the protocol's method names are plain lower-case
/// identifiers that need no JSON escaping.
pub fn rpc_request_body(method: &str) -> (r: String)
    ensures
        r@ == spec_rpc_request_body(method@),
{
    let r = "{\"jsonrpc\":\"1.0\",\"id\":\"".to_owned().concat(method).concat(
        "\",\"method\":\"",
    ).concat(method).concat("\",\"params\":[]}");
    proof {
        assert(r@ =~= spec_rpc_request_body(method@));
    }
    r
}

/// A stateless remote RPC client: the endpoint URL and the prepared
/// Basic-Auth header.  One instance per set of credentials; cheap to
/// construct per call.
#[derive(Debug)]
pub struct BitcoinRpc {
    pub url: String,
    pub auth_header: String,
}

/// One prepared HTTP request: where to POST, the `Authorization` header
/// value, and the JSON body.  The `Content-Type` is always
/// `application/json`.
#[derive(Debug)]
pub struct RpcRequest {
    pub url: String,
    pub auth_header: String,
    pub body: String,
}

/// What the transport layer hands back from one HTTP POST: a
/// transport-level failure message (connection refused, timeout, DNS or
/// TLS failure), or the response body.
#[derive(Debug)]
pub enum TransportOutcome {
    Failure(String),
    Response(String),
}

/// Shape of the `error` member of a JSON-RPC response envelope.
#[derive(Debug)]
pub enum ErrorFieldShape {
    /// Absent or JSON null: no error was reported.
    AbsentOrNull,
    /// A well-formed error object with its numeric code and message.
    Structured { code: i32, message: String },
    /// Present but not of the expected shape; carries a description.
    Malformed(String),
}

/// Shape of the `result` member of a JSON-RPC response envelope, for
/// the blockchain-status call.
#[derive(Debug)]
pub enum ResultFieldShape {
    /// Absent or JSON null: no result was returned.
    AbsentOrNull,
    /// A well-formed blockchain-status object.
    Blockchain(BlockchainInfo),
    /// Present but not of the expected shape; carries a description.
    Malformed(String),
}

/// Shape of a whole response body.
#[derive(Debug)]
pub enum RpcBodyShape {
    /// The body was not a JSON-RPC response object; carries the parse
    /// failure's description.
    Unparsable(String),
    /// A JSON object, with the shapes of its two envelope members.
    Shaped(ResultFieldShape, ErrorFieldShape),
}

/// The raw fields of the remote node's blockchain-status report.
/// `difficulty` and `verificationprogress` carry the decimal text of
/// the numbers the node reported, as serde_json renders the parsed
/// number.
#[derive(Debug)]
pub struct BlockchainInfo {
    pub chain: String,
    pub blocks: u64,
    pub headers: u64,
    pub bestblockhash: String,
    pub difficulty: String,
    pub verificationprogress: String,
    pub pruned: bool,
    pub initialblockdownload: bool,
}

/// Mathematical image of a [`BlockchainInfo`].
pub struct BlockchainInfoView {
    pub chain: Seq<char>,
    pub blocks: u64,
    pub headers: u64,
    pub bestblockhash: Seq<char>,
    pub difficulty: Seq<char>,
    pub verificationprogress: Seq<char>,
    pub pruned: bool,
    pub initialblockdownload: bool,
}

impl View for BlockchainInfo {
    type V = BlockchainInfoView;

    open spec fn view(&self) -> BlockchainInfoView {
        BlockchainInfoView {
            chain: self.chain@,
            blocks: self.blocks,
            headers: self.headers,
            bestblockhash: self.bestblockhash@,
            difficulty: self.difficulty@,
            verificationprogress: self.verificationprogress@,
            pruned: self.pruned,
            initialblockdownload: self.initialblockdownload,
        }
    }
}

/// Mathematical image of an [`ErrorFieldShape`].
pub enum ErrorFieldShapeView {
    AbsentOrNull,
    Structured(i32, Seq<char>),
    Malformed(Seq<char>),
}

impl View for ErrorFieldShape {
    type V = ErrorFieldShapeView;

    open spec fn view(&self) -> ErrorFieldShapeView {
        match self {
            ErrorFieldShape::AbsentOrNull => ErrorFieldShapeView::AbsentOrNull,
            ErrorFieldShape::Structured { code, message } => ErrorFieldShapeView::Structured(
                *code,
                message@,
            ),
            ErrorFieldShape::Malformed(m) => ErrorFieldShapeView::Malformed(m@),
        }
    }
}

/// Mathematical image of a [`ResultFieldShape`].
pub enum ResultFieldShapeView {
    AbsentOrNull,
    Blockchain(BlockchainInfoView),
    Malformed(Seq<char>),
}

impl View for ResultFieldShape {
    type V = ResultFieldShapeView;

    open spec fn view(&self) -> ResultFieldShapeView {
        match self {
            ResultFieldShape::AbsentOrNull => ResultFieldShapeView::AbsentOrNull,
            ResultFieldShape::Blockchain(info) => ResultFieldShapeView::Blockchain(info@),
            ResultFieldShape::Malformed(m) => ResultFieldShapeView::Malformed(m@),
        }
    }
}

/// Mathematical image of an [`RpcBodyShape`], up to the text of a parse
/// failure (serde's own message, which no name describes).
pub enum RpcBodyShapeView {
    Unparsable,
    Shaped(ResultFieldShapeView, ErrorFieldShapeView),
}

impl View for RpcBodyShape {
    type V = RpcBodyShapeView;

    open spec fn view(&self) -> RpcBodyShapeView {
        match self {
            RpcBodyShape::Unparsable(_) => RpcBodyShapeView::Unparsable,
            RpcBodyShape::Shaped(rs, es) => RpcBodyShapeView::Shaped(rs@, es@),
        }
    }
}

/// Shape of the `error` member, over the names for the accessor
/// results, exactly as the decoder reads it: null means no error; then
/// the code (an object member holding an integer that fits 32 bits),
/// then the message (a string member).
pub open spec fn spec_decode_error_field(ev: serde_json::Value) -> ErrorFieldShapeView {
    if json_is_null_of(ev) {
        ErrorFieldShapeView::AbsentOrNull
    } else {
        match json_member_of(ev, "code"@) {
            None => ErrorFieldShapeView::Malformed("error object has no code"@),
            Some(cv) => match json_as_i64_of(cv) {
                None => ErrorFieldShapeView::Malformed("error code is not an integer"@),
                Some(code) => if code < -2147483648 || code > 2147483647 {
                    ErrorFieldShapeView::Malformed("error code does not fit in 32 bits"@)
                } else {
                    match json_member_of(ev, "message"@) {
                        None => ErrorFieldShapeView::Malformed("error object has no message"@),
                        Some(mv) => match json_as_str_of(mv) {
                            None => ErrorFieldShapeView::Malformed(
                                "error message is not a string"@,
                            ),
                            Some(ms) => ErrorFieldShapeView::Structured(code as i32, ms),
                        },
                    }
                },
            },
        }
    }
}

/// Shape of the `error` member, given the member as `Value::get`
/// returned it: absence means no error.
pub open spec fn spec_decode_error_member(m: Option<serde_json::Value>) -> ErrorFieldShapeView {
    match m {
        None => ErrorFieldShapeView::AbsentOrNull,
        Some(ev) => spec_decode_error_field(ev),
    }
}

/// Shape of the `result` member, over the names for the accessor
/// results, exactly as the decoder reads it: null means no result;
/// otherwise the blockchain-status fields in order, each of its
/// expected JSON type.
pub open spec fn spec_decode_result_field(rv: serde_json::Value) -> ResultFieldShapeView {
    if json_is_null_of(rv) {
        ResultFieldShapeView::AbsentOrNull
    } else {
        match json_member_of(rv, "chain"@) {
            None => ResultFieldShapeView::Malformed("result has no chain"@),
            Some(chain_v) => match json_as_str_of(chain_v) {
                None => ResultFieldShapeView::Malformed("chain is not a string"@),
                Some(chain) => match json_member_of(rv, "blocks"@) {
                    None => ResultFieldShapeView::Malformed("result has no blocks"@),
                    Some(blocks_v) => match json_as_u64_of(blocks_v) {
                        None => ResultFieldShapeView::Malformed(
                            "blocks is not an unsigned integer"@,
                        ),
                        Some(blocks) => match json_member_of(rv, "headers"@) {
                            None => ResultFieldShapeView::Malformed("result has no headers"@),
                            Some(headers_v) => match json_as_u64_of(headers_v) {
                                None => ResultFieldShapeView::Malformed(
                                    "headers is not an unsigned integer"@,
                                ),
                                Some(headers) => spec_decode_result_tail(
                                    rv,
                                    chain,
                                    blocks,
                                    headers,
                                ),
                            },
                        },
                    },
                },
            },
        }
    }
}

/// Continuation of [`spec_decode_result_field`]: the best-block hash,
/// the two fractional fields, and the two flags.
pub open spec fn spec_decode_result_tail(
    rv: serde_json::Value,
    chain: Seq<char>,
    blocks: u64,
    headers: u64,
) -> ResultFieldShapeView {
    match json_member_of(rv, "bestblockhash"@) {
        None => ResultFieldShapeView::Malformed("result has no bestblockhash"@),
        Some(hash_v) => match json_as_str_of(hash_v) {
            None => ResultFieldShapeView::Malformed("bestblockhash is not a string"@),
            Some(bestblockhash) => match json_member_of(rv, "difficulty"@) {
                None => ResultFieldShapeView::Malformed("result has no difficulty"@),
                Some(diff_v) => match json_number_text_of(diff_v) {
                    None => ResultFieldShapeView::Malformed("difficulty is not a number"@),
                    Some(difficulty) => match json_member_of(rv, "verificationprogress"@) {
                        None => ResultFieldShapeView::Malformed(
                            "result has no verificationprogress"@,
                        ),
                        Some(prog_v) => match json_number_text_of(prog_v) {
                            None => ResultFieldShapeView::Malformed(
                                "verificationprogress is not a number"@,
                            ),
                            Some(verificationprogress) => match json_member_of(rv, "pruned"@) {
                                None => ResultFieldShapeView::Malformed("result has no pruned"@),
                                Some(pruned_v) => match json_as_bool_of(pruned_v) {
                                    None => ResultFieldShapeView::Malformed(
                                        "pruned is not a boolean"@,
                                    ),
                                    Some(pruned) => match json_member_of(
                                        rv,
                                        "initialblockdownload"@,
                                    ) {
                                        None => ResultFieldShapeView::Malformed(
                                            "result has no initialblockdownload"@,
                                        ),
                                        Some(ibd_v) => match json_as_bool_of(ibd_v) {
                                            None => ResultFieldShapeView::Malformed(
                                                "initialblockdownload is not a boolean"@,
                                            ),
                                            Some(initialblockdownload) => ResultFieldShapeView::Blockchain(
                                                BlockchainInfoView {
                                                    chain,
                                                    blocks,
                                                    headers,
                                                    bestblockhash,
                                                    difficulty,
                                                    verificationprogress,
                                                    pruned,
                                                    initialblockdownload,
                                                },
                                            ),
                                        },
                                    },
                                },
                            },
                        },
                    },
                },
            },
        },
    }
}

/// Shape of the `result` member, given the member as `Value::get`
/// returned it: absence means no result.
pub open spec fn spec_decode_result_member(m: Option<serde_json::Value>) -> ResultFieldShapeView {
    match m {
        None => ResultFieldShapeView::AbsentOrNull,
        Some(rv) => spec_decode_result_field(rv),
    }
}

/// Shape of a whole response body, over the names for the parse and
/// accessor results: a body that does not parse as one JSON object is
/// unparsable; otherwise the shapes of its `result` and `error`
/// members.
pub open spec fn spec_decode_blockchain_body(body: Seq<char>) -> RpcBodyShapeView {
    match json_parse_of(body) {
        None => RpcBodyShapeView::Unparsable,
        Some(doc) => if !json_is_object_of(doc) {
            RpcBodyShapeView::Unparsable
        } else {
            RpcBodyShapeView::Shaped(
                spec_decode_result_member(json_member_of(doc, "result"@)),
                spec_decode_error_member(json_member_of(doc, "error"@)),
            )
        },
    }
}

/// What the classified outcome of a response body must be, for each
/// decoded body shape: an unparsable body or a malformed member is a
/// parse failure (with the decoder's description, where one exists); a
/// reported error is a structured protocol failure carrying code and
/// message verbatim; a missing result with no error is an empty-result
/// failure; otherwise the blockchain-status report itself.
pub open spec fn spec_response_outcome(
    r: Result<BlockchainInfo, AppError>,
    sv: RpcBodyShapeView,
) -> bool {
    match sv {
        RpcBodyShapeView::Unparsable => r matches Err(e) && e is BitcoinRpcParse,
        RpcBodyShapeView::Shaped(rsv, esv) => match rsv {
            ResultFieldShapeView::Malformed(m) => (r matches Err(e) && e matches
                AppError::BitcoinRpcParse(pm) && pm@ == m),
            _ => match esv {
                ErrorFieldShapeView::Malformed(m) => (r matches Err(e) && e matches
                    AppError::BitcoinRpcParse(pm) && pm@ == m),
                ErrorFieldShapeView::Structured(code, message) => (r matches Err(e) && e matches
                    AppError::BitcoinRpcError { code: c, message: ms } && c == code && ms@
                    == message),
                ErrorFieldShapeView::AbsentOrNull => match rsv {
                    ResultFieldShapeView::Blockchain(iv) => (r matches Ok(info) && info@ == iv),
                    _ => r == Err::<BlockchainInfo, AppError>(AppError::BitcoinRpcNoResult),
                },
            },
        },
    }
}

/// The field mapping of the status projection: network from the chain
/// name, "is synced" the negation of "initial block download in
/// progress", the fractional fields passed through, a fixed backend
/// descriptor.
pub open spec fn spec_node_info_matches(ni: NodeInfo, iv: BlockchainInfoView) -> bool {
    ni.network@ == iv.chain && ni.block_height == iv.blocks && ni.best_block_hash@
        == iv.bestblockhash && ni.sync.is_synced == !iv.initialblockdownload && ni.sync.progress@
        == iv.verificationprogress && ni.pruned == iv.pruned && ni.verification_progress@
        == iv.verificationprogress && ni.backend.version@ == "Bitcoin Core"@
        && ni.backend.node_type@ == "bitcoind"@
}

/// What the projected status outcome must be, for each decoded body
/// shape: errors exactly as in [`spec_response_outcome`], and a
/// well-formed result projected by [`spec_node_info_matches`].
pub open spec fn spec_node_outcome(r: Result<NodeInfo, AppError>, sv: RpcBodyShapeView) -> bool {
    match sv {
        RpcBodyShapeView::Unparsable => r matches Err(e) && e is BitcoinRpcParse,
        RpcBodyShapeView::Shaped(rsv, esv) => match rsv {
            ResultFieldShapeView::Malformed(m) => (r matches Err(e) && e matches
                AppError::BitcoinRpcParse(pm) && pm@ == m),
            _ => match esv {
                ErrorFieldShapeView::Malformed(m) => (r matches Err(e) && e matches
                    AppError::BitcoinRpcParse(pm) && pm@ == m),
                ErrorFieldShapeView::Structured(code, message) => (r matches Err(e) && e matches
                    AppError::BitcoinRpcError { code: c, message: ms } && c == code && ms@
                    == message),
                ErrorFieldShapeView::AbsentOrNull => match rsv {
                    ResultFieldShapeView::Blockchain(iv) => (r matches Ok(ni)
                        && spec_node_info_matches(ni, iv)),
                    _ => r == Err::<NodeInfo, AppError>(AppError::BitcoinRpcNoResult),
                },
            },
        },
    }
}

impl BitcoinRpc {
    /// A client for the endpoint with the given credentials.
    pub fn new(url: String, username: String, password: String) -> (r: Self)
        ensures
            r.url == url,
            r.auth_header@ == spec_basic_auth(username@, password@),
    {
        let credentials = username.concat(":").concat(password.as_str());
        let encoded = base64_encode(credentials.as_str());
        let auth_header = "Basic ".to_owned().concat(encoded.as_str());
        proof {
            assert(credentials@ =~= username@ + ":"@ + password@);
        }
        BitcoinRpc { url, auth_header }
    }

    /// The prepared request for the `getblockchaininfo` status call.
    pub fn blockchain_info_request(&self) -> (r: RpcRequest)
        ensures
            r.url@ == self.url@,
            r.auth_header@ == self.auth_header@,
            r.body@ == spec_rpc_request_body("getblockchaininfo"@),
    {
        RpcRequest {
            url: self.url.clone(),
            auth_header: self.auth_header.clone(),
            body: rpc_request_body("getblockchaininfo"),
        }
    }

    /// Interpret the transport outcome of a `getblockchaininfo` call.
    /// A transport failure surfaces verbatim as a connection error; a
    /// response body is decoded and classified exactly as
    /// [`spec_decode_blockchain_body`] and [`spec_response_outcome`]
    /// describe, so only the response-level kinds can come out of it.
    pub fn get_blockchain_info(&self, outcome: TransportOutcome) -> (r: Result<
        BlockchainInfo,
        AppError,
    >)
        ensures
            (outcome matches TransportOutcome::Failure(m) ==> r == Err::<BlockchainInfo, AppError>(
                AppError::BitcoinRpcConnection(m),
            )),
            (outcome matches TransportOutcome::Response(body) ==> spec_response_outcome(
                r,
                spec_decode_blockchain_body(body@),
            )),
            (outcome is Response ==> match r {
                Ok(_) => true,
                Err(e) => e is BitcoinRpcParse || e is BitcoinRpcError || e is BitcoinRpcNoResult,
            }),
    {
        match outcome {
            TransportOutcome::Failure(m) => Err(AppError::BitcoinRpcConnection(m)),
            TransportOutcome::Response(body) => {
                let shape = decode_blockchain_body(body.as_str());
                let ghost shape_g = shape;
                let r = evaluate_rpc_body(shape);
                proof {
                    lemma_classify_respects_shape(shape_g);
                }
                r
            },
        }
    }

    /// Interpret the transport outcome of a `getblockchaininfo` call
    /// and project it onto the client-facing status report: errors as
    /// in [`get_blockchain_info`](Self::get_blockchain_info), a
    /// well-formed result projected as [`spec_node_outcome`] describes.
    pub fn get_node_info(&self, outcome: TransportOutcome) -> (r: Result<NodeInfo, AppError>)
        ensures
            (outcome matches TransportOutcome::Failure(m) ==> r == Err::<NodeInfo, AppError>(
                AppError::BitcoinRpcConnection(m),
            )),
            (outcome matches TransportOutcome::Response(body) ==> spec_node_outcome(
                r,
                spec_decode_blockchain_body(body@),
            )),
            (outcome is Response ==> match r {
                Ok(_) => true,
                Err(e) => e is BitcoinRpcParse || e is BitcoinRpcError || e is BitcoinRpcNoResult,
            }),
            (r matches Ok(ni) ==> ni.backend.version@ == "Bitcoin Core"@ && ni.backend.node_type@
                == "bitcoind"@),
    {
        let ghost outcome_g = outcome;
        let blockchain = self.get_blockchain_info(outcome);
        let ghost blockchain_g = blockchain;
        let r = node_info_outcome(blockchain);
        proof {
            match outcome_g {
                TransportOutcome::Response(body) => {
                    lemma_node_outcome(blockchain_g, r, spec_decode_blockchain_body(body@));
                },
                TransportOutcome::Failure(_) => {},
            }
        }
        r
    }
}

/// Classification respects the decoded shape: for every response-body
/// shape, the classified outcome is the one the shape's view demands.
proof fn lemma_classify_respects_shape(shape: RpcBodyShape)
    ensures
        spec_response_outcome(spec_classify(shape), shape@),
{
    match shape {
        RpcBodyShape::Unparsable(_) => {},
        RpcBodyShape::Shaped(rs, es) => match rs {
            ResultFieldShape::Malformed(_) => {},
            rs2 => match es {
                ErrorFieldShape::Malformed(_) => {},
                ErrorFieldShape::Structured { .. } => {},
                ErrorFieldShape::AbsentOrNull => match rs2 {
                    ResultFieldShape::Blockchain(_) => {},
                    _ => {},
                },
            },
        },
    }
}

/// The projection respects the decoded shape: lifting a classified
/// outcome over the status projection yields, for every response-body
/// shape, the projected outcome the shape's view demands.
proof fn lemma_node_outcome(
    blockchain: Result<BlockchainInfo, AppError>,
    r: Result<NodeInfo, AppError>,
    sv: RpcBodyShapeView,
)
    requires
        spec_response_outcome(blockchain, sv),
        match blockchain {
            Err(e) => r == Err::<NodeInfo, AppError>(e),
            Ok(info) => r matches Ok(ni) && ni.network == info.chain && ni.block_height
                == info.blocks && ni.best_block_hash == info.bestblockhash && ni.sync.is_synced
                == !info.initialblockdownload && ni.sync.progress@ == info.verificationprogress@
                && ni.pruned == info.pruned && ni.verification_progress
                == info.verificationprogress && ni.backend.version@ == "Bitcoin Core"@
                && ni.backend.node_type@ == "bitcoind"@,
        },
    ensures
        spec_node_outcome(r, sv),
{
    match sv {
        RpcBodyShapeView::Unparsable => {},
        RpcBodyShapeView::Shaped(rsv, esv) => match rsv {
            ResultFieldShapeView::Malformed(_) => {},
            _ => match esv {
                ErrorFieldShapeView::Malformed(_) => {},
                ErrorFieldShapeView::Structured(..) => {},
                ErrorFieldShapeView::AbsentOrNull => match rsv {
                    ResultFieldShapeView::Blockchain(_) => {},
                    _ => {},
                },
            },
        },
    }
}

/// Shape of the `error` member, given the member itself.
fn decode_error_field(ev: &serde_json::Value) -> (r: ErrorFieldShape)
    ensures
        r@ == spec_decode_error_field(*ev),
{
    if json_is_null(ev) {
        return ErrorFieldShape::AbsentOrNull;
    }
    let code = match json_get(ev, "code") {
        Some(cv) => match json_as_i64(cv) {
            Some(ci) => ci,
            None => {
                return ErrorFieldShape::Malformed("error code is not an integer".to_owned());
            },
        },
        None => {
            return ErrorFieldShape::Malformed("error object has no code".to_owned());
        },
    };
    if code < -2147483648i64 || code > 2147483647i64 {
        return ErrorFieldShape::Malformed("error code does not fit in 32 bits".to_owned());
    }
    let message = match json_get(ev, "message") {
        Some(mv) => match json_as_str(mv) {
            Some(ms) => ms,
            None => {
                return ErrorFieldShape::Malformed("error message is not a string".to_owned());
            },
        },
        None => {
            return ErrorFieldShape::Malformed("error object has no message".to_owned());
        },
    };
    ErrorFieldShape::Structured { code: code as i32, message }
}

/// Shape of the `result` member, given the member itself.
fn decode_result_field(rv: &serde_json::Value) -> (r: ResultFieldShape)
    ensures
        r@ == spec_decode_result_field(*rv),
{
    if json_is_null(rv) {
        return ResultFieldShape::AbsentOrNull;
    }
    let chain = match json_get(rv, "chain") {
        Some(v) => match json_as_str(v) {
            Some(s) => s,
            None => {
                return ResultFieldShape::Malformed("chain is not a string".to_owned());
            },
        },
        None => {
            return ResultFieldShape::Malformed("result has no chain".to_owned());
        },
    };
    let blocks = match json_get(rv, "blocks") {
        Some(v) => match json_as_u64(v) {
            Some(n) => n,
            None => {
                return ResultFieldShape::Malformed("blocks is not an unsigned integer".to_owned());
            },
        },
        None => {
            return ResultFieldShape::Malformed("result has no blocks".to_owned());
        },
    };
    let headers = match json_get(rv, "headers") {
        Some(v) => match json_as_u64(v) {
            Some(n) => n,
            None => {
                return ResultFieldShape::Malformed(
                    "headers is not an unsigned integer".to_owned(),
                );
            },
        },
        None => {
            return ResultFieldShape::Malformed("result has no headers".to_owned());
        },
    };
    let bestblockhash = match json_get(rv, "bestblockhash") {
        Some(v) => match json_as_str(v) {
            Some(s) => s,
            None => {
                return ResultFieldShape::Malformed("bestblockhash is not a string".to_owned());
            },
        },
        None => {
            return ResultFieldShape::Malformed("result has no bestblockhash".to_owned());
        },
    };
    let difficulty = match json_get(rv, "difficulty") {
        Some(v) => match json_number_text(v) {
            Some(s) => s,
            None => {
                return ResultFieldShape::Malformed("difficulty is not a number".to_owned());
            },
        },
        None => {
            return ResultFieldShape::Malformed("result has no difficulty".to_owned());
        },
    };
    let verificationprogress = match json_get(rv, "verificationprogress") {
        Some(v) => match json_number_text(v) {
            Some(s) => s,
            None => {
                return ResultFieldShape::Malformed(
                    "verificationprogress is not a number".to_owned(),
                );
            },
        },
        None => {
            return ResultFieldShape::Malformed("result has no verificationprogress".to_owned());
        },
    };
    let pruned = match json_get(rv, "pruned") {
        Some(v) => match json_as_bool(v) {
            Some(b) => b,
            None => {
                return ResultFieldShape::Malformed("pruned is not a boolean".to_owned());
            },
        },
        None => {
            return ResultFieldShape::Malformed("result has no pruned".to_owned());
        },
    };
    let initialblockdownload = match json_get(rv, "initialblockdownload") {
        Some(v) => match json_as_bool(v) {
            Some(b) => b,
            None => {
                return ResultFieldShape::Malformed(
                    "initialblockdownload is not a boolean".to_owned(),
                );
            },
        },
        None => {
            return ResultFieldShape::Malformed("result has no initialblockdownload".to_owned());
        },
    };
    ResultFieldShape::Blockchain(
        BlockchainInfo {
            chain,
            blocks,
            headers,
            bestblockhash,
            difficulty,
            verificationprogress,
            pruned,
            initialblockdownload,
        },
    )
}

/// Parse a response body into the shape of a JSON-RPC envelope for the
/// blockchain-status call, reading the parsed document only through the
/// trusted accessors: the result is pinned, up to the text of a parse
/// failure, by the names for what those accessors return.
fn decode_blockchain_body(body: &str) -> (r: RpcBodyShape)
    ensures
        r@ == spec_decode_blockchain_body(body@),
{
    let doc = match json_from_str(body) {
        Ok(doc) => doc,
        Err(e) => {
            return RpcBodyShape::Unparsable(e);
        },
    };
    if !json_is_object(&doc) {
        return RpcBodyShape::Unparsable("response is not a JSON object".to_owned());
    }
    let error_shape = match json_get(&doc, "error") {
        Some(ev) => decode_error_field(ev),
        None => ErrorFieldShape::AbsentOrNull,
    };
    let result_shape = match json_get(&doc, "result") {
        Some(rv) => decode_result_field(rv),
        None => ResultFieldShape::AbsentOrNull,
    };
    RpcBodyShape::Shaped(result_shape, error_shape)
}

/// Classification of a response-body shape: an unparsable body or a
/// malformed member is a parse failure; a reported error is a
/// structured protocol failure carrying code and message verbatim; a
/// missing result with no error is an empty-result failure; otherwise
/// the result is handed out.
pub open spec fn spec_classify(shape: RpcBodyShape) -> Result<BlockchainInfo, AppError> {
    match shape {
        RpcBodyShape::Unparsable(msg) => Err(AppError::BitcoinRpcParse(msg)),
        RpcBodyShape::Shaped(rs, es) => match rs {
            ResultFieldShape::Malformed(m) => Err(AppError::BitcoinRpcParse(m)),
            _ => match es {
                ErrorFieldShape::Malformed(m) => Err(AppError::BitcoinRpcParse(m)),
                ErrorFieldShape::Structured { code, message } => Err(
                    AppError::BitcoinRpcError { code, message },
                ),
                ErrorFieldShape::AbsentOrNull => match rs {
                    ResultFieldShape::Blockchain(info) => Ok(info),
                    _ => Err(AppError::BitcoinRpcNoResult),
                },
            },
        },
    }
}

/// Classify a response-body shape.  See [`spec_classify`] for the
/// normalized taxonomy this implements.
pub fn evaluate_rpc_body(shape: RpcBodyShape) -> (r: Result<BlockchainInfo, AppError>)
    ensures
        r == spec_classify(shape),
{
    match shape {
        RpcBodyShape::Unparsable(msg) => Err(AppError::BitcoinRpcParse(msg)),
        RpcBodyShape::Shaped(rs, es) => match rs {
            ResultFieldShape::Malformed(m) => Err(AppError::BitcoinRpcParse(m)),
            rs => match es {
                ErrorFieldShape::Malformed(m) => Err(AppError::BitcoinRpcParse(m)),
                ErrorFieldShape::Structured { code, message } => Err(
                    AppError::BitcoinRpcError { code, message },
                ),
                ErrorFieldShape::AbsentOrNull => match rs {
                    ResultFieldShape::Blockchain(info) => Ok(info),
                    _ => Err(AppError::BitcoinRpcNoResult),
                },
            },
        },
    }
}

/// Project a blockchain-status report onto the client-facing status:
/// a pure field mapping, with "is synced" the negation of "initial
/// block download in progress" and a fixed backend descriptor.
pub fn node_info_from(info: BlockchainInfo) -> (r: NodeInfo)
    ensures
        r.network == info.chain,
        r.block_height == info.blocks,
        r.best_block_hash == info.bestblockhash,
        r.sync.is_synced == !info.initialblockdownload,
        r.sync.progress@ == info.verificationprogress@,
        r.pruned == info.pruned,
        r.verification_progress == info.verificationprogress,
        r.backend.version@ == "Bitcoin Core"@,
        r.backend.node_type@ == "bitcoind"@,
{
    let progress = info.verificationprogress.clone();
    NodeInfo {
        network: info.chain,
        block_height: info.blocks,
        best_block_hash: info.bestblockhash,
        sync: SyncInfo { is_synced: !info.initialblockdownload, progress },
        pruned: info.pruned,
        verification_progress: info.verificationprogress,
        backend: BackendInfo { version: "Bitcoin Core".to_owned(), node_type: "bitcoind" },
    }
}

/// Lift the status projection over a classified call outcome: errors
/// pass through untouched.
pub fn node_info_outcome(outcome: Result<BlockchainInfo, AppError>) -> (r: Result<
    NodeInfo,
    AppError,
>)
    ensures
        match outcome {
            Err(e) => r == Err::<NodeInfo, AppError>(e),
            Ok(info) => r matches Ok(ni) && ni.network == info.chain && ni.block_height
                == info.blocks && ni.best_block_hash == info.bestblockhash && ni.sync.is_synced
                == !info.initialblockdownload && ni.sync.progress@ == info.verificationprogress@
                && ni.pruned == info.pruned && ni.verification_progress
                == info.verificationprogress && ni.backend.version@ == "Bitcoin Core"@
                && ni.backend.node_type@ == "bitcoind"@,
        },
{
    match outcome {
        Ok(info) => Ok(node_info_from(info)),
        Err(e) => Err(e),
    }
}

/// Outcome of an ad hoc connectivity probe: a bare success flag and a
/// human-readable message, never an error.
#[derive(Debug)]
pub struct TestConnectionResponse {
    pub success: bool,
    pub message: String,
}

/// Collapse a probe call's outcome into a bare success flag, as the
/// connectivity test does: every failure kind folds into `false`, and
/// no error ever propagates out of the probe.
pub fn test_connection(outcome: &Result<BlockchainInfo, AppError>) -> (r: Result<bool, DbError>)
    ensures
        r matches Ok(b) && b == (*outcome is Ok),
{
    match outcome {
        Ok(_) => Ok(true),
        Err(_) => Ok(false),
    }
}

/// The response the probe endpoint answers with, for a given success
/// flag.
pub fn connection_test_response(success: bool) -> (r: TestConnectionResponse)
    ensures
        r.success == success,
        success ==> r.message@ == "Connection successful"@,
        !success ==> r.message@ == "Connection failed"@,
{
    TestConnectionResponse {
        success,
        message: if success {
            "Connection successful".to_owned()
        } else {
            "Connection failed".to_owned()
        },
    }
}

} // verus!
