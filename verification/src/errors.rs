//! Application error taxonomy: a closed set of error kinds with an
//! exhaustive mapping to HTTP status, machine-readable tag,
//! human-readable message and optional detail.

use vstd::prelude::*;
use vstd::string::StringExecFns;

use crate::store::DbError;

verus! {

/// The decimal character for a single digit.
pub open spec fn spec_digit_char(d: nat) -> char {
    if d == 0 {
        '0'
    } else if d == 1 {
        '1'
    } else if d == 2 {
        '2'
    } else if d == 3 {
        '3'
    } else if d == 4 {
        '4'
    } else if d == 5 {
        '5'
    } else if d == 6 {
        '6'
    } else if d == 7 {
        '7'
    } else if d == 8 {
        '8'
    } else {
        '9'
    }
}

/// Decimal representation of a natural number, most significant digit
/// first, with no leading zeros (a lone zero for zero itself).
pub open spec fn spec_dec_nat(n: nat) -> Seq<char>
    decreases n,
{
    if n < 10 {
        seq![spec_digit_char(n)]
    } else {
        spec_dec_nat(n / 10).push(spec_digit_char(n % 10))
    }
}

/// Decimal representation of an integer: a leading minus sign for
/// negative values.
pub open spec fn spec_dec_int(n: int) -> Seq<char> {
    if n < 0 {
        seq!['-'] + spec_dec_nat((-n) as nat)
    } else {
        spec_dec_nat(n as nat)
    }
}

/// The one-character string for a single decimal digit.
fn digit_str(d: u64) -> (r: &'static str)
    requires
        d < 10,
    ensures
        r@ == seq![spec_digit_char(d as nat)],
{
    if d == 0 {
        proof {
            reveal_strlit("0");
            assert("0"@ =~= seq!['0']);
        }
        "0"
    } else if d == 1 {
        proof {
            reveal_strlit("1");
            assert("1"@ =~= seq!['1']);
        }
        "1"
    } else if d == 2 {
        proof {
            reveal_strlit("2");
            assert("2"@ =~= seq!['2']);
        }
        "2"
    } else if d == 3 {
        proof {
            reveal_strlit("3");
            assert("3"@ =~= seq!['3']);
        }
        "3"
    } else if d == 4 {
        proof {
            reveal_strlit("4");
            assert("4"@ =~= seq!['4']);
        }
        "4"
    } else if d == 5 {
        proof {
            reveal_strlit("5");
            assert("5"@ =~= seq!['5']);
        }
        "5"
    } else if d == 6 {
        proof {
            reveal_strlit("6");
            assert("6"@ =~= seq!['6']);
        }
        "6"
    } else if d == 7 {
        proof {
            reveal_strlit("7");
            assert("7"@ =~= seq!['7']);
        }
        "7"
    } else if d == 8 {
        proof {
            reveal_strlit("8");
            assert("8"@ =~= seq!['8']);
        }
        "8"
    } else {
        proof {
            reveal_strlit("9");
            assert("9"@ =~= seq!['9']);
        }
        "9"
    }
}

/// Decimal rendering of an unsigned number.
pub fn u64_to_dec(n: u64) -> (r: String)
    ensures
        r@ == spec_dec_nat(n as nat),
    decreases n,
{
    if n < 10 {
        digit_str(n).to_owned()
    } else {
        let front = u64_to_dec(n / 10);
        let r = front.concat(digit_str(n % 10));
        proof {
            assert(r@ =~= spec_dec_nat(n as nat));
        }
        r
    }
}

/// Decimal rendering of a signed number.
pub fn i32_to_dec(n: i32) -> (r: String)
    ensures
        r@ == spec_dec_int(n as int),
{
    if n < 0 {
        let m: u64 = (-(n as i64)) as u64;
        let tail = u64_to_dec(m);
        let r = "-".to_owned().concat(tail.as_str());
        proof {
            reveal_strlit("-");
            assert("-"@ =~= seq!['-']);
            assert(r@ =~= spec_dec_int(n as int));
        }
        r
    } else {
        u64_to_dec(n as u64)
    }
}

/// Application error kinds, one per failure class the system surfaces.
#[derive(Debug)]
pub enum AppError {
    /// Transport-level failure reaching the remote node.
    BitcoinRpcConnection(String),
    /// The remote node returned a structured error.
    BitcoinRpcError { code: i32, message: String },
    /// The response body did not match the expected shape.
    BitcoinRpcParse(String),
    /// The response carried neither a result nor an error.
    BitcoinRpcNoResult,
    /// Environment configuration error.
    ConfigError(String),
    /// Internal server error.
    Internal(String),
    /// Resource not found.
    NotFound(String),
    /// Underlying storage failure.
    DatabaseError(String),
}

impl AppError {
    /// The HTTP status each kind maps to.
    pub open spec fn spec_status_code(self) -> u16 {
        match self {
            AppError::BitcoinRpcConnection(_) => 502,
            AppError::BitcoinRpcError { .. } => 502,
            AppError::BitcoinRpcParse(_) => 502,
            AppError::BitcoinRpcNoResult => 502,
            AppError::ConfigError(_) => 500,
            AppError::Internal(_) => 500,
            AppError::NotFound(_) => 404,
            AppError::DatabaseError(_) => 500,
        }
    }

    /// HTTP status code for this error.
    pub fn status_code(&self) -> (r: u16)
        ensures
            r == self.spec_status_code(),
    {
        match self {
            AppError::BitcoinRpcConnection(_) => 502,
            AppError::BitcoinRpcError { .. } => 502,
            AppError::BitcoinRpcParse(_) => 502,
            AppError::BitcoinRpcNoResult => 502,
            AppError::ConfigError(_) => 500,
            AppError::Internal(_) => 500,
            AppError::NotFound(_) => 404,
            AppError::DatabaseError(_) => 500,
        }
    }

    /// The machine-readable tag of each kind.
    pub open spec fn spec_error_type(self) -> Seq<char> {
        match self {
            AppError::BitcoinRpcConnection(_) => "bitcoin_rpc_connection_error"@,
            AppError::BitcoinRpcError { .. } => "bitcoin_rpc_error"@,
            AppError::BitcoinRpcParse(_) => "bitcoin_rpc_parse_error"@,
            AppError::BitcoinRpcNoResult => "bitcoin_rpc_no_result"@,
            AppError::ConfigError(_) => "config_error"@,
            AppError::Internal(_) => "internal_server_error"@,
            AppError::NotFound(_) => "not_found"@,
            AppError::DatabaseError(_) => "database_error"@,
        }
    }

    /// Machine-readable tag for this error.
    pub fn error_type(&self) -> (r: &'static str)
        ensures
            r@ == self.spec_error_type(),
    {
        match self {
            AppError::BitcoinRpcConnection(_) => "bitcoin_rpc_connection_error",
            AppError::BitcoinRpcError { .. } => "bitcoin_rpc_error",
            AppError::BitcoinRpcParse(_) => "bitcoin_rpc_parse_error",
            AppError::BitcoinRpcNoResult => "bitcoin_rpc_no_result",
            AppError::ConfigError(_) => "config_error",
            AppError::Internal(_) => "internal_server_error",
            AppError::NotFound(_) => "not_found",
            AppError::DatabaseError(_) => "database_error",
        }
    }

    /// The human-readable message of each kind.
    pub open spec fn spec_message(self) -> Seq<char> {
        match self {
            AppError::BitcoinRpcConnection(msg) => "Failed to connect to Bitcoin node: "@ + msg@,
            AppError::BitcoinRpcError { code, message } => "Bitcoin RPC error (code "@
                + spec_dec_int(code as int) + "): "@ + message@,
            AppError::BitcoinRpcParse(msg) => "Failed to parse Bitcoin RPC response: "@ + msg@,
            AppError::BitcoinRpcNoResult => "Bitcoin RPC returned no result"@,
            AppError::ConfigError(msg) => "Configuration error: "@ + msg@,
            AppError::Internal(msg) => "Internal server error: "@ + msg@,
            AppError::NotFound(msg) => msg@,
            AppError::DatabaseError(msg) => "Database error: "@ + msg@,
        }
    }

    /// Human-readable message for this error.
    pub fn message(&self) -> (r: String)
        ensures
            r@ == self.spec_message(),
    {
        match self {
            AppError::BitcoinRpcConnection(msg) => "Failed to connect to Bitcoin node: ".to_owned()
                .concat(msg.as_str()),
            AppError::BitcoinRpcError { code, message } => {
                let digits = i32_to_dec(*code);
                let r = "Bitcoin RPC error (code ".to_owned().concat(digits.as_str()).concat(
                    "): ",
                ).concat(message.as_str());
                proof {
                    assert(r@ =~= self.spec_message());
                }
                r
            },
            AppError::BitcoinRpcParse(msg) => "Failed to parse Bitcoin RPC response: ".to_owned()
                .concat(msg.as_str()),
            AppError::BitcoinRpcNoResult => "Bitcoin RPC returned no result".to_owned(),
            AppError::ConfigError(msg) => "Configuration error: ".to_owned().concat(msg.as_str()),
            AppError::Internal(msg) => "Internal server error: ".to_owned().concat(msg.as_str()),
            AppError::NotFound(msg) => msg.clone(),
            AppError::DatabaseError(msg) => "Database error: ".to_owned().concat(msg.as_str()),
        }
    }

    /// Additional detail: only the structured remote error carries one.
    pub fn details(&self) -> (r: Option<String>)
        ensures
            match (r, *self) {
                (Some(s), AppError::BitcoinRpcError { code, message }) => s@ == "RPC error code: "@
                    + spec_dec_int(code as int) + ", message: "@ + message@,
                (None, e) => !(e is BitcoinRpcError),
                _ => false,
            },
    {
        match self {
            AppError::BitcoinRpcError { code, message } => {
                let digits = i32_to_dec(*code);
                let s = "RPC error code: ".to_owned().concat(digits.as_str()).concat(
                    ", message: ",
                ).concat(message.as_str());
                proof {
                    assert(s@ =~= "RPC error code: "@ + spec_dec_int(*code as int) + ", message: "@
                        + message@);
                }
                Some(s)
            },
            _ => None,
        }
    }

    /// Map a store error onto the application taxonomy, as the handler
    /// boundary does: a missing record keeps its not-found identity,
    /// every other store failure surfaces as a database error.
    pub fn from_db(err: DbError) -> (r: AppError)
        ensures
            match err {
                DbError::NotFound => r matches AppError::NotFound(m) && m@
                    == "Record not found"@,
                DbError::DatabaseError(m0) => r matches AppError::DatabaseError(m) && m == m0,
                DbError::InvalidInput(m0) => r matches AppError::DatabaseError(m) && m == m0,
            },
    {
        match err {
            DbError::NotFound => AppError::NotFound(err.message()),
            DbError::DatabaseError(m) => AppError::DatabaseError(m),
            DbError::InvalidInput(m) => AppError::DatabaseError(m),
        }
    }
}

} // verus!
