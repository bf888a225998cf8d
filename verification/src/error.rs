//! The errors that the Indy SDK reports to the ledger commands, and the
//! messages by which the commands report them.
use vstd::prelude::*;
use crate::text::{append_i32, int_decimal, lemma_int_decimal_injective, lemma_middle_determined};

verus! {

/// An error code of the Indy SDK, as the ledger commands tell them apart.
/// The codes that no command treats on its own are carried by the name
/// under which the SDK's `Debug` prints them.
pub enum ErrorCode {
    CommonInvalidStructure,
    WalletNotFoundError,
    LedgerInvalidTransaction,
    WalletIncompatiblePoolError,
    Other(String),
}

/// The name of an error code, as `{:?}` prints it.
pub open spec fn error_code_name(err: ErrorCode) -> Seq<char> {
    match err {
        ErrorCode::CommonInvalidStructure => "CommonInvalidStructure"@,
        ErrorCode::WalletNotFoundError => "WalletNotFoundError"@,
        ErrorCode::LedgerInvalidTransaction => "LedgerInvalidTransaction"@,
        ErrorCode::WalletIncompatiblePoolError => "WalletIncompatiblePoolError"@,
        ErrorCode::Other(name) => name@,
    }
}

/// The message for an error that no command treats on its own.
pub open spec fn sdk_error_message(err: ErrorCode) -> Seq<char> {
    "Indy SDK error occurred "@ + error_code_name(err)
}

impl ErrorCode {
    /// The name of the error code, as `{:?}` prints it.
    pub fn name(&self) -> (r: String)
        ensures
            r@ == error_code_name(*self),
    {
        match self {
            ErrorCode::CommonInvalidStructure => String::from_str("CommonInvalidStructure"),
            ErrorCode::WalletNotFoundError => String::from_str("WalletNotFoundError"),
            ErrorCode::LedgerInvalidTransaction => String::from_str("LedgerInvalidTransaction"),
            ErrorCode::WalletIncompatiblePoolError => String::from_str(
                "WalletIncompatiblePoolError",
            ),
            ErrorCode::Other(name) => name.clone(),
        }
    }
}

/// `Indy SDK error occurred <name>`.
pub fn sdk_error(err: &ErrorCode) -> (r: String)
    ensures
        r@ == sdk_error_message(*err),
{
    let mut r = String::from_str("Indy SDK error occurred ");
    let name = err.name();
    r.append(name.as_str());
    r
}

/// The message that a command which sends a transaction prints when the
/// ledger refused it.
pub open spec fn send_error_message(
    err: ErrorCode,
    submitter_did: Seq<char>,
    pool_handle: int,
    wallet_handle: int,
) -> Seq<char> {
    match err {
        ErrorCode::CommonInvalidStructure => "Wrong command params"@,
        ErrorCode::WalletNotFoundError => "Submitter DID: \""@ + submitter_did + "\" not found"@,
        ErrorCode::LedgerInvalidTransaction => "Invalid transaction"@,
        ErrorCode::WalletIncompatiblePoolError => "Pool handle \""@ + int_decimal(pool_handle)
            + "\" invalid for wallet handle \""@ + int_decimal(wallet_handle) + "\""@,
        ErrorCode::Other(_) => sdk_error_message(err),
    }
}

/// The message that a command which reads from the ledger prints when its
/// request failed.
pub open spec fn get_error_message(err: ErrorCode) -> Seq<char> {
    match err {
        ErrorCode::CommonInvalidStructure => "Wrong command params"@,
        ErrorCode::LedgerInvalidTransaction => "Invalid transaction"@,
        _ => sdk_error_message(err),
    }
}

/// The error message of a command that sent a transaction which the ledger
/// did not accept. The command prints it as an error and fails.
pub fn handle_send_command_error(
    err: ErrorCode,
    submitter_did: &str,
    pool_handle: i32,
    wallet_handle: i32,
) -> (message: String)
    ensures
        message@ == send_error_message(err, submitter_did@, pool_handle as int, wallet_handle as int),
{
    match err {
        ErrorCode::CommonInvalidStructure => String::from_str("Wrong command params"),
        ErrorCode::WalletNotFoundError => {
            let mut m = String::from_str("Submitter DID: \"");
            m.append(submitter_did);
            m.append("\" not found");
            m
        },
        ErrorCode::LedgerInvalidTransaction => String::from_str("Invalid transaction"),
        ErrorCode::WalletIncompatiblePoolError => {
            let mut m = String::from_str("Pool handle \"");
            append_i32(&mut m, pool_handle);
            m.append("\" invalid for wallet handle \"");
            append_i32(&mut m, wallet_handle);
            m.append("\"");
            m
        },
        ErrorCode::Other(_) => sdk_error(&err),
    }
}

/// The error message of a command whose request to read from the ledger
/// failed. The command prints it as an error and fails.
pub fn handle_get_command_error(err: ErrorCode) -> (message: String)
    ensures
        message@ == get_error_message(err),
{
    match err {
        ErrorCode::CommonInvalidStructure => String::from_str("Wrong command params"),
        ErrorCode::LedgerInvalidTransaction => String::from_str("Invalid transaction"),
        _ => sdk_error(&err),
    }
}

/// Reading and sending report an error alike, unless it concerns the wallet:
/// for every error but `WalletNotFoundError` and
/// `WalletIncompatiblePoolError`, the two messages are the same.
pub proof fn lemma_get_and_send_errors_agree(
    err: ErrorCode,
    submitter_did: Seq<char>,
    pool_handle: int,
    wallet_handle: int,
)
    requires
        !(err is WalletNotFoundError),
        !(err is WalletIncompatiblePoolError),
    ensures
        get_error_message(err) == send_error_message(err, submitter_did, pool_handle, wallet_handle),
{
}

/// What a sending command says of each error: wrong parameters; the
/// submitter DID that was not found; an invalid transaction; the pool
/// handle, then the wallet handle, in decimal, that do not go together; and
/// for any other error its name after `Indy SDK error occurred `.
pub proof fn lemma_send_error_messages(submitter_did: Seq<char>, pool_handle: int, wallet_handle: int, name: String)
    ensures
        send_error_message(ErrorCode::CommonInvalidStructure, submitter_did, pool_handle, wallet_handle)
            == "Wrong command params"@,
        send_error_message(ErrorCode::WalletNotFoundError, submitter_did, pool_handle, wallet_handle)
            == "Submitter DID: \""@ + submitter_did + "\" not found"@,
        send_error_message(ErrorCode::LedgerInvalidTransaction, submitter_did, pool_handle, wallet_handle)
            == "Invalid transaction"@,
        send_error_message(ErrorCode::WalletIncompatiblePoolError, submitter_did, pool_handle, wallet_handle)
            == "Pool handle \""@ + int_decimal(pool_handle) + "\" invalid for wallet handle \""@
            + int_decimal(wallet_handle) + "\""@,
        send_error_message(ErrorCode::Other(name), submitter_did, pool_handle, wallet_handle)
            == "Indy SDK error occurred "@ + name@,
{
}

/// The message of a pool and wallet mismatch tells the wallet handle: two
/// such messages for the same pool handle are the same exactly when the
/// wallet handles are.
pub proof fn lemma_pool_mismatch_shows_wallet(submitter_did: Seq<char>, pool_handle: int, w1: int, w2: int)
    ensures
        send_error_message(ErrorCode::WalletIncompatiblePoolError, submitter_did, pool_handle, w1)
            == send_error_message(ErrorCode::WalletIncompatiblePoolError, submitter_did, pool_handle, w2)
            <==> w1 == w2,
{
    let pre = "Pool handle \""@ + int_decimal(pool_handle) + "\" invalid for wallet handle \""@;
    let post = "\""@;
    assert(send_error_message(ErrorCode::WalletIncompatiblePoolError, submitter_did, pool_handle, w1)
        =~= pre + int_decimal(w1) + post);
    assert(send_error_message(ErrorCode::WalletIncompatiblePoolError, submitter_did, pool_handle, w2)
        =~= pre + int_decimal(w2) + post);
    if send_error_message(ErrorCode::WalletIncompatiblePoolError, submitter_did, pool_handle, w1)
        == send_error_message(ErrorCode::WalletIncompatiblePoolError, submitter_did, pool_handle, w2) {
        lemma_middle_determined(pre, int_decimal(w1), int_decimal(w2), post);
    }
    lemma_int_decimal_injective(w1, w2);
}

/// The message of a submitter DID that was not found tells that DID: two
/// such messages are the same exactly when the DIDs are.
pub proof fn lemma_wallet_not_found_shows_did(d1: Seq<char>, d2: Seq<char>, pool_handle: int, wallet_handle: int)
    ensures
        send_error_message(ErrorCode::WalletNotFoundError, d1, pool_handle, wallet_handle)
            == send_error_message(ErrorCode::WalletNotFoundError, d2, pool_handle, wallet_handle)
            <==> d1 == d2,
{
    if send_error_message(ErrorCode::WalletNotFoundError, d1, pool_handle, wallet_handle)
        == send_error_message(ErrorCode::WalletNotFoundError, d2, pool_handle, wallet_handle) {
        lemma_middle_determined("Submitter DID: \""@, d1, d2, "\" not found"@);
    }
}

/// What a reading command says of each error: wrong parameters; an invalid
/// transaction; and for any other error its name after `Indy SDK error
/// occurred `.
pub proof fn lemma_get_error_messages(err: ErrorCode)
    ensures
        err is CommonInvalidStructure ==> get_error_message(err) == "Wrong command params"@,
        err is LedgerInvalidTransaction ==> get_error_message(err) == "Invalid transaction"@,
        !(err is CommonInvalidStructure) && !(err is LedgerInvalidTransaction) ==> get_error_message(err)
            == "Indy SDK error occurred "@ + error_code_name(err),
        err is CommonInvalidStructure ==> error_code_name(err) == "CommonInvalidStructure"@,
        err is LedgerInvalidTransaction ==> error_code_name(err) == "LedgerInvalidTransaction"@,
        err is WalletNotFoundError ==> error_code_name(err) == "WalletNotFoundError"@,
        err is WalletIncompatiblePoolError ==> error_code_name(err) == "WalletIncompatiblePoolError"@,
        err matches ErrorCode::Other(name) ==> error_code_name(err) == name@,
{
}

} // verus!
