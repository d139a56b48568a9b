//! The decisions of the wallet's message interface: how panics and errors
//! become responses, which human-readable part an address is written with,
//! how a requested output amount is read, and when secrets are wiped.
use vstd::prelude::*;

use crate::address_generation::Account;
use crate::decimal::{parse_u64, parse_u64_spec};
use crate::error::WalletError;
use crate::hex::{decode_hex_u256, hex_decodable, limbs_value, prefixed_hex_u256};

verus! {

/// The human-readable part of the Shimmer test network.
pub const SHIMMER_TESTNET_BECH32_HRP: &'static str = "rms";

/// The accounts of a wallet.
#[derive(Debug, Clone, PartialEq, Eq)]
pub struct Wallet {
    pub accounts: Vec<Account>,
}

/// The answers that the message interface gives.
#[derive(Debug, PartialEq)]
pub enum Response {
    /// The message was handled and has no other answer.
    Done,
    /// Handling the message panicked; the text says how and where.
    Panic(String),
    /// Handling the message failed.
    Error(WalletError),
    /// An address in bech32.
    Bech32Address(String),
    /// The indexes of the wallet's accounts.
    AccountIndexes(Vec<u32>),
}

/// The wallet message handler.
pub struct WalletMessageHandler {
    wallet: Wallet,
}

impl WalletMessageHandler {
    pub closed spec fn wallet(&self) -> Wallet {
        self.wallet
    }

    /// Creates a new instance of the message handler with the specified wallet.
    pub fn with_manager(wallet: Wallet) -> (r: Self)
        ensures
            r.wallet() == wallet,
    {
        Self { wallet }
    }

    /// Answers a request for the indexes of the wallet's accounts, in the
    /// order of the accounts.
    pub fn account_indexes(&self) -> (r: Response)
        ensures
            r matches Response::AccountIndexes(v) && v@.len() == self.wallet().accounts@.len() && forall|i: int|
                0 <= i < v@.len() ==> v@[i] == (#[trigger] self.wallet().accounts@[i]).index,
    {
        let accounts = &self.wallet.accounts;
        let mut indexes: Vec<u32> = Vec::new();
        let n = accounts.len();
        let mut i: usize = 0;
        while i < n
            invariant
                n == accounts@.len(),
                i <= n,
                indexes@.len() == i,
                forall|j: int| 0 <= j < i ==> indexes@[j] == (#[trigger] accounts@[j]).index,
            decreases n - i,
        {
            indexes.push(accounts[i].index);
            i = i + 1;
        }
        Response::AccountIndexes(indexes)
    }
}

/// The answer to a message: its response, or its error.
pub fn into_response(result: Result<Response, WalletError>) -> (r: Response)
    ensures
        match result {
            Ok(v) => r == v,
            Err(e) => r == Response::Error(e),
        },
{
    match result {
        Ok(r) => r,
        Err(e) => Response::Error(e),
    }
}

/// What a panic carried: a message (a `String` or a `&str`), or anything else.
#[derive(Debug, Clone, PartialEq, Eq)]
pub enum PanicPayload {
    Message(String),
    Other,
}

/// The text that reports a panic.
pub open spec fn panic_text(payload: PanicPayload) -> Seq<char> {
    match payload {
        PanicPayload::Message(m) => "Internal error: "@ + m@,
        PanicPayload::Other => "Internal error"@,
    }
}

/// Reports a panic: `Internal error: ` and its message, or `Internal error`.
pub fn panic_message(payload: &PanicPayload) -> (r: String)
    ensures
        r@ == panic_text(*payload),
{
    match payload {
        PanicPayload::Message(m) => {
            let mut s = String::from_str("Internal error: ");
            s.append(m.as_str());
            s
        },
        PanicPayload::Other => String::from_str("Internal error"),
    }
}

/// Calls `backtrace::Backtrace::new` and writes the backtrace with its
/// `Debug` format. What it holds depends on the machine and the call stack,
/// so nothing is promised of it.
#[verifier::external_body]
fn current_backtrace() -> String {
    format!("{:?}", backtrace::Backtrace::new())
}

/// The response to a panic: its report, an empty line, and the current
/// backtrace.
pub fn panic_to_response_message(payload: &PanicPayload) -> (r: Response)
    ensures
        r matches Response::Panic(s) && s@.len() >= panic_text(*payload).len() + 2 && s@.take(
            panic_text(*payload).len() + 2int,
        ) == panic_text(*payload) + "\n\n"@,
{
    let mut text = panic_message(payload);
    text.append("\n\n");
    let ghost head = text@;
    let trace = current_backtrace();
    text.append(trace.as_str());
    proof {
        reveal_strlit("\n\n");
        assert(text@.take(head.len() as int) =~= head);
    }
    Response::Panic(text)
}

/// The human-readable part for a hex address to write in bech32 when the
/// message gives none: the node's, or the Shimmer test network's where the
/// node could not be asked.
pub fn fallback_bech32_hrp(node_hrp: Option<String>) -> (r: String)
    ensures
        match node_hrp {
            Some(h) => r == h,
            None => r@ == SHIMMER_TESTNET_BECH32_HRP@,
        },
{
    match node_hrp {
        Some(h) => h,
        None => String::from_str(SHIMMER_TESTNET_BECH32_HRP),
    }
}

/// The human-readable part to write an address with: the one the message
/// gives, else the fallback (which has to be fetched only then).
pub fn chosen_bech32_hrp(given: Option<String>, fallback: Option<String>) -> (r: String)
    requires
        given is None ==> fallback is Some,
    ensures
        r == match given {
            Some(h) => h,
            None => fallback.unwrap(),
        },
{
    match given {
        Some(h) => h,
        None => fallback.unwrap(),
    }
}

/// The amount of an output to build: the given one, else its minimum storage
/// deposit.
#[derive(Debug, Clone, PartialEq, Eq)]
pub enum OutputBuilderAmount {
    Amount(String),
    MinimumStorageDeposit,
}

pub fn output_builder_amount(amount: Option<String>) -> (r: OutputBuilderAmount)
    ensures
        match amount {
            Some(a) => r == OutputBuilderAmount::Amount(a),
            None => r == OutputBuilderAmount::MinimumStorageDeposit,
        },
{
    match amount {
        Some(a) => OutputBuilderAmount::Amount(a),
        None => OutputBuilderAmount::MinimumStorageDeposit,
    }
}

/// Calls `zeroize::Zeroize::zeroize` on a string. Its source overwrites the
/// bytes with zeros and clears the string, which is then empty.
#[verifier::external_body]
fn wipe(secret: &mut String)
    ensures
        final(secret)@ == Seq::<char>::empty(),
{
    zeroize::Zeroize::zeroize(secret)
}

/// Finishes a message that carried a secret (a mnemonic or a password): once
/// the wallet has accepted it, it is wiped and the answer is `Ok`; after an
/// error it is left as it is and the error is handed on.
pub fn finish_with_secret(outcome: Result<(), WalletError>, secret: &mut String) -> (r: Result<Response, WalletError>)
    ensures
        match outcome {
            Ok(()) => r == Ok::<Response, WalletError>(Response::Done) && final(secret)@ == Seq::<char>::empty(),
            Err(e) => r == Err::<Response, WalletError>(e) && *final(secret) == *old(secret),
        },
{
    match outcome {
        Ok(()) => {
            wipe(secret);
            Ok(Response::Done)
        },
        Err(e) => Err(e),
    }
}

/// As `finish_with_secret`, for a message that carried two secrets (the
/// current and the new password).
pub fn finish_with_secrets(outcome: Result<(), WalletError>, first: &mut String, second: &mut String) -> (r: Result<
    Response,
    WalletError,
>)
    ensures
        match outcome {
            Ok(()) => r == Ok::<Response, WalletError>(Response::Done) && final(first)@ == Seq::<char>::empty()
                && final(second)@ == Seq::<char>::empty(),
            Err(e) => r == Err::<Response, WalletError>(e) && *final(first) == *old(first) && *final(second) == *old(
                second,
            ),
        },
{
    match outcome {
        Ok(()) => {
            wipe(first);
            wipe(second);
            Ok(Response::Done)
        },
        Err(e) => Err(e),
    }
}

/// Reads an amount of a native token to burn, melt or mint, written as a
/// 256-bit number in `0x` hex; returns its little-endian 64-bit limbs. An
/// unreadable amount is an invalid `field` (`burn_amount`, `melt_amount` or
/// `mint_amount`).
pub fn token_amount(amount: &String, field: &'static str) -> (r: Result<[u64; 4], WalletError>)
    requires
        hex_decodable(amount@),
    ensures
        match r {
            Ok(l) => prefixed_hex_u256(amount@) == Some(limbs_value(l)),
            Err(e) => prefixed_hex_u256(amount@) is None && e == WalletError::InvalidField(field),
        },
{
    match decode_hex_u256(amount.as_str()) {
        Ok(l) => Ok(l),
        Err(_) => Err(WalletError::InvalidField(field)),
    }
}

/// Reads an amount of voting power, written as a decimal number.
pub fn voting_power_amount(amount: &String) -> (r: Result<u64, WalletError>)
    ensures
        match parse_u64_spec(amount@) {
            Some(v) => r == Ok::<u64, WalletError>(v),
            None => r matches Err(WalletError::InvalidAmount(s)) && s@ == amount@,
        },
{
    match parse_u64(amount.as_str()) {
        Some(v) => Ok(v),
        None => Err(WalletError::InvalidAmount(amount.clone())),
    }
}

} // verus!
