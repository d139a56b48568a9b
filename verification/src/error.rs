use vstd::prelude::*;

use crate::ids::Address;

verus! {

/// The errors of the wallet operations in this crate.
#[derive(Debug, PartialEq)]
pub enum WalletError {
    /// A parameter that the operation needs was not given.
    MissingParameter(&'static str),
    /// A field held a value that could not be read.
    InvalidField(&'static str),
    /// An amount was not a decimal number that fits in 64 bits.
    InvalidAmount(String),
    /// A hexadecimal identifier could not be decoded.
    Hex(prefix_hex::Error),
    /// A native token was given with the amount zero.
    NativeTokensNullAmount,
    /// No unspent NFT output holds the requested NFT.
    NftNotFoundInUnspentOutputs,
    /// The account has no address to send a remainder to.
    FailedToGetRemainder,
    /// An address that outputs were found for is not an address of the account.
    AddressNotFoundInAccount(Address),
}

} // verus!
