use vstd::prelude::*;

use crate::bytes::bytes_equal;
use crate::error::WalletError;
use crate::hex::{decode_hex_32, decode_hex_38, hex_decodable, prefixed_hex_array};

verus! {

/// Compares two byte arrays of the same length.
pub(crate) fn arrays_equal<const N: usize>(a: &[u8; N], b: &[u8; N]) -> (r: bool)
    ensures
        r == (a@ == b@),
{
    bytes_equal(a.as_slice(), b.as_slice())
}

/// Every byte is zero.
pub open spec fn all_zero(s: Seq<u8>) -> bool {
    forall|i: int| 0 <= i < s.len() ==> #[trigger] s[i] == 0
}

/// Tests whether every byte of an array is zero.
pub(crate) fn array_is_zero<const N: usize>(a: &[u8; N]) -> (r: bool)
    ensures
        r == all_zero(a@),
{
    let mut i: usize = 0;
    while i < N
        invariant
            a@.len() == N,
            i <= N,
            forall|j: int| 0 <= j < i ==> a@[j] == 0,
        decreases N - i,
    {
        if a[i] != 0 {
            return false;
        }
        i = i + 1;
    }
    true
}

/// The identifier of an NFT: 32 bytes; all zero while the NFT is being minted.
#[derive(Debug, Clone, Copy, PartialEq, Eq)]
pub struct NftId {
    pub bytes: [u8; 32],
}

impl View for NftId {
    type V = Seq<u8>;

    open spec fn view(&self) -> Seq<u8> {
        self.bytes@
    }
}

impl NftId {
    /// The null identifier is all zero.
    pub fn is_null(&self) -> (r: bool)
        ensures
            r == all_zero(self@),
    {
        array_is_zero(&self.bytes)
    }

    pub fn same_as(&self, other: &NftId) -> (r: bool)
        ensures
            r == (self@ == other@),
    {
        arrays_equal(&self.bytes, &other.bytes)
    }

    /// Reads an identifier written as `0x` and 64 hexadecimal digits (the
    /// decoder panics on a single character of more than one byte).
    pub fn from_hex(s: &str) -> (r: Result<NftId, WalletError>)
        requires
            hex_decodable(s@),
        ensures
            match r {
                Ok(id) => prefixed_hex_array(s@, 32) == Some(id@),
                Err(e) => prefixed_hex_array(s@, 32) is None && e is Hex,
            },
    {
        match decode_hex_32(s) {
            Ok(bytes) => Ok(NftId { bytes }),
            Err(e) => Err(WalletError::Hex(e)),
        }
    }
}

/// The identifier of a native token: 38 bytes.
#[derive(Debug, Clone, Copy, PartialEq, Eq)]
pub struct TokenId {
    pub bytes: [u8; 38],
}

impl View for TokenId {
    type V = Seq<u8>;

    open spec fn view(&self) -> Seq<u8> {
        self.bytes@
    }
}

impl TokenId {
    pub fn same_as(&self, other: &TokenId) -> (r: bool)
        ensures
            r == (self@ == other@),
    {
        arrays_equal(&self.bytes, &other.bytes)
    }

    /// Reads an identifier written as `0x` and 76 hexadecimal digits.
    pub fn from_hex(s: &str) -> (r: Result<TokenId, WalletError>)
        requires
            hex_decodable(s@),
        ensures
            match r {
                Ok(id) => prefixed_hex_array(s@, 38) == Some(id@),
                Err(e) => prefixed_hex_array(s@, 38) is None && e is Hex,
            },
    {
        match decode_hex_38(s) {
            Ok(bytes) => Ok(TokenId { bytes }),
            Err(e) => Err(WalletError::Hex(e)),
        }
    }
}

/// The identifier of an output: the transaction that created it and its
/// index among that transaction's outputs.
#[derive(Debug, Clone, Copy, PartialEq, Eq)]
pub struct OutputId {
    pub transaction_id: [u8; 32],
    pub index: u16,
}

impl View for OutputId {
    type V = (Seq<u8>, u16);

    open spec fn view(&self) -> (Seq<u8>, u16) {
        (self.transaction_id@, self.index)
    }
}

impl OutputId {
    pub fn same_as(&self, other: &OutputId) -> (r: bool)
        ensures
            r == (self@ == other@),
    {
        self.index == other.index && arrays_equal(&self.transaction_id, &other.transaction_id)
    }
}

/// The kind of an address.
#[derive(Debug, Clone, Copy, PartialEq, Eq)]
pub enum AddressKind {
    Ed25519,
    Alias,
    Nft,
}

/// An address: its kind and the 32 bytes that identify it.
#[derive(Debug, Clone, Copy, PartialEq, Eq)]
pub struct Address {
    pub kind: AddressKind,
    pub bytes: [u8; 32],
}

impl View for Address {
    type V = (AddressKind, Seq<u8>);

    open spec fn view(&self) -> (AddressKind, Seq<u8>) {
        (self.kind, self.bytes@)
    }
}

impl Address {
    pub fn same_as(&self, other: &Address) -> (r: bool)
        ensures
            r == (self@ == other@),
    {
        let same_kind = match (self.kind, other.kind) {
            (AddressKind::Ed25519, AddressKind::Ed25519) => true,
            (AddressKind::Alias, AddressKind::Alias) => true,
            (AddressKind::Nft, AddressKind::Nft) => true,
            _ => false,
        };
        same_kind && arrays_equal(&self.bytes, &other.bytes)
    }
}

} // verus!
