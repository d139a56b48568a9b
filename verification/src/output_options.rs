use vstd::prelude::*;

use crate::decimal::{parse_u64, parse_u64_spec};
use crate::error::WalletError;
use crate::hex::{decode_hex_38, decode_hex_u256, hex_decodable, is_hex_decodable, lemma_limbs_zero, limbs_value, prefixed_hex_array, prefixed_hex_u256};
use crate::ids::{NftId, TokenId};

verus! {

/// An amount of a native token, held as a 256-bit number.
#[derive(Debug, Clone, Copy, PartialEq, Eq)]
pub struct NativeToken {
    pub token_id: TokenId,
    /// Little-endian 64-bit limbs of the amount.
    pub amount: [u64; 4],
}

impl NativeToken {
    pub open spec fn amount_value(&self) -> nat {
        limbs_value(self.amount)
    }
}

/// A native token as it is written in a message: both fields in `0x` hex.
#[derive(Debug, Clone, PartialEq, Eq)]
pub struct NativeTokenDto {
    pub token_id: String,
    pub amount: String,
}

/// A native token written in a message can be read.
pub open spec fn native_token_dto_valid(dto: NativeTokenDto) -> bool {
    &&& prefixed_hex_array(dto.token_id@, 38) is Some
    &&& prefixed_hex_u256(dto.amount@) is Some
    &&& prefixed_hex_u256(dto.amount@).unwrap() != 0
}

/// The error that reading an unreadable native token gives: the identifier is
/// checked first, then the amount, then that the amount is not zero.
pub open spec fn native_token_dto_error(dto: NativeTokenDto, e: WalletError) -> bool {
    if prefixed_hex_array(dto.token_id@, 38) is None {
        e is Hex
    } else if prefixed_hex_u256(dto.amount@) is None {
        e == WalletError::InvalidField("amount")
    } else {
        e == WalletError::NativeTokensNullAmount
    }
}

/// Reading the native token does not reach an input on which the hex
/// decoder panics: the identifier is decoded first, the amount only after a
/// readable identifier.
pub open spec fn native_token_dto_decodable(dto: NativeTokenDto) -> bool {
    &&& hex_decodable(dto.token_id@)
    &&& (prefixed_hex_array(dto.token_id@, 38) is Some ==> hex_decodable(dto.amount@))
}

/// Reading native tokens in turn stops at the first unreadable one, and
/// reaches no input on which the hex decoder panics.
pub open spec fn native_tokens_dtos_decodable(dtos: Seq<NativeTokenDto>) -> bool {
    forall|k: int|
        0 <= k < dtos.len() && (forall|j: int| 0 <= j < k ==> native_token_dto_valid(#[trigger] dtos[j]))
            ==> native_token_dto_decodable(#[trigger] dtos[k])
}

/// The native token that a readable message entry stands for.
pub open spec fn native_token_read(dto: NativeTokenDto, t: NativeToken) -> bool {
    &&& prefixed_hex_array(dto.token_id@, 38) == Some(t.token_id@)
    &&& prefixed_hex_u256(dto.amount@) == Some(t.amount_value())
}

impl NativeToken {
    /// Reads a native token from its message form.
    pub fn try_from_dto(dto: &NativeTokenDto) -> (r: Result<NativeToken, WalletError>)
        requires
            native_token_dto_decodable(*dto),
        ensures
            r is Ok <==> native_token_dto_valid(*dto),
            r matches Ok(t) ==> native_token_read(*dto, t),
            r matches Err(e) ==> native_token_dto_error(*dto, e),
    {
        let token_id = TokenId::from_hex(dto.token_id.as_str())?;
        let amount = match decode_hex_u256(dto.amount.as_str()) {
            Ok(l) => l,
            Err(_) => return Err(WalletError::InvalidField("amount")),
        };
        proof {
            lemma_limbs_zero(amount);
        }
        if amount[0] == 0 && amount[1] == 0 && amount[2] == 0 && amount[3] == 0 {
            return Err(WalletError::NativeTokensNullAmount);
        }
        Ok(NativeToken { token_id, amount })
    }
}

/// The assets to send along with an output.
#[derive(Debug, Default, Clone, PartialEq, Eq)]
pub struct Assets {
    pub native_tokens: Option<Vec<NativeToken>>,
    pub nft_id: Option<NftId>,
}

/// Features to add to an output; each is written as the message carries it.
#[derive(Debug, Default, Clone, PartialEq, Eq)]
pub struct Features {
    /// A tag in `0x` hex.
    pub tag: Option<String>,
    /// Metadata in `0x` hex.
    pub metadata: Option<String>,
    /// An issuer address in bech32; only an NFT output may have one.
    pub issuer: Option<String>,
    /// A sender address in bech32.
    pub sender: Option<String>,
}

/// Unix times at which an output expires or stops being locked.
#[derive(Debug, Default, Clone, Copy, PartialEq, Eq)]
pub struct Unlocks {
    pub expiration_unix_time: Option<u32>,
    pub timelock_unix_time: Option<u32>,
}

/// What to do when the amount is below the minimum storage deposit.
#[derive(Debug, Default, Clone, Copy, PartialEq, Eq)]
pub struct StorageDeposit {
    pub return_strategy: Option<ReturnStrategy>,
    /// If the account has 2 Mi, the minimum storage deposit is 1 Mi and one
    /// wants to send 1.5 Mi, the 0.5 Mi remainder could not stand alone; with
    /// this set it is added to the output.
    pub use_excess_if_low: Option<bool>,
}

/// How the storage deposit that the recipient did not ask for is handled.
#[derive(Debug, Clone, Copy, PartialEq, Eq, Default)]
pub enum ReturnStrategy {
    /// A storage deposit return unlock condition is added with the required
    /// minimum storage deposit.
    #[default]
    Return,
    /// The recipient gets the additional amount needed for the minimum
    /// storage deposit as a gift.
    Gift,
}

/// What an output to send is made of.
#[derive(Debug, Clone, PartialEq, Eq)]
pub struct OutputOptions {
    pub recipient_address: String,
    pub amount: u64,
    pub assets: Option<Assets>,
    pub features: Option<Features>,
    pub unlocks: Option<Unlocks>,
    pub storage_deposit: Option<StorageDeposit>,
}

/// Output options as a message carries them: the amount as a decimal string.
#[derive(Debug, Clone, PartialEq, Eq)]
pub struct OutputOptionsDto {
    pub recipient_address: String,
    pub amount: String,
    pub assets: Option<AssetsDto>,
    pub features: Option<Features>,
    pub unlocks: Option<Unlocks>,
    pub storage_deposit: Option<StorageDeposit>,
}

/// Assets as a message carries them: the NFT identifier in `0x` hex.
#[derive(Debug, Clone, PartialEq, Eq)]
pub struct AssetsDto {
    pub native_tokens: Option<Vec<NativeTokenDto>>,
    pub nft_id: Option<String>,
}

pub(crate) fn clone_opt_string(s: &Option<String>) -> (r: Option<String>)
    ensures
        r == *s,
{
    match s {
        Some(v) => Some(v.clone()),
        None => None,
    }
}

impl Features {
    pub(crate) fn duplicate(&self) -> (r: Features)
        ensures
            r == *self,
    {
        Features {
            tag: clone_opt_string(&self.tag),
            metadata: clone_opt_string(&self.metadata),
            issuer: clone_opt_string(&self.issuer),
            sender: clone_opt_string(&self.sender),
        }
    }
}

pub(crate) fn clone_opt_features(f: &Option<Features>) -> (r: Option<Features>)
    ensures
        r == *f,
{
    match f {
        Some(v) => Some(v.duplicate()),
        None => None,
    }
}

/// The NFT identifier of a message can be read, or there is none.
pub open spec fn nft_id_dto_valid(nft_id: Option<String>) -> bool {
    nft_id matches Some(s) ==> prefixed_hex_array(s@, 32) is Some
}

/// Every native token of a message can be read, or there are none.
pub open spec fn native_tokens_dto_valid(tokens: Option<Vec<NativeTokenDto>>) -> bool {
    tokens matches Some(v) ==> forall|i: int| 0 <= i < v@.len() ==> native_token_dto_valid(#[trigger] v@[i])
}

impl AssetsDto {
    /// Reading the assets reaches no input on which the hex decoder panics:
    /// the NFT identifier is decoded only after all native tokens were read.
    pub open spec fn decodable(&self) -> bool {
        &&& (self.native_tokens matches Some(v) ==> native_tokens_dtos_decodable(v@))
        &&& (native_tokens_dto_valid(self.native_tokens) ==> (self.nft_id matches Some(s) ==> hex_decodable(s@)))
    }

    /// The assets can be read.
    pub open spec fn valid(&self) -> bool {
        native_tokens_dto_valid(self.native_tokens) && nft_id_dto_valid(self.nft_id)
    }
}

/// The assets that a readable message entry stands for.
pub open spec fn assets_read(dto: AssetsDto, a: Assets) -> bool {
    &&& a.native_tokens is Some == dto.native_tokens is Some
    &&& (a.native_tokens matches Some(v) ==> v@.len() == dto.native_tokens.unwrap()@.len() && forall|i: int|
        0 <= i < v@.len() ==> native_token_read(#[trigger] dto.native_tokens.unwrap()@[i], v@[i]))
    &&& a.nft_id is Some == dto.nft_id is Some
    &&& (a.nft_id matches Some(id) ==> prefixed_hex_array(dto.nft_id.unwrap()@, 32) == Some(id@))
}

/// The error that reading unreadable assets gives: that of the first native
/// token that cannot be read, else that of the NFT identifier.
pub open spec fn assets_dto_error(dto: AssetsDto, e: WalletError) -> bool {
    if !native_tokens_dto_valid(dto.native_tokens) {
        exists|k: int|
            0 <= k < dto.native_tokens.unwrap()@.len() && !native_token_dto_valid(
                #[trigger] dto.native_tokens.unwrap()@[k],
            ) && native_token_dto_error(dto.native_tokens.unwrap()@[k], e) && forall|j: int|
                0 <= j < k ==> native_token_dto_valid(#[trigger] dto.native_tokens.unwrap()@[j])
    } else {
        e is Hex
    }
}

/// Reads each native token of a message in turn; the first that cannot be
/// read decides the error.
pub fn native_tokens_from_dtos(dtos: &Vec<NativeTokenDto>) -> (r: Result<Vec<NativeToken>, WalletError>)
    requires
        native_tokens_dtos_decodable(dtos@),
    ensures
        r is Ok <==> (forall|i: int| 0 <= i < dtos@.len() ==> native_token_dto_valid(#[trigger] dtos@[i])),
        r matches Ok(v) ==> v@.len() == dtos@.len() && forall|i: int|
            0 <= i < dtos@.len() ==> native_token_read(#[trigger] dtos@[i], v@[i]),
        r matches Err(e) ==> exists|k: int|
            0 <= k < dtos@.len() && !native_token_dto_valid(#[trigger] dtos@[k])
                && native_token_dto_error(dtos@[k], e) && forall|j: int|
                0 <= j < k ==> native_token_dto_valid(#[trigger] dtos@[j]),
{
    let mut out: Vec<NativeToken> = Vec::new();
    let n = dtos.len();
    let mut i: usize = 0;
    while i < n
        invariant
            n == dtos@.len(),
            native_tokens_dtos_decodable(dtos@),
            i <= n,
            out@.len() == i,
            forall|j: int| 0 <= j < i ==> native_token_dto_valid(#[trigger] dtos@[j]),
            forall|j: int| 0 <= j < i ==> native_token_read(#[trigger] dtos@[j], out@[j]),
        decreases n - i,
    {
        match NativeToken::try_from_dto(&dtos[i]) {
            Ok(t) => {
                out.push(t);
            },
            Err(e) => {
                assert(!native_token_dto_valid(dtos@[i as int]));
                return Err(e);
            },
        }
        i = i + 1;
    }
    Ok(out)
}

impl Assets {
    /// Reads assets from their message form: the native tokens first, then
    /// the NFT identifier.
    pub fn try_from(value: &AssetsDto) -> (r: Result<Assets, WalletError>)
        requires
            value.decodable(),
        ensures
            r is Ok <==> value.valid(),
            r matches Ok(a) ==> assets_read(*value, a),
            r matches Err(e) ==> assets_dto_error(*value, e),
    {
        let native_tokens = match &value.native_tokens {
            Some(r) => Some(native_tokens_from_dtos(r)?),
            None => None,
        };
        let nft_id = match &value.nft_id {
            Some(r) => Some(NftId::from_hex(r.as_str())?),
            None => None,
        };
        Ok(Assets { native_tokens, nft_id })
    }
}

impl OutputOptionsDto {
    /// Reading the options reaches no input on which the hex decoder panics:
    /// the assets are read only after a readable amount.
    pub open spec fn decodable(&self) -> bool {
        parse_u64_spec(self.amount@) is Some ==> (self.assets matches Some(a) ==> a.decodable())
    }
}

impl OutputOptions {
    /// Reads output options from their message form: the amount must be a
    /// decimal number that fits in 64 bits, then the assets must be readable;
    /// everything else is taken over as it is.
    pub fn try_from(value: &OutputOptionsDto) -> (r: Result<OutputOptions, WalletError>)
        requires
            value.decodable(),
        ensures
            r is Ok <==> parse_u64_spec(value.amount@) is Some && (value.assets matches Some(a)
                ==> a.valid()),
            r matches Ok(o) ==> {
                &&& o.recipient_address == value.recipient_address
                &&& Some(o.amount) == parse_u64_spec(value.amount@)
                &&& o.assets is Some == value.assets is Some
                &&& (o.assets matches Some(a) ==> assets_read(value.assets.unwrap(), a))
                &&& o.features == value.features
                &&& o.unlocks == value.unlocks
                &&& o.storage_deposit == value.storage_deposit
            },
            r matches Err(e) ==> if parse_u64_spec(value.amount@) is None {
                e matches WalletError::InvalidAmount(s) && s@ == value.amount@
            } else {
                value.assets is Some && !value.assets.unwrap().valid() && assets_dto_error(
                    value.assets.unwrap(),
                    e,
                )
            },
    {
        let amount = match parse_u64(value.amount.as_str()) {
            Some(a) => a,
            None => return Err(WalletError::InvalidAmount(value.amount.clone())),
        };
        let assets = match &value.assets {
            Some(r) => Some(Assets::try_from(r)?),
            None => None,
        };
        Ok(OutputOptions {
            recipient_address: value.recipient_address.clone(),
            amount,
            assets,
            features: clone_opt_features(&value.features),
            unlocks: value.unlocks,
            storage_deposit: value.storage_deposit,
        })
    }
}

impl NativeTokenDto {
    /// Tests `native_token_dto_decodable`.
    pub fn is_decodable(&self) -> (r: bool)
        ensures
            r == native_token_dto_decodable(*self),
    {
        if !is_hex_decodable(self.token_id.as_str()) {
            return false;
        }
        match decode_hex_38(self.token_id.as_str()) {
            Ok(_) => is_hex_decodable(self.amount.as_str()),
            Err(_) => true,
        }
    }
}

/// Tests `native_tokens_dtos_decodable` and, where it holds, whether every
/// native token can be read.
fn native_tokens_check(dtos: &Vec<NativeTokenDto>) -> (r: (bool, bool))
    ensures
        r.0 == native_tokens_dtos_decodable(dtos@),
        r.0 ==> r.1 == (forall|i: int| 0 <= i < dtos@.len() ==> native_token_dto_valid(#[trigger] dtos@[i])),
{
    let n = dtos.len();
    let mut i: usize = 0;
    while i < n
        invariant
            n == dtos@.len(),
            i <= n,
            forall|j: int| 0 <= j < i ==> native_token_dto_valid(#[trigger] dtos@[j]),
            forall|j: int| 0 <= j < i ==> native_token_dto_decodable(#[trigger] dtos@[j]),
        decreases n - i,
    {
        if !dtos[i].is_decodable() {
            proof {
                assert(!native_token_dto_decodable(dtos@[i as int]));
            }
            return (false, false);
        }
        let read = NativeToken::try_from_dto(&dtos[i]);
        if read.is_err() {
            proof {
                assert forall|k: int|
                    0 <= k < dtos@.len() && (forall|j: int| 0 <= j < k ==> native_token_dto_valid(#[trigger] dtos@[j]))
                        implies native_token_dto_decodable(#[trigger] dtos@[k]) by {
                    if k > i {
                        assert(!native_token_dto_valid(dtos@[i as int]));
                    }
                }
            }
            return (true, false);
        }
        i = i + 1;
    }
    (true, true)
}

impl AssetsDto {
    /// Tests `decodable`.
    pub fn is_decodable(&self) -> (r: bool)
        ensures
            r == self.decodable(),
    {
        let tokens_valid = match &self.native_tokens {
            Some(v) => {
                let (decodable, valid) = native_tokens_check(v);
                if !decodable {
                    return false;
                }
                valid
            },
            None => true,
        };
        if !tokens_valid {
            return true;
        }
        match &self.nft_id {
            Some(s) => is_hex_decodable(s.as_str()),
            None => true,
        }
    }
}

impl OutputOptionsDto {
    /// Tests `decodable`: a caller checks it before `OutputOptions::try_from`,
    /// on whose other inputs the hex decoder would panic.
    pub fn is_decodable(&self) -> (r: bool)
        ensures
            r == self.decodable(),
    {
        match parse_u64(self.amount.as_str()) {
            None => true,
            Some(_) => match &self.assets {
                Some(a) => a.is_decodable(),
                None => true,
            },
        }
    }
}

} // verus!
