//! The decisions of preparing an output to send: which kind of output it is,
//! which features it carries, which NFT output it is built from, where its
//! storage deposit goes back to, and which amounts it and its storage deposit
//! return unlock condition get.
//!
//! Building an output and computing its storage deposit is work of the
//! ledger types; those numbers come in as arguments, in the order in which
//! the preparation needs them.
use vstd::prelude::*;

use crate::error::WalletError;
use crate::hex::{decode_hex_vec, hex_decodable, is_hex_decodable, prefixed_hex_bytes};
use crate::ids::{Address, NftId, OutputId, all_zero};
use crate::output_options::{Features, OutputOptions, ReturnStrategy, StorageDeposit, clone_opt_string};
use crate::transaction_options::{RemainderValueStrategy, TransactionOptions};

verus! {

/// The NFT that the options ask to send, if any: then an NFT output is
/// prepared, else a basic output.
pub open spec fn nft_to_send_spec(options: OutputOptions) -> Option<NftId> {
    match options.assets {
        Some(a) => a.nft_id,
        None => None,
    }
}

pub fn nft_to_send(options: &OutputOptions) -> (r: Option<NftId>)
    ensures
        r == nft_to_send_spec(*options),
        options.assets matches Some(a) ==> r == a.nft_id,
        options.assets is None ==> r is None,
{
    match &options.assets {
        Some(a) => a.nft_id,
        None => None,
    }
}

/// The kind of output being prepared.
#[derive(Debug, Clone, Copy, PartialEq, Eq)]
pub enum OutputKind {
    Basic,
    Nft,
}

/// The features of an output once their hexadecimal fields are decoded.
#[derive(Debug, Clone, PartialEq, Eq)]
pub struct PreparedFeatures {
    pub tag: Option<Vec<u8>>,
    pub metadata: Option<Vec<u8>>,
    pub sender: Option<String>,
    /// An immutable issuer feature; only an NFT output has one.
    pub issuer: Option<String>,
}

/// The hexadecimal field decodes, or is absent.
pub open spec fn hex_field_valid(f: Option<String>) -> bool {
    f matches Some(s) ==> prefixed_hex_bytes(s@) is Some
}

/// An optional decoded field holds what its optional hexadecimal form stands for.
pub open spec fn hex_field_decoded(f: Option<String>, d: Option<Vec<u8>>) -> bool {
    match f {
        Some(s) => d matches Some(v) && prefixed_hex_bytes(s@) == Some(v@),
        None => d is None,
    }
}

/// The hexadecimal field is absent, or the decoder does not panic on it.
pub open spec fn hex_field_decodable(f: Option<String>) -> bool {
    f matches Some(s) ==> hex_decodable(s@)
}

fn decode_hex_field(f: &Option<String>, name: &'static str) -> (r: Result<Option<Vec<u8>>, WalletError>)
    requires
        hex_field_decodable(*f),
    ensures
        r is Ok <==> hex_field_valid(*f),
        r matches Ok(d) ==> hex_field_decoded(*f, d),
        r matches Err(e) ==> e == WalletError::InvalidField(name),
{
    match f {
        Some(s) => match decode_hex_vec(s.as_str()) {
            Ok(v) => Ok(Some(v)),
            Err(_) => Err(WalletError::InvalidField(name)),
        },
        None => Ok(None),
    }
}

/// Preparing the features reaches no input on which the hex decoder panics:
/// nothing is decoded after an issuer on a basic output, and the metadata
/// only after a readable tag.
pub open spec fn features_decodable(features: Option<Features>, kind: OutputKind) -> bool {
    features matches Some(f) ==> (!(kind == OutputKind::Basic && f.issuer is Some) ==> (hex_field_decodable(f.tag)
        && (hex_field_valid(f.tag) ==> hex_field_decodable(f.metadata))))
}

/// The kind of output that the options ask for.
pub open spec fn output_kind_spec(options: OutputOptions) -> OutputKind {
    if nft_to_send_spec(options) is Some {
        OutputKind::Nft
    } else {
        OutputKind::Basic
    }
}

/// The features can be prepared for an output of the kind.
pub open spec fn features_valid(features: Option<Features>, kind: OutputKind) -> bool {
    features matches Some(f) ==> !(kind == OutputKind::Basic && f.issuer is Some) && hex_field_valid(f.tag)
        && hex_field_valid(f.metadata)
}

/// The prepared features that the given ones stand for.
pub open spec fn features_prepared(features: Option<Features>, kind: OutputKind, p: PreparedFeatures) -> bool {
    features_valid(features, kind) && match features {
        None => p == PreparedFeatures { tag: None, metadata: None, sender: None, issuer: None },
        Some(f) => hex_field_decoded(f.tag, p.tag) && hex_field_decoded(f.metadata, p.metadata) && p.sender
            == f.sender && p.issuer == (if kind == OutputKind::Nft {
            f.issuer
        } else {
            None
        }),
    }
}

/// The error of features that cannot be prepared: a basic output with an
/// issuer first, then an undecodable tag, then undecodable metadata.
pub open spec fn features_error(features: Option<Features>, kind: OutputKind, e: WalletError) -> bool {
    match features {
        None => false,
        Some(f) => if kind == OutputKind::Basic && f.issuer is Some {
            e == WalletError::MissingParameter("nft_id")
        } else if !hex_field_valid(f.tag) {
            e == WalletError::InvalidField("tag")
        } else if !hex_field_valid(f.metadata) {
            e == WalletError::InvalidField("metadata")
        } else {
            false
        },
    }
}

/// Decodes the features of an output. A basic output cannot have an issuer
/// (the caller has to send an NFT for that); this is checked first, then the
/// tag, then the metadata.
pub fn prepare_features(features: &Option<Features>, kind: OutputKind) -> (r: Result<
    PreparedFeatures,
    WalletError,
>)
    requires
        features_decodable(*features, kind),
    ensures
        match r {
            Ok(p) => features_prepared(*features, kind, p),
            Err(e) => features_error(*features, kind, e),
        },
{
    match features {
        None => Ok(PreparedFeatures { tag: None, metadata: None, sender: None, issuer: None }),
        Some(f) => {
            if let OutputKind::Basic = kind {
                if f.issuer.is_some() {
                    return Err(WalletError::MissingParameter("nft_id"));
                }
            }
            let tag = decode_hex_field(&f.tag, "tag")?;
            let metadata = decode_hex_field(&f.metadata, "metadata")?;
            let issuer = match kind {
                OutputKind::Nft => clone_opt_string(&f.issuer),
                OutputKind::Basic => None,
            };
            Ok(PreparedFeatures { tag, metadata, sender: clone_opt_string(&f.sender), issuer })
        },
    }
}

fn hex_field_decodable_exec(f: &Option<String>) -> (r: bool)
    ensures
        r == hex_field_decodable(*f),
{
    match f {
        Some(s) => is_hex_decodable(s.as_str()),
        None => true,
    }
}

/// Tests the condition of `plan_output` on the options: no field that it
/// decodes makes the hex decoder panic.
pub fn features_are_decodable(options: &OutputOptions) -> (r: bool)
    ensures
        r == features_decodable(options.features, output_kind_spec(*options)),
{
    let basic = nft_to_send(options).is_none();
    match &options.features {
        None => true,
        Some(f) => {
            if basic && f.issuer.is_some() {
                true
            } else if !hex_field_decodable_exec(&f.tag) {
                false
            } else {
                match decode_hex_field(&f.tag, "tag") {
                    Ok(_) => hex_field_decodable_exec(&f.metadata),
                    Err(_) => true,
                }
            }
        },
    }
}

/// What building the first output of a preparation takes: its kind, its
/// decoded features, and its unlock times (an expiration returns the output
/// to the remainder address, which then has to be found).
#[derive(Debug, Clone, PartialEq, Eq)]
pub struct OutputPlan {
    pub kind: OutputKind,
    pub nft_id: Option<NftId>,
    pub features: PreparedFeatures,
    pub expiration_unix_time: Option<u32>,
    pub timelock_unix_time: Option<u32>,
}

/// Plans the first output of a preparation: an NFT output where the assets
/// name an NFT, else a basic output; its features decoded as
/// `prepare_features` does for that kind; the unlock times as given.
pub fn plan_output(options: &OutputOptions) -> (r: Result<OutputPlan, WalletError>)
    requires
        features_decodable(options.features, output_kind_spec(*options)),
    ensures
        ({
            let kind = output_kind_spec(*options);
            match r {
                Ok(p) => {
                    &&& p.kind == kind
                    &&& p.nft_id == nft_to_send_spec(*options)
                    &&& features_prepared(options.features, kind, p.features)
                    &&& p.expiration_unix_time == (match options.unlocks {
                        Some(u) => u.expiration_unix_time,
                        None => None,
                    })
                    &&& p.timelock_unix_time == (match options.unlocks {
                        Some(u) => u.timelock_unix_time,
                        None => None,
                    })
                },
                Err(e) => features_error(options.features, kind, e),
            }
        }),
{
    let nft_id = nft_to_send(options);
    let kind = match nft_id {
        Some(_) => OutputKind::Nft,
        None => OutputKind::Basic,
    };
    let features = prepare_features(&options.features, kind)?;
    let (expiration_unix_time, timelock_unix_time) = match options.unlocks {
        Some(u) => (u.expiration_unix_time, u.timelock_unix_time),
        None => (None, None),
    };
    Ok(OutputPlan { kind, nft_id, features, expiration_unix_time, timelock_unix_time })
}

/// An unspent NFT output of the account, with the identifier of the NFT it
/// holds. An output that minted its NFT stores the null identifier; the
/// record holds in its place the identifier derived from the output
/// identifier, which is what a requested identifier is compared with. A
/// record built from the stored field would let a null request match it.
#[derive(Debug, Clone, Copy, PartialEq, Eq)]
pub struct NftOutputRecord {
    pub output_id: OutputId,
    pub nft_id: NftId,
}

/// What an NFT output is built from.
#[derive(Debug, Clone, Copy, PartialEq, Eq)]
pub enum NftSource {
    /// The unspent output at this index of the account's NFT outputs.
    Existing(usize),
    /// A new output that mints the NFT.
    Mint,
}

/// Finds the unspent output that holds the NFT; if none does, a null
/// identifier asks for a new NFT, any other is an error.
pub fn select_nft_source(nft_id: &NftId, unspent: &Vec<NftOutputRecord>) -> (r: Result<NftSource, WalletError>)
    ensures
        match r {
            Ok(NftSource::Existing(i)) => i < unspent@.len() && unspent@[i as int].nft_id@ == nft_id@
                && forall|j: int| 0 <= j < i ==> (#[trigger] unspent@[j]).nft_id@ != nft_id@,
            Ok(NftSource::Mint) => all_zero(nft_id@) && forall|j: int|
                0 <= j < unspent@.len() ==> (#[trigger] unspent@[j]).nft_id@ != nft_id@,
            Err(e) => e == WalletError::NftNotFoundInUnspentOutputs && !all_zero(nft_id@) && forall|
                j: int,
            |
                0 <= j < unspent@.len() ==> (#[trigger] unspent@[j]).nft_id@ != nft_id@,
        },
{
    let n = unspent.len();
    let mut i: usize = 0;
    while i < n
        invariant
            n == unspent@.len(),
            i <= n,
            forall|j: int| 0 <= j < i ==> (#[trigger] unspent@[j]).nft_id@ != nft_id@,
        decreases n - i,
    {
        if unspent[i].nft_id.same_as(nft_id) {
            return Ok(NftSource::Existing(i));
        }
        i = i + 1;
    }
    if nft_id.is_null() {
        Ok(NftSource::Mint)
    } else {
        Err(WalletError::NftNotFoundInUnspentOutputs)
    }
}

/// A new remainder address has to be generated first.
pub open spec fn needs_change_address_spec(options: Option<TransactionOptions>) -> bool {
    options matches Some(o) && o.remainder_value_strategy == RemainderValueStrategy::ChangeAddress
}

pub fn needs_change_address(options: &Option<TransactionOptions>) -> (r: bool)
    ensures
        r == needs_change_address_spec(*options),
{
    match options {
        Some(o) => match o.remainder_value_strategy {
            RemainderValueStrategy::ChangeAddress => true,
            _ => false,
        },
        None => false,
    }
}

/// The address that a remainder or a returned storage deposit goes to: the
/// custom address, or the newly generated one, or else the first address of
/// the account.
pub fn choose_remainder_address(
    options: &Option<TransactionOptions>,
    change_address: Option<Address>,
    account_addresses: &Vec<Address>,
) -> (r: Result<Address, WalletError>)
    requires
        needs_change_address_spec(*options) ==> change_address is Some,
    ensures
        match *options {
            Some(o) if o.remainder_value_strategy is CustomAddress => r == Ok::<Address, WalletError>(
                o.remainder_value_strategy->CustomAddress_0,
            ),
            Some(o) if o.remainder_value_strategy is ChangeAddress => r == Ok::<Address, WalletError>(
                change_address.unwrap(),
            ),
            _ => if account_addresses@.len() > 0 {
                r == Ok::<Address, WalletError>(account_addresses@[0])
            } else {
                r == Err::<Address, WalletError>(WalletError::FailedToGetRemainder)
            },
        },
{
    let chosen = match options {
        Some(o) => match o.remainder_value_strategy {
            RemainderValueStrategy::ReuseAddress => None,
            RemainderValueStrategy::ChangeAddress => change_address,
            RemainderValueStrategy::CustomAddress(a) => Some(a),
        },
        None => None,
    };
    match chosen {
        Some(a) => Ok(a),
        None => {
            if account_addresses.len() > 0 {
                Ok(account_addresses[0])
            } else {
                Err(WalletError::FailedToGetRemainder)
            }
        },
    }
}

/// The amount of an output and, if it has one, the amount of its storage
/// deposit return unlock condition (which goes back to the remainder address).
#[derive(Debug, Clone, Copy, PartialEq, Eq)]
pub struct AmountPlan {
    pub amount: u64,
    pub storage_deposit_return: Option<u64>,
}

/// The storage deposit is returned (the default) rather than gifted.
pub open spec fn returns_deposit(sd: Option<StorageDeposit>) -> bool {
    match sd {
        Some(d) => d.return_strategy != Some(ReturnStrategy::Gift),
        None => true,
    }
}

/// A low remainder is added to the output (off by default).
pub open spec fn uses_excess(sd: Option<StorageDeposit>) -> bool {
    match sd {
        Some(d) => d.use_excess_if_low == Some(true),
        None => false,
    }
}

/// What the sender's balance keeps if the output carries `amount`.
/// Where excess may be used and that would be a positive remainder below
/// `minimum_basic` (too small to be an output of its own), the whole
/// available balance goes into the output instead.
pub open spec fn with_low_excess(amount: u64, sd: Option<StorageDeposit>, available: u64, minimum_basic: u64) -> u64 {
    if uses_excess(sd) && available > amount && available - amount < minimum_basic {
        available
    } else {
        amount
    }
}

/// The amounts once the requested amount is compared with `minimum`, the
/// amount of the output built with its minimum storage deposit. A large
/// enough request is sent as it is; a smaller one sends the minimum, with a
/// return condition over `minimum_basic` (the storage deposit of a plain basic
/// output) unless the deposit is gifted. Either way, where excess may be used
/// and the balance left over would be below `minimum_basic`, the whole
/// available balance is sent.
pub open spec fn deposit_plan(
    requested: u64,
    minimum: u64,
    sd: Option<StorageDeposit>,
    available: u64,
    minimum_basic: u64,
) -> AmountPlan {
    if requested >= minimum {
        AmountPlan { amount: with_low_excess(requested, sd, available, minimum_basic), storage_deposit_return: None }
    } else {
        AmountPlan {
            amount: with_low_excess(minimum, sd, available, minimum_basic),
            storage_deposit_return: if returns_deposit(sd) {
                Some(minimum_basic)
            } else {
                None
            },
        }
    }
}

/// The remainder address is needed for a return condition.
pub fn needs_return_address(requested: u64, minimum: u64, sd: &Option<StorageDeposit>) -> (r: bool)
    ensures
        r == (requested < minimum && returns_deposit(*sd)),
{
    requested < minimum && match sd {
        Some(d) => match d.return_strategy {
            Some(ReturnStrategy::Gift) => false,
            _ => true,
        },
        None => true,
    }
}

/// The available balance of the account is needed.
pub fn needs_balance(sd: &Option<StorageDeposit>) -> (r: bool)
    ensures
        r == uses_excess(*sd),
{
    match sd {
        Some(d) => match d.use_excess_if_low {
            Some(true) => true,
            _ => false,
        },
        None => false,
    }
}

/// Decides the amounts of the second output. `available` is only read where
/// `needs_balance` holds.
pub fn plan_deposit_amount(
    requested: u64,
    minimum: u64,
    storage_deposit: &Option<StorageDeposit>,
    available: u64,
    minimum_basic: u64,
) -> (r: AmountPlan)
    ensures
        r == deposit_plan(requested, minimum, *storage_deposit, available, minimum_basic),
{
    let storage_deposit_return = if needs_return_address(requested, minimum, storage_deposit) {
        Some(minimum_basic)
    } else {
        None
    };
    let mut amount = if requested >= minimum {
        requested
    } else {
        minimum
    };
    if needs_balance(storage_deposit) {
        if available > amount {
            let balance_minus_output = available - amount;
            if balance_minus_output < minimum_basic {
                amount = amount + balance_minus_output;
            }
        }
    }
    AmountPlan { amount, storage_deposit_return }
}

/// The amounts of the final output, once the storage deposit `required` of
/// the second output is known. If the second output does not cover it, the
/// output gets `required`, and a return condition returns what exceeds the
/// request; where that would be below `minimum_basic`, the return gets
/// `minimum_basic` and the output the request plus `minimum_basic`.
pub open spec fn final_plan(requested: u64, second: AmountPlan, required: u64, minimum_basic: u64) -> AmountPlan {
    if second.amount < required {
        let (amount, returned) = if required < requested + minimum_basic {
            (requested + minimum_basic, minimum_basic as int)
        } else {
            (required as int, required - requested)
        };
        AmountPlan {
            amount: amount as u64,
            storage_deposit_return: if second.storage_deposit_return is Some {
                Some(returned as u64)
            } else {
                None
            },
        }
    } else {
        second
    }
}

/// Decides the amounts of the final output.
pub fn plan_final_amount(requested: u64, second: AmountPlan, required: u64, minimum_basic: u64) -> (r: AmountPlan)
    requires
        second.amount < required ==> requested <= required && requested + minimum_basic <= u64::MAX,
    ensures
        r == final_plan(requested, second, required, minimum_basic),
{
    if second.amount < required {
        let mut new_sdr_amount = required - requested;
        let mut final_output_amount = required;
        if required < requested + minimum_basic {
            new_sdr_amount = minimum_basic;
            final_output_amount = final_output_amount + (minimum_basic - (required - requested));
        }
        let storage_deposit_return = match second.storage_deposit_return {
            Some(_) => Some(new_sdr_amount),
            None => None,
        };
        AmountPlan { amount: final_output_amount, storage_deposit_return }
    } else {
        second
    }
}

/// Whatever the deposit plan decides, the final plan can be computed on it:
/// the second output never has less than the request.
pub proof fn lemma_deposit_plan_keeps_request(
    requested: u64,
    minimum: u64,
    sd: Option<StorageDeposit>,
    available: u64,
    minimum_basic: u64,
)
    ensures
        deposit_plan(requested, minimum, sd, available, minimum_basic).amount >= requested,
{
}

/// The prepared output always covers both storage deposits (the minimum one
/// and the one of its final shape) and never carries less than was requested.
pub proof fn lemma_prepared_amount_covers_deposit(
    requested: u64,
    minimum: u64,
    sd: Option<StorageDeposit>,
    available: u64,
    minimum_basic: u64,
    required: u64,
)
    requires
        requested + minimum_basic <= u64::MAX,
    ensures
        ({
            let f = final_plan(
                requested,
                deposit_plan(requested, minimum, sd, available, minimum_basic),
                required,
                minimum_basic,
            );
            f.amount >= required && f.amount >= minimum && f.amount >= requested
        }),
{
}

/// When the storage deposit had to be raised, the recipient keeps exactly the
/// requested amount: the rest, never less than `minimum_basic`, is returned.
pub proof fn lemma_raised_deposit_returns_excess(
    requested: u64,
    minimum: u64,
    sd: Option<StorageDeposit>,
    available: u64,
    minimum_basic: u64,
    required: u64,
)
    requires
        requested + minimum_basic <= u64::MAX,
        deposit_plan(requested, minimum, sd, available, minimum_basic).amount < required,
        returns_deposit(sd),
        requested < minimum,
    ensures
        ({
            let f = final_plan(
                requested,
                deposit_plan(requested, minimum, sd, available, minimum_basic),
                required,
                minimum_basic,
            );
            f.storage_deposit_return matches Some(x) && f.amount - x == requested && x >= minimum_basic
        }),
{
}

/// A gifted storage deposit never comes with a return condition, nor does a
/// request that covers the minimum storage deposit.
pub proof fn lemma_no_return_without_return_strategy(
    requested: u64,
    minimum: u64,
    sd: Option<StorageDeposit>,
    available: u64,
    minimum_basic: u64,
    required: u64,
)
    requires
        !returns_deposit(sd) || requested >= minimum,
    ensures
        final_plan(
            requested,
            deposit_plan(requested, minimum, sd, available, minimum_basic),
            required,
            minimum_basic,
        ).storage_deposit_return is None,
{
}

/// A request that covers both storage deposits is sent unchanged where
/// excess may not be used.
pub proof fn lemma_sufficient_request_unchanged(
    requested: u64,
    minimum: u64,
    sd: Option<StorageDeposit>,
    available: u64,
    minimum_basic: u64,
    required: u64,
)
    requires
        requested >= minimum,
        requested >= required,
        !uses_excess(sd),
    ensures
        final_plan(
            requested,
            deposit_plan(requested, minimum, sd, available, minimum_basic),
            required,
            minimum_basic,
        ) == (AmountPlan { amount: requested, storage_deposit_return: None }),
{
}

/// Where excess may be used and the balance left after the output would be
/// positive but below `minimum_basic`, the output carries the whole
/// available balance (and, if its storage deposit must be raised, more).
pub proof fn lemma_low_remainder_is_added(
    requested: u64,
    minimum: u64,
    sd: Option<StorageDeposit>,
    available: u64,
    minimum_basic: u64,
    required: u64,
)
    requires
        requested + minimum_basic <= u64::MAX,
        uses_excess(sd),
        ({
            let sent = if requested >= minimum { requested } else { minimum };
            available > sent && available - sent < minimum_basic
        }),
    ensures
        deposit_plan(requested, minimum, sd, available, minimum_basic).amount == available,
        final_plan(
            requested,
            deposit_plan(requested, minimum, sd, available, minimum_basic),
            required,
            minimum_basic,
        ).amount >= available,
{
}


/// Any NFT identifier in the assets, the null one included, makes the
/// preparation build an NFT output for that identifier (the null one mints a
/// new NFT); without one a basic output is built.
pub proof fn lemma_any_nft_id_sends_an_nft(options: OutputOptions)
    ensures
        options.assets matches Some(a) ==> (a.nft_id matches Some(id) ==> (nft_to_send_spec(options) == Some(id)
            && output_kind_spec(options) == OutputKind::Nft)),
        !(options.assets matches Some(a) && a.nft_id is Some) ==> nft_to_send_spec(options) is None
            && output_kind_spec(options) == OutputKind::Basic,
{
}

/// The storage deposit is gifted rather than returned.
pub open spec fn gifts_deposit(sd: Option<StorageDeposit>) -> bool {
    sd matches Some(d) && d.return_strategy == Some(ReturnStrategy::Gift)
}

/// The second output gets a return condition exactly when the request is
/// below the minimum storage deposit and the deposit is not gifted; it then
/// returns the storage deposit of a basic output.
pub proof fn lemma_deposit_return_exactly_below_minimum(
    requested: u64,
    minimum: u64,
    sd: Option<StorageDeposit>,
    available: u64,
    minimum_basic: u64,
)
    ensures
        deposit_plan(requested, minimum, sd, available, minimum_basic).storage_deposit_return == (if requested
            < minimum && !gifts_deposit(sd) {
            Some(minimum_basic)
        } else {
            None
        }),
{
}

/// The second output carries the larger of the request and the minimum
/// storage deposit, unless excess may be used and the balance left over would
/// be positive but below `minimum_basic`: then it carries the whole balance.
pub proof fn lemma_deposit_amount(
    requested: u64,
    minimum: u64,
    sd: Option<StorageDeposit>,
    available: u64,
    minimum_basic: u64,
)
    ensures
        ({
            let base: int = if requested >= minimum { requested as int } else { minimum as int };
            let low_excess = (sd matches Some(d) && d.use_excess_if_low == Some(true)) && available > base
                && available - base < minimum_basic;
            deposit_plan(requested, minimum, sd, available, minimum_basic).amount == if low_excess {
                available as int
            } else {
                base
            }
        }),
{
}

/// An output that already covers its storage deposit is kept as it is, its
/// return condition included; one that does not is raised to the deposit
/// (or to the request plus `minimum_basic`, if that is more), and its return
/// condition, if it has one, returns all but the request. A return condition
/// is never added nor dropped.
pub proof fn lemma_final_amounts(requested: u64, second: AmountPlan, required: u64, minimum_basic: u64)
    requires
        second.amount >= requested,
        requested + minimum_basic <= u64::MAX,
    ensures
        second.amount >= required ==> final_plan(requested, second, required, minimum_basic) == second,
        (final_plan(requested, second, required, minimum_basic).storage_deposit_return is Some)
            == (second.storage_deposit_return is Some),
        second.amount < required ==> {
            let f = final_plan(requested, second, required, minimum_basic);
            &&& f.amount >= required
            &&& f.amount == (if required >= requested + minimum_basic {
                required as int
            } else {
                requested + minimum_basic
            })
            &&& (f.storage_deposit_return matches Some(x) ==> x == f.amount - requested && x >= minimum_basic)
        },
{
}

} // verus!
