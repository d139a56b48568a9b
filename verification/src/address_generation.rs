//! Generating addresses for an account: which key indexes come next, which
//! human-readable part they are written with, and how the generated
//! addresses are recorded in the account.
use vstd::prelude::*;

use crate::ids::Address;

verus! {

/// The network that addresses are generated for.
#[derive(Debug, Clone, Copy, PartialEq, Eq)]
pub enum Network {
    Mainnet,
    Testnet,
}

/// What the signer is told about an address generation.
#[derive(Debug, Clone, Copy, PartialEq, Eq)]
pub struct GenerateAddressMetadata {
    /// The addresses are generated while syncing (no prompt on a hardware device).
    pub syncing: bool,
    pub network: Network,
}

/// Options for address generation.
#[derive(Debug, Clone, Copy, PartialEq, Eq)]
pub struct AddressGenerationOptions {
    /// Generate internal (remainder) addresses rather than public ones.
    pub internal: bool,
    pub metadata: GenerateAddressMetadata,
}

impl Default for AddressGenerationOptions {
    /// Public addresses, not while syncing, on the test network.
    fn default() -> (r: Self)
        ensures
            !r.internal,
            !r.metadata.syncing,
            r.metadata.network == Network::Testnet,
    {
        AddressGenerationOptions {
            internal: false,
            metadata: GenerateAddressMetadata { syncing: false, network: Network::Testnet },
        }
    }
}

/// An address with the human-readable part it is written with in bech32.
#[derive(Debug, Clone, PartialEq, Eq)]
pub struct AddressWrapper {
    pub inner: Address,
    pub bech32_hrp: String,
}

/// An address of an account.
#[derive(Debug, Clone, PartialEq, Eq)]
pub struct AccountAddress {
    pub address: AddressWrapper,
    pub key_index: u32,
    pub internal: bool,
    pub used: bool,
}

impl AccountAddress {
    pub(crate) fn duplicate(&self) -> (r: AccountAddress)
        ensures
            r == *self,
    {
        AccountAddress {
            address: AddressWrapper { inner: self.address.inner, bech32_hrp: self.address.bech32_hrp.clone() },
            key_index: self.key_index,
            internal: self.internal,
            used: self.used,
        }
    }
}

/// The addresses of an account.
#[derive(Debug, Clone, PartialEq, Eq)]
pub struct Account {
    pub index: u32,
    pub public_addresses: Vec<AccountAddress>,
    pub internal_addresses: Vec<AccountAddress>,
}

impl Account {
    pub open spec fn addresses_of(&self, internal: bool) -> Seq<AccountAddress> {
        if internal {
            self.internal_addresses@
        } else {
            self.public_addresses@
        }
    }
}

/// The key index that the next address of the kind gets: the number of
/// addresses of that kind.
pub fn next_key_index(account: &Account, internal: bool) -> (r: u32)
    ensures
        r == account.addresses_of(internal).len() as u32,
{
    if internal {
        account.internal_addresses.len() as u32
    } else {
        account.public_addresses.len() as u32
    }
}

/// The key indexes of `amount` new addresses of the kind: from the next key
/// index up to, not including, the returned end.
pub fn address_range(account: &Account, amount: u32, internal: bool) -> (r: (u32, u32))
    requires
        account.addresses_of(internal).len() as u32 + amount <= u32::MAX,
    ensures
        r.0 == account.addresses_of(internal).len() as u32,
        r.1 == r.0 + amount,
{
    let start = next_key_index(account, internal);
    (start, start + amount)
}

/// The human-readable part already used by the account: that of its first
/// public address. Without one it has to be asked from the node.
pub fn known_bech32_hrp(account: &Account) -> (r: Option<String>)
    ensures
        match r {
            Some(h) => account.public_addresses@.len() > 0 && h == account.public_addresses@[0].address.bech32_hrp,
            None => account.public_addresses@.len() == 0,
        },
{
    if account.public_addresses.len() > 0 {
        Some(account.public_addresses[0].address.bech32_hrp.clone())
    } else {
        None
    }
}

/// The coin type of IOTA in the derivation paths of its keys (SLIP-44);
/// the signer derives every address under it.
pub const IOTA_COIN_TYPE: u32 = 4218;

/// Where the signer is a hardware device that prompts for each address and
/// events are emitted (`prompts_on_device`), and the addresses are not
/// generated while syncing, they are first generated once as while syncing,
/// to be shown beforehand. This gives the metadata of that first generation.
pub fn preview_metadata(options: &AddressGenerationOptions, prompts_on_device: bool) -> (r: Option<
    GenerateAddressMetadata,
>)
    ensures
        match r {
            Some(m) => prompts_on_device && !options.metadata.syncing && m == (GenerateAddressMetadata {
                syncing: true,
                ..options.metadata
            }),
            None => !prompts_on_device || options.metadata.syncing,
        },
{
    if prompts_on_device && !options.metadata.syncing {
        Some(GenerateAddressMetadata { syncing: true, network: options.metadata.network })
    } else {
        None
    }
}

/// What the signer is asked for when `amount` addresses are generated.
#[derive(Debug, Clone, PartialEq, Eq)]
pub struct GenerationPlan {
    /// The coin type the keys are derived under.
    pub coin_type: u32,
    /// The account whose keys are used.
    pub account_index: u32,
    /// The key indexes, from `start` up to, not including, `end`.
    pub start: u32,
    pub end: u32,
    pub internal: bool,
    pub metadata: GenerateAddressMetadata,
    /// The metadata of a first generation that shows the addresses before a
    /// hardware device prompts for them, if one is needed.
    pub preview: Option<GenerateAddressMetadata>,
    /// The human-readable part to write the addresses with, where the account
    /// already has one; else it is asked from the node.
    pub bech32_hrp: Option<String>,
}

/// Plans the generation of `amount` addresses for the account;
/// `prompts_on_device` as for `preview_metadata`.
pub fn plan_address_generation(
    account: &Account,
    amount: u32,
    options: &AddressGenerationOptions,
    prompts_on_device: bool,
) -> (r: GenerationPlan)
    requires
        account.addresses_of(options.internal).len() as u32 + amount <= u32::MAX,
    ensures
        r.coin_type == IOTA_COIN_TYPE,
        r.account_index == account.index,
        r.start == account.addresses_of(options.internal).len() as u32,
        r.end == r.start + amount,
        r.internal == options.internal,
        r.metadata == options.metadata,
        r.preview == (if prompts_on_device && !options.metadata.syncing {
            Some(GenerateAddressMetadata { syncing: true, ..options.metadata })
        } else {
            None
        }),
        r.bech32_hrp == (if account.public_addresses@.len() > 0 {
            Some(account.public_addresses@[0].address.bech32_hrp)
        } else {
            None
        }),
{
    let (start, end) = address_range(account, amount, options.internal);
    GenerationPlan {
        coin_type: IOTA_COIN_TYPE,
        account_index: account.index,
        start,
        end,
        internal: options.internal,
        metadata: options.metadata,
        preview: preview_metadata(options, prompts_on_device),
        bech32_hrp: known_bech32_hrp(account),
    }
}

/// The record of the `i`th generated address.
pub open spec fn generated_record(
    start: u32,
    hrp: String,
    internal: bool,
    addresses: Seq<Address>,
    i: int,
) -> AccountAddress {
    AccountAddress {
        address: AddressWrapper { inner: addresses[i], bech32_hrp: hrp },
        key_index: (start + i) as u32,
        internal,
        used: false,
    }
}

/// Records generated addresses in the account: each gets the next key index
/// of its kind, in order, and is not used yet. Returns the new records.
pub fn record_generated_addresses(
    account: &mut Account,
    internal: bool,
    bech32_hrp: &String,
    addresses: &Vec<Address>,
) -> (r: Vec<AccountAddress>)
    requires
        old(account).addresses_of(internal).len() as u32 + addresses@.len() <= u32::MAX + 1,
    ensures
        r@.len() == addresses@.len(),
        forall|i: int|
            0 <= i < r@.len() ==> #[trigger] r@[i] == generated_record(
                old(account).addresses_of(internal).len() as u32,
                *bech32_hrp,
                internal,
                addresses@,
                i,
            ),
        final(account).addresses_of(internal) == old(account).addresses_of(internal) + r@,
        final(account).addresses_of(!internal) == old(account).addresses_of(!internal),
        final(account).index == old(account).index,
{
    let start = next_key_index(account, internal);
    let mut records: Vec<AccountAddress> = Vec::new();
    let n = addresses.len();
    let mut i: usize = 0;
    while i < n
        invariant
            n == addresses@.len(),
            i <= n,
            start as int + n <= u32::MAX + 1,
            records@.len() == i,
            forall|j: int|
                0 <= j < i ==> #[trigger] records@[j] == generated_record(start, *bech32_hrp, internal, addresses@, j),
        decreases n - i,
    {
        let key_index = start + i as u32;
        records.push(
            AccountAddress {
                address: AddressWrapper { inner: addresses[i], bech32_hrp: bech32_hrp.clone() },
                key_index,
                internal,
                used: false,
            },
        );
        i = i + 1;
    }
    let mut k: usize = 0;
    let ghost before = account.addresses_of(internal);
    while k < n
        invariant
            n == records@.len(),
            k <= n,
            account.addresses_of(internal) == before + records@.take(k as int),
            account.addresses_of(!internal) == old(account).addresses_of(!internal),
            account.index == old(account).index,
        decreases n - k,
    {
        let rec = records[k].duplicate();
        if internal {
            account.internal_addresses.push(rec);
        } else {
            account.public_addresses.push(rec);
        }
        k = k + 1;
        proof {
            assert(account.addresses_of(internal) =~= before + records@.take(k as int));
        }
    }
    proof {
        assert(records@.take(n as int) =~= records@);
    }
    records
}

/// The key indexes of a list of addresses are 0, 1, 2, ... in order.
pub open spec fn consecutive_key_indexes(s: Seq<AccountAddress>) -> bool {
    forall|i: int| 0 <= i < s.len() ==> (#[trigger] s[i]).key_index == i
}

/// Recording generated addresses keeps the key indexes of an account
/// consecutive.
pub proof fn lemma_recording_keeps_key_indexes_consecutive(
    before: Seq<AccountAddress>,
    hrp: String,
    internal: bool,
    addresses: Seq<Address>,
    added: Seq<AccountAddress>,
)
    requires
        consecutive_key_indexes(before),
        before.len() + addresses.len() <= u32::MAX + 1,
        added.len() == addresses.len(),
        forall|i: int|
            0 <= i < added.len() ==> #[trigger] added[i] == generated_record(
                before.len() as u32,
                hrp,
                internal,
                addresses,
                i,
            ),
    ensures
        consecutive_key_indexes(before + added),
{
    assert forall|i: int| 0 <= i < (before + added).len() implies (#[trigger] (before + added)[i]).key_index == i by {
        if i >= before.len() {
            assert((before + added)[i] == added[i - before.len()]);
        }
    }
}

} // verus!
