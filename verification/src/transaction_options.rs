use vstd::prelude::*;

use crate::ids::Address;

verus! {

/// Where the remainder of a transaction goes.
#[derive(Debug, Clone, Copy, PartialEq, Eq)]
pub enum RemainderValueStrategy {
    /// Back to an address that the inputs came from.
    ReuseAddress,
    /// To a newly generated remainder address of the account.
    ChangeAddress,
    /// To the given address.
    CustomAddress(Address),
}

/// Mana to allot to an account.
#[derive(Debug, Clone, Copy, PartialEq, Eq)]
pub struct ManaAllotment {
    pub account_id: [u8; 32],
    pub mana: u64,
}

impl View for ManaAllotment {
    type V = (Seq<u8>, u64);

    open spec fn view(&self) -> (Seq<u8>, u64) {
        (self.account_id@, self.mana)
    }
}

/// Options of a transaction.
#[derive(Debug, Clone, PartialEq, Eq)]
pub struct TransactionOptions {
    pub remainder_value_strategy: RemainderValueStrategy,
    pub mana_allotments: Option<Vec<ManaAllotment>>,
}

/// The transaction options used where none are given: the remainder goes
/// back to an address the inputs came from, and no mana is allotted.
pub open spec fn default_transaction_options() -> TransactionOptions {
    TransactionOptions { remainder_value_strategy: RemainderValueStrategy::ReuseAddress, mana_allotments: None }
}

impl Default for TransactionOptions {
    fn default() -> (r: Self)
        ensures
            r == default_transaction_options(),
    {
        TransactionOptions { remainder_value_strategy: RemainderValueStrategy::ReuseAddress, mana_allotments: None }
    }
}

/// Options of a block.
#[derive(Debug, Clone, PartialEq, Eq, Default)]
pub struct BlockOptions {
    pub transaction_options: Option<TransactionOptions>,
}

} // verus!
