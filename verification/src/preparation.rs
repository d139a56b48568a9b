//! The order of the steps that prepare an output to send: which outside work
//! comes next, when a remainder address or the balance is needed, and which
//! error ends the preparation. The work itself (asking the node, decoding
//! addresses, building outputs) is done by the caller, who hands back what
//! came of it.
use vstd::prelude::*;

use crate::error::WalletError;
use crate::ids::Address;
use crate::output_options::StorageDeposit;
use crate::prepare_output::{
    deposit_plan, final_plan, gifts_deposit, plan_deposit_amount, plan_final_amount, returns_deposit, uses_excess,
    AmountPlan, NftSource,
};

verus! {

/// What a preparation reads of its output options.
#[derive(Debug, Clone, Copy, PartialEq, Eq)]
pub struct PreparationInput {
    /// The amount to send.
    pub requested: u64,
    /// The options send an NFT (their assets hold an NFT identifier).
    pub sends_nft: bool,
    /// The options give an expiration time.
    pub expires: bool,
    pub storage_deposit: Option<StorageDeposit>,
}

/// Where a preparation stands.
#[derive(Debug, Clone, Copy, PartialEq, Eq)]
pub enum PreparationState {
    Start,
    /// Waiting for the unspent NFT outputs and the choice among them.
    SelectingNft,
    /// Waiting for the recipient address to be read.
    CheckingRecipient,
    /// Waiting for the output plan (kind, features, unlocks).
    Planning,
    /// Waiting for the addresses of the sender and issuer features.
    DecodingFeatureAddresses,
    /// Waiting for the remainder address of the expiration condition.
    ExpirationRemainder,
    /// Waiting for the output built with its minimum storage deposit.
    BuildingFirst,
    /// Waiting for the remainder address of the storage deposit return.
    ReturnRemainder { minimum: u64, minimum_basic: u64 },
    /// Waiting for the available balance.
    ReadingBalance { minimum: u64, minimum_basic: u64 },
    /// Waiting for the storage deposit that the second output requires.
    BuildingSecond { second: AmountPlan, minimum_basic: u64 },
    Finished,
    Failed,
}

/// What came of the work of the last action.
#[derive(Debug, PartialEq)]
pub enum PreparationEvent {
    Begin,
    /// The NFT source was chosen, as `select_nft_source` decides.
    NftSelected(Result<NftSource, WalletError>),
    RecipientChecked,
    /// The output plan was made, as `plan_output` decides.
    Planned(Result<(), WalletError>),
    FeatureAddressesDecoded,
    /// The remainder address was chosen, as `choose_remainder_address` decides.
    RemainderChosen(Result<Address, WalletError>),
    /// The first output was built: its amount (the minimum storage deposit)
    /// and the storage deposit of a plain basic output.
    FirstBuilt { minimum: u64, minimum_basic: u64 },
    BalanceRead { available: u64 },
    /// The second output was built and requires this storage deposit.
    SecondBuilt { required: u64 },
}

/// The work to do next.
#[derive(Debug, PartialEq)]
pub enum PreparationAction {
    /// Read the unspent NFT outputs and choose the source of the NFT output.
    SelectNft,
    /// Read the recipient address; check its network only where asked.
    CheckRecipient { check_network: bool },
    /// Make the output plan.
    PlanOutput,
    /// Read the addresses of the sender and issuer features.
    DecodeFeatureAddresses,
    /// Choose the remainder address.
    ChooseRemainder,
    /// Build the output with its minimum storage deposit.
    BuildFirst,
    /// Read the available balance of the account.
    ReadBalance,
    /// Build the output with these amounts (the return condition, if any,
    /// goes to the remainder address chosen for it).
    BuildSecond { plan: AmountPlan },
    /// Build the final output with these amounts.
    Finish { plan: AmountPlan },
    /// End the preparation with this error.
    Fail(WalletError),
    /// The event does not fit the state; nothing happens.
    Ignore,
}

/// The step after the first output: a return condition needs a remainder
/// address first, excess needs the balance, else the second output is built.
pub open spec fn after_first(input: PreparationInput, minimum: u64, minimum_basic: u64) -> (
    PreparationState,
    PreparationAction,
) {
    if input.requested < minimum && returns_deposit(input.storage_deposit) {
        (PreparationState::ReturnRemainder { minimum, minimum_basic }, PreparationAction::ChooseRemainder)
    } else {
        after_return(input, minimum, minimum_basic)
    }
}

/// The step once any return address is known.
pub open spec fn after_return(input: PreparationInput, minimum: u64, minimum_basic: u64) -> (
    PreparationState,
    PreparationAction,
) {
    if uses_excess(input.storage_deposit) {
        (PreparationState::ReadingBalance { minimum, minimum_basic }, PreparationAction::ReadBalance)
    } else {
        let second = deposit_plan(input.requested, minimum, input.storage_deposit, 0, minimum_basic);
        (PreparationState::BuildingSecond { second, minimum_basic }, PreparationAction::BuildSecond { plan: second })
    }
}

/// The step after the plan and the feature addresses: an expiration needs a
/// remainder address before the first output is built.
pub open spec fn after_features(input: PreparationInput) -> (PreparationState, PreparationAction) {
    if input.expires {
        (PreparationState::ExpirationRemainder, PreparationAction::ChooseRemainder)
    } else {
        (PreparationState::BuildingFirst, PreparationAction::BuildFirst)
    }
}

/// The next step of a preparation. An NFT output first finds its source; a
/// basic one checks that the recipient is of the client's network. Then the
/// plan, the feature addresses, the expiration's remainder address, the
/// first output, the return's remainder address, the balance, the second
/// output and the final amounts follow in that order, each only where it is
/// needed. The first error ends the preparation.
pub open spec fn preparation_next(input: PreparationInput, state: PreparationState, event: PreparationEvent) -> (
    PreparationState,
    PreparationAction,
) {
    match (state, event) {
        (PreparationState::Start, PreparationEvent::Begin) => if input.sends_nft {
            (PreparationState::SelectingNft, PreparationAction::SelectNft)
        } else {
            (PreparationState::CheckingRecipient, PreparationAction::CheckRecipient { check_network: true })
        },
        (PreparationState::SelectingNft, PreparationEvent::NftSelected(r)) => match r {
            Ok(_) => (PreparationState::CheckingRecipient, PreparationAction::CheckRecipient { check_network: false }),
            Err(e) => (PreparationState::Failed, PreparationAction::Fail(e)),
        },
        (PreparationState::CheckingRecipient, PreparationEvent::RecipientChecked) => (
            PreparationState::Planning,
            PreparationAction::PlanOutput,
        ),
        (PreparationState::Planning, PreparationEvent::Planned(r)) => match r {
            Ok(()) => (PreparationState::DecodingFeatureAddresses, PreparationAction::DecodeFeatureAddresses),
            Err(e) => (PreparationState::Failed, PreparationAction::Fail(e)),
        },
        (PreparationState::DecodingFeatureAddresses, PreparationEvent::FeatureAddressesDecoded) => after_features(
            input,
        ),
        (PreparationState::ExpirationRemainder, PreparationEvent::RemainderChosen(r)) => match r {
            Ok(_) => (PreparationState::BuildingFirst, PreparationAction::BuildFirst),
            Err(e) => (PreparationState::Failed, PreparationAction::Fail(e)),
        },
        (PreparationState::BuildingFirst, PreparationEvent::FirstBuilt { minimum, minimum_basic }) => after_first(
            input,
            minimum,
            minimum_basic,
        ),
        (PreparationState::ReturnRemainder { minimum, minimum_basic }, PreparationEvent::RemainderChosen(r)) => match r {
            Ok(_) => after_return(input, minimum, minimum_basic),
            Err(e) => (PreparationState::Failed, PreparationAction::Fail(e)),
        },
        (PreparationState::ReadingBalance { minimum, minimum_basic }, PreparationEvent::BalanceRead { available }) => {
            let second = deposit_plan(input.requested, minimum, input.storage_deposit, available, minimum_basic);
            (PreparationState::BuildingSecond { second, minimum_basic }, PreparationAction::BuildSecond { plan: second })
        },
        (PreparationState::BuildingSecond { second, minimum_basic }, PreparationEvent::SecondBuilt { required }) => (
            PreparationState::Finished,
            PreparationAction::Finish { plan: final_plan(input.requested, second, required, minimum_basic) },
        ),
        _ => (state, PreparationAction::Ignore),
    }
}

/// The amounts fit in 64 bits wherever the original adds them: the request
/// plus the storage deposit of a basic output.
pub open spec fn preparation_event_readable(input: PreparationInput, state: PreparationState, event: PreparationEvent) -> bool {
    match (state, event) {
        (PreparationState::BuildingFirst, PreparationEvent::FirstBuilt { minimum_basic, .. }) => input.requested
            + minimum_basic <= u64::MAX,
        _ => true,
    }
}

/// The states in which the second output is waited for keep the amounts in
/// a shape from which the final amounts can be computed.
pub open spec fn preparation_state_valid(input: PreparationInput, state: PreparationState) -> bool {
    match state {
        PreparationState::ReturnRemainder { minimum_basic, .. } => input.requested + minimum_basic <= u64::MAX,
        PreparationState::ReadingBalance { minimum_basic, .. } => input.requested + minimum_basic <= u64::MAX,
        PreparationState::BuildingSecond { second, minimum_basic } => input.requested + minimum_basic <= u64::MAX
            && second.amount >= input.requested,
        _ => true,
    }
}

fn second_plan(input: &PreparationInput, minimum: u64, minimum_basic: u64, available: u64) -> (r: PreparationState)
    ensures
        r == (PreparationState::BuildingSecond {
            second: deposit_plan(input.requested, minimum, input.storage_deposit, available, minimum_basic),
            minimum_basic,
        }),
{
    let second = plan_deposit_amount(input.requested, minimum, &input.storage_deposit, available, minimum_basic);
    PreparationState::BuildingSecond { second, minimum_basic }
}

fn step_after_return(input: &PreparationInput, minimum: u64, minimum_basic: u64) -> (r: (
    PreparationState,
    PreparationAction,
))
    ensures
        r == after_return(*input, minimum, minimum_basic),
{
    let excess = match input.storage_deposit {
        Some(d) => match d.use_excess_if_low {
            Some(true) => true,
            _ => false,
        },
        None => false,
    };
    if excess {
        (PreparationState::ReadingBalance { minimum, minimum_basic }, PreparationAction::ReadBalance)
    } else {
        let s = second_plan(input, minimum, minimum_basic, 0);
        let plan = match s {
            PreparationState::BuildingSecond { second, .. } => second,
            _ => AmountPlan { amount: 0, storage_deposit_return: None },
        };
        (s, PreparationAction::BuildSecond { plan })
    }
}

/// Decides the next step of a preparation.
pub fn preparation_step(input: &PreparationInput, state: PreparationState, event: PreparationEvent) -> (r: (
    PreparationState,
    PreparationAction,
))
    requires
        preparation_state_valid(*input, state),
        preparation_event_readable(*input, state, event),
    ensures
        r == preparation_next(*input, state, event),
        preparation_state_valid(*input, r.0),
        r.1 is ReadBalance ==> uses_excess(input.storage_deposit),
        r.1 is ChooseRemainder ==> (state is DecodingFeatureAddresses && input.expires) || (
        r.0 matches PreparationState::ReturnRemainder { minimum, .. } && input.requested < minimum
            && returns_deposit(input.storage_deposit)),
{
    match (state, event) {
        (PreparationState::Start, PreparationEvent::Begin) => {
            if input.sends_nft {
                (PreparationState::SelectingNft, PreparationAction::SelectNft)
            } else {
                (PreparationState::CheckingRecipient, PreparationAction::CheckRecipient { check_network: true })
            }
        },
        (PreparationState::SelectingNft, PreparationEvent::NftSelected(r)) => match r {
            Ok(_) => (PreparationState::CheckingRecipient, PreparationAction::CheckRecipient { check_network: false }),
            Err(e) => (PreparationState::Failed, PreparationAction::Fail(e)),
        },
        (PreparationState::CheckingRecipient, PreparationEvent::RecipientChecked) => (
            PreparationState::Planning,
            PreparationAction::PlanOutput,
        ),
        (PreparationState::Planning, PreparationEvent::Planned(r)) => match r {
            Ok(()) => (PreparationState::DecodingFeatureAddresses, PreparationAction::DecodeFeatureAddresses),
            Err(e) => (PreparationState::Failed, PreparationAction::Fail(e)),
        },
        (PreparationState::DecodingFeatureAddresses, PreparationEvent::FeatureAddressesDecoded) => {
            if input.expires {
                (PreparationState::ExpirationRemainder, PreparationAction::ChooseRemainder)
            } else {
                (PreparationState::BuildingFirst, PreparationAction::BuildFirst)
            }
        },
        (PreparationState::ExpirationRemainder, PreparationEvent::RemainderChosen(r)) => match r {
            Ok(_) => (PreparationState::BuildingFirst, PreparationAction::BuildFirst),
            Err(e) => (PreparationState::Failed, PreparationAction::Fail(e)),
        },
        (PreparationState::BuildingFirst, PreparationEvent::FirstBuilt { minimum, minimum_basic }) => {
            let gives_back = match input.storage_deposit {
                Some(d) => match d.return_strategy {
                    Some(crate::output_options::ReturnStrategy::Gift) => false,
                    _ => true,
                },
                None => true,
            };
            if input.requested < minimum && gives_back {
                (PreparationState::ReturnRemainder { minimum, minimum_basic }, PreparationAction::ChooseRemainder)
            } else {
                step_after_return(input, minimum, minimum_basic)
            }
        },
        (PreparationState::ReturnRemainder { minimum, minimum_basic }, PreparationEvent::RemainderChosen(r)) => match r {
            Ok(_) => step_after_return(input, minimum, minimum_basic),
            Err(e) => (PreparationState::Failed, PreparationAction::Fail(e)),
        },
        (PreparationState::ReadingBalance { minimum, minimum_basic }, PreparationEvent::BalanceRead { available }) => {
            let s = second_plan(input, minimum, minimum_basic, available);
            let plan = match s {
                PreparationState::BuildingSecond { second, .. } => second,
                _ => AmountPlan { amount: 0, storage_deposit_return: None },
            };
            (s, PreparationAction::BuildSecond { plan })
        },
        (PreparationState::BuildingSecond { second, minimum_basic }, PreparationEvent::SecondBuilt { required }) => {
            let plan = plan_final_amount(input.requested, second, required, minimum_basic);
            (PreparationState::Finished, PreparationAction::Finish { plan })
        },
        (s, _) => (s, PreparationAction::Ignore),
    }
}


/// Excess may be used (off by default).
pub open spec fn excess_allowed(sd: Option<StorageDeposit>) -> bool {
    sd matches Some(d) && d.use_excess_if_low == Some(true)
}

/// Once the first output is built: a request below its minimum storage
/// deposit, not gifted, first needs a remainder address for the return
/// condition; otherwise, where excess may be used, the balance is read;
/// otherwise the second output is built at once, with the larger of the
/// request and the minimum and no return condition.
pub proof fn lemma_after_first_output(input: PreparationInput, minimum: u64, minimum_basic: u64)
    ensures
        ({
            let (s, a) = preparation_next(
                input,
                PreparationState::BuildingFirst,
                PreparationEvent::FirstBuilt { minimum, minimum_basic },
            );
            let base = if input.requested >= minimum { input.requested } else { minimum };
            if input.requested < minimum && !gifts_deposit(input.storage_deposit) {
                s == PreparationState::ReturnRemainder { minimum, minimum_basic } && a
                    == PreparationAction::ChooseRemainder
            } else if excess_allowed(input.storage_deposit) {
                s == PreparationState::ReadingBalance { minimum, minimum_basic } && a == PreparationAction::ReadBalance
            } else {
                let plan = AmountPlan { amount: base, storage_deposit_return: None };
                s == (PreparationState::BuildingSecond { second: plan, minimum_basic }) && a
                    == PreparationAction::BuildSecond { plan }
            }
        }),
{
}

/// Once the remainder address of the return condition is chosen (the state is
/// only reached with a request below the minimum that is not gifted): where
/// excess may be used the balance is read, else the second output carries
/// the minimum and returns the storage deposit of a basic output.
pub proof fn lemma_after_return_address(
    input: PreparationInput,
    minimum: u64,
    minimum_basic: u64,
    address: Address,
)
    requires
        input.requested < minimum,
        !gifts_deposit(input.storage_deposit),
    ensures
        ({
            let (s, a) = preparation_next(
                input,
                PreparationState::ReturnRemainder { minimum, minimum_basic },
                PreparationEvent::RemainderChosen(Ok(address)),
            );
            if excess_allowed(input.storage_deposit) {
                s == PreparationState::ReadingBalance { minimum, minimum_basic } && a == PreparationAction::ReadBalance
            } else {
                let plan = AmountPlan { amount: minimum, storage_deposit_return: Some(minimum_basic) };
                s == (PreparationState::BuildingSecond { second: plan, minimum_basic }) && a
                    == PreparationAction::BuildSecond { plan }
            }
        }),
{
}

/// Once the balance is read: the second output returns the storage deposit
/// of a basic output exactly when the request is below the minimum and not
/// gifted, and carries the larger of the request and the minimum, or the
/// whole balance where what would be left is positive but below
/// `minimum_basic`. The state keeps the amounts that the action builds.
pub proof fn lemma_after_balance(input: PreparationInput, minimum: u64, minimum_basic: u64, available: u64)
    requires
        excess_allowed(input.storage_deposit),
    ensures
        ({
            let (s, a) = preparation_next(
                input,
                PreparationState::ReadingBalance { minimum, minimum_basic },
                PreparationEvent::BalanceRead { available },
            );
            let base: int = if input.requested >= minimum { input.requested as int } else { minimum as int };
            a matches PreparationAction::BuildSecond { plan } && s == (PreparationState::BuildingSecond {
                second: plan,
                minimum_basic,
            }) && plan.storage_deposit_return == (if input.requested < minimum && !gifts_deposit(
                input.storage_deposit,
            ) {
                Some(minimum_basic)
            } else {
                None
            }) && plan.amount == (if available > base && available - base < minimum_basic {
                available as int
            } else {
                base
            })
        }),
{
}

/// Once the second output is built: if it covers the storage deposit it
/// requires, it is the final output as it is; else the final output is
/// raised to that deposit (or to the request plus `minimum_basic`, if that
/// is more) and a return condition returns all but the request. A return
/// condition is never added nor dropped.
pub proof fn lemma_final_output(input: PreparationInput, second: AmountPlan, minimum_basic: u64, required: u64)
    requires
        second.amount >= input.requested,
        input.requested + minimum_basic <= u64::MAX,
    ensures
        ({
            let (s, a) = preparation_next(
                input,
                PreparationState::BuildingSecond { second, minimum_basic },
                PreparationEvent::SecondBuilt { required },
            );
            &&& s == PreparationState::Finished
            &&& a matches PreparationAction::Finish { plan }
            &&& second.amount >= required ==> plan == second
            &&& (plan.storage_deposit_return is Some) == (second.storage_deposit_return is Some)
            &&& second.amount < required ==> plan.amount == (if required >= input.requested + minimum_basic {
                required as int
            } else {
                input.requested + minimum_basic
            })
            &&& second.amount < required ==> (plan.storage_deposit_return matches Some(x) ==> x == plan.amount
                - input.requested)
        }),
{
}


/// The steps before the first output, in order: an NFT output first finds
/// its source, then reads the recipient without checking its network; a
/// basic output reads the recipient and checks its network. Then come the
/// plan, the feature addresses and, only for an expiration, a remainder
/// address, before the first output is built. Each error ends the
/// preparation with that very error, and a finished or failed preparation
/// ignores whatever comes after.
pub proof fn lemma_steps_before_first_output(
    input: PreparationInput,
    source: Result<NftSource, WalletError>,
    planned: Result<(), WalletError>,
    remainder: Result<Address, WalletError>,
    minimum: u64,
    minimum_basic: u64,
    event: PreparationEvent,
)
    ensures
        preparation_next(input, PreparationState::Start, PreparationEvent::Begin) == (if input.sends_nft {
            (PreparationState::SelectingNft, PreparationAction::SelectNft)
        } else {
            (PreparationState::CheckingRecipient, PreparationAction::CheckRecipient { check_network: true })
        }),
        preparation_next(input, PreparationState::SelectingNft, PreparationEvent::NftSelected(source)) == (match source {
            Ok(_) => (PreparationState::CheckingRecipient, PreparationAction::CheckRecipient { check_network: false }),
            Err(e) => (PreparationState::Failed, PreparationAction::Fail(e)),
        }),
        preparation_next(input, PreparationState::CheckingRecipient, PreparationEvent::RecipientChecked) == (
            PreparationState::Planning,
            PreparationAction::PlanOutput,
        ),
        preparation_next(input, PreparationState::Planning, PreparationEvent::Planned(planned)) == (match planned {
            Ok(()) => (PreparationState::DecodingFeatureAddresses, PreparationAction::DecodeFeatureAddresses),
            Err(e) => (PreparationState::Failed, PreparationAction::Fail(e)),
        }),
        preparation_next(input, PreparationState::DecodingFeatureAddresses, PreparationEvent::FeatureAddressesDecoded)
            == (if input.expires {
            (PreparationState::ExpirationRemainder, PreparationAction::ChooseRemainder)
        } else {
            (PreparationState::BuildingFirst, PreparationAction::BuildFirst)
        }),
        preparation_next(input, PreparationState::ExpirationRemainder, PreparationEvent::RemainderChosen(remainder))
            == (match remainder {
            Ok(_) => (PreparationState::BuildingFirst, PreparationAction::BuildFirst),
            Err(e) => (PreparationState::Failed, PreparationAction::Fail(e)),
        }),
        remainder is Err ==> preparation_next(
                input,
                PreparationState::ReturnRemainder { minimum, minimum_basic },
                PreparationEvent::RemainderChosen(remainder),
            ) == (PreparationState::Failed, PreparationAction::Fail(remainder->Err_0)),
        preparation_next(input, PreparationState::Finished, event) == (
            PreparationState::Finished,
            PreparationAction::Ignore,
        ),
        preparation_next(input, PreparationState::Failed, event) == (PreparationState::Failed, PreparationAction::Ignore),
{
}

} // verus!
