use wallet_core::error::WalletError;
use wallet_core::ids::{Address, AddressKind};
use wallet_core::output_options::{ReturnStrategy, StorageDeposit};
use wallet_core::prepare_output::{AmountPlan, NftSource};
use wallet_core::preparation::{
    preparation_step, PreparationAction, PreparationEvent, PreparationInput, PreparationState,
};

fn input(requested: u64, sends_nft: bool, expires: bool, sd: Option<StorageDeposit>) -> PreparationInput {
    PreparationInput { requested, sends_nft, expires, storage_deposit: sd }
}

fn addr() -> Address {
    Address { kind: AddressKind::Ed25519, bytes: [1; 32] }
}

fn run(i: &PreparationInput, events: Vec<PreparationEvent>) -> (PreparationState, Vec<PreparationAction>) {
    let mut state = PreparationState::Start;
    let mut actions = Vec::new();
    for e in events {
        let (s, a) = preparation_step(i, state, e);
        state = s;
        actions.push(a);
    }
    (state, actions)
}

#[test]
fn a_basic_output_above_the_minimum_needs_no_remainder_and_no_balance() {
    let i = input(1000, false, false, None);
    let (state, actions) = run(
        &i,
        vec![
            PreparationEvent::Begin,
            PreparationEvent::RecipientChecked,
            PreparationEvent::Planned(Ok(())),
            PreparationEvent::FeatureAddressesDecoded,
            PreparationEvent::FirstBuilt { minimum: 500, minimum_basic: 400 },
            PreparationEvent::SecondBuilt { required: 500 },
        ],
    );
    assert_eq!(state, PreparationState::Finished);
    assert_eq!(
        actions,
        vec![
            PreparationAction::CheckRecipient { check_network: true },
            PreparationAction::PlanOutput,
            PreparationAction::DecodeFeatureAddresses,
            PreparationAction::BuildFirst,
            PreparationAction::BuildSecond { plan: AmountPlan { amount: 1000, storage_deposit_return: None } },
            PreparationAction::Finish { plan: AmountPlan { amount: 1000, storage_deposit_return: None } },
        ]
    );
}

#[test]
fn a_small_expiring_output_asks_for_remainder_addresses_in_order() {
    let sd = Some(StorageDeposit { return_strategy: None, use_excess_if_low: Some(true) });
    let i = input(100, false, true, sd);
    let (state, actions) = run(
        &i,
        vec![
            PreparationEvent::Begin,
            PreparationEvent::RecipientChecked,
            PreparationEvent::Planned(Ok(())),
            PreparationEvent::FeatureAddressesDecoded,
            PreparationEvent::RemainderChosen(Ok(addr())),
            PreparationEvent::FirstBuilt { minimum: 500, minimum_basic: 400 },
            PreparationEvent::RemainderChosen(Ok(addr())),
            PreparationEvent::BalanceRead { available: 700 },
            PreparationEvent::SecondBuilt { required: 800 },
        ],
    );
    assert_eq!(state, PreparationState::Finished);
    assert_eq!(actions[3], PreparationAction::ChooseRemainder);
    assert_eq!(actions[4], PreparationAction::BuildFirst);
    assert_eq!(actions[5], PreparationAction::ChooseRemainder);
    assert_eq!(actions[6], PreparationAction::ReadBalance);
    // The 200 left over is too little for an output of its own, so it is added.
    assert_eq!(actions[7], PreparationAction::BuildSecond { plan: AmountPlan { amount: 700, storage_deposit_return: Some(400) } });
    assert_eq!(actions[8], PreparationAction::Finish { plan: AmountPlan { amount: 800, storage_deposit_return: Some(700) } });
}

#[test]
fn an_nft_output_finds_its_source_first_and_skips_the_network_check() {
    let i = input(100, true, false, Some(StorageDeposit { return_strategy: Some(ReturnStrategy::Gift), use_excess_if_low: None }));
    let (_, actions) = run(
        &i,
        vec![
            PreparationEvent::Begin,
            PreparationEvent::NftSelected(Ok(NftSource::Existing(0))),
            PreparationEvent::RecipientChecked,
        ],
    );
    assert_eq!(actions[0], PreparationAction::SelectNft);
    assert_eq!(actions[1], PreparationAction::CheckRecipient { check_network: false });
    assert_eq!(actions[2], PreparationAction::PlanOutput);
}

#[test]
fn the_first_error_ends_the_preparation() {
    let i = input(100, true, true, None);
    let (state, actions) = run(
        &i,
        vec![
            PreparationEvent::Begin,
            PreparationEvent::NftSelected(Err(WalletError::NftNotFoundInUnspentOutputs)),
            PreparationEvent::RecipientChecked,
        ],
    );
    assert_eq!(state, PreparationState::Failed);
    assert_eq!(actions[1], PreparationAction::Fail(WalletError::NftNotFoundInUnspentOutputs));
    assert_eq!(actions[2], PreparationAction::Ignore);

    let basic = input(100, false, false, None);
    let (state, actions) = run(
        &basic,
        vec![
            PreparationEvent::Begin,
            PreparationEvent::RecipientChecked,
            PreparationEvent::Planned(Err(WalletError::MissingParameter("nft_id"))),
        ],
    );
    assert_eq!(state, PreparationState::Failed);
    assert_eq!(actions[2], PreparationAction::Fail(WalletError::MissingParameter("nft_id")));

    let expiring = input(100, false, true, None);
    let (state, actions) = run(
        &expiring,
        vec![
            PreparationEvent::Begin,
            PreparationEvent::RecipientChecked,
            PreparationEvent::Planned(Ok(())),
            PreparationEvent::FeatureAddressesDecoded,
            PreparationEvent::RemainderChosen(Err(WalletError::FailedToGetRemainder)),
        ],
    );
    assert_eq!(state, PreparationState::Failed);
    assert_eq!(actions[4], PreparationAction::Fail(WalletError::FailedToGetRemainder));
}
