use wallet_core::error::WalletError;
use wallet_core::ids::{Address, AddressKind, NftId, OutputId};
use wallet_core::output_options::{Assets, Features, OutputOptions, ReturnStrategy, StorageDeposit, Unlocks};
use wallet_core::prepare_output::{
    choose_remainder_address, features_are_decodable, needs_balance, needs_change_address, needs_return_address, nft_to_send,
    plan_deposit_amount, plan_final_amount, plan_output, prepare_features, select_nft_source, AmountPlan, NftOutputRecord,
    NftSource, OutputKind,
};
use wallet_core::transaction_options::{RemainderValueStrategy, TransactionOptions};

fn addr(b: u8) -> Address {
    Address { kind: AddressKind::Ed25519, bytes: [b; 32] }
}

fn options_with(assets: Option<Assets>) -> OutputOptions {
    OutputOptions {
        recipient_address: "rms1recipient".to_string(),
        amount: 1,
        assets,
        features: None,
        unlocks: None,
        storage_deposit: None,
    }
}

#[test]
fn nft_in_assets_selects_an_nft_output() {
    assert_eq!(nft_to_send(&options_with(None)), None);
    assert_eq!(nft_to_send(&options_with(Some(Assets::default()))), None);
    let id = NftId { bytes: [9u8; 32] };
    assert_eq!(nft_to_send(&options_with(Some(Assets { native_tokens: None, nft_id: Some(id) }))), Some(id));
}

fn feats(tag: Option<&str>, metadata: Option<&str>, issuer: Option<&str>) -> Option<Features> {
    Some(Features {
        tag: tag.map(str::to_string),
        metadata: metadata.map(str::to_string),
        issuer: issuer.map(str::to_string),
        sender: Some("rms1sender".to_string()),
    })
}

#[test]
fn features_are_decoded() {
    let p = prepare_features(&feats(Some("0x0aFF"), Some("0x"), None), OutputKind::Basic).unwrap();
    assert_eq!(p.tag, Some(vec![0x0a, 0xff]));
    assert_eq!(p.metadata, Some(vec![]));
    assert_eq!(p.sender, Some("rms1sender".to_string()));
    assert_eq!(p.issuer, None);
    let none = prepare_features(&None, OutputKind::Nft).unwrap();
    assert_eq!(none.tag, None);
    assert_eq!(none.sender, None);
}

#[test]
fn basic_output_with_issuer_asks_for_an_nft() {
    assert_eq!(
        prepare_features(&feats(Some("bad"), None, Some("rms1issuer")), OutputKind::Basic),
        Err(WalletError::MissingParameter("nft_id"))
    );
    let p = prepare_features(&feats(None, None, Some("rms1issuer")), OutputKind::Nft).unwrap();
    assert_eq!(p.issuer, Some("rms1issuer".to_string()));
}

#[test]
fn undecodable_tag_or_metadata_is_an_invalid_field() {
    assert_eq!(prepare_features(&feats(Some("0x1"), Some("zz"), None), OutputKind::Basic), Err(WalletError::InvalidField("tag")));
    assert_eq!(prepare_features(&feats(Some("0xg0"), None, None), OutputKind::Nft), Err(WalletError::InvalidField("tag")));
    assert_eq!(prepare_features(&feats(Some("01"), None, None), OutputKind::Nft), Err(WalletError::InvalidField("tag")));
    assert_eq!(
        prepare_features(&feats(Some("0x01"), Some("0x123"), None), OutputKind::Nft),
        Err(WalletError::InvalidField("metadata"))
    );
}

fn record(tx: u8, id: u8) -> NftOutputRecord {
    NftOutputRecord { output_id: OutputId { transaction_id: [tx; 32], index: 0 }, nft_id: NftId { bytes: [id; 32] } }
}

#[test]
fn nft_source_is_the_first_output_holding_it() {
    let unspent = vec![record(1, 5), record(2, 6), record(3, 6)];
    assert_eq!(select_nft_source(&NftId { bytes: [6; 32] }, &unspent), Ok(NftSource::Existing(1)));
    assert_eq!(select_nft_source(&NftId { bytes: [0; 32] }, &unspent), Ok(NftSource::Mint));
    assert_eq!(
        select_nft_source(&NftId { bytes: [7; 32] }, &unspent),
        Err(WalletError::NftNotFoundInUnspentOutputs)
    );
    let mut minted = [0u8; 32];
    minted[31] = 1;
    assert_eq!(select_nft_source(&NftId { bytes: minted }, &vec![]), Err(WalletError::NftNotFoundInUnspentOutputs));
}

fn tx_options(strategy: RemainderValueStrategy) -> Option<TransactionOptions> {
    Some(TransactionOptions { remainder_value_strategy: strategy, mana_allotments: None })
}

#[test]
fn remainder_address_choice() {
    let account = vec![addr(1), addr(2)];
    assert!(!needs_change_address(&None));
    assert!(needs_change_address(&tx_options(RemainderValueStrategy::ChangeAddress)));
    assert_eq!(choose_remainder_address(&None, None, &account), Ok(addr(1)));
    assert_eq!(
        choose_remainder_address(&tx_options(RemainderValueStrategy::ReuseAddress), None, &account),
        Ok(addr(1))
    );
    assert_eq!(
        choose_remainder_address(&tx_options(RemainderValueStrategy::ChangeAddress), Some(addr(8)), &account),
        Ok(addr(8))
    );
    assert_eq!(
        choose_remainder_address(&tx_options(RemainderValueStrategy::CustomAddress(addr(9))), None, &vec![]),
        Ok(addr(9))
    );
    assert_eq!(choose_remainder_address(&None, None, &vec![]), Err(WalletError::FailedToGetRemainder));
}

fn sd(strategy: Option<ReturnStrategy>, excess: Option<bool>) -> Option<StorageDeposit> {
    Some(StorageDeposit { return_strategy: strategy, use_excess_if_low: excess })
}

#[test]
fn a_request_above_the_minimum_is_sent_as_it_is() {
    let p = plan_deposit_amount(1000, 500, &None, 0, 400);
    assert_eq!(p, AmountPlan { amount: 1000, storage_deposit_return: None });
    assert_eq!(plan_final_amount(1000, p, 900, 400), p);
    assert!(!needs_balance(&None));
    assert!(!needs_balance(&sd(None, Some(false))));
    assert!(!needs_return_address(500, 500, &None));
}

#[test]
fn a_small_request_returns_the_minimum_basic_deposit_by_default() {
    assert!(needs_return_address(100, 500, &None));
    let p = plan_deposit_amount(100, 500, &None, 0, 400);
    assert_eq!(p, AmountPlan { amount: 500, storage_deposit_return: Some(400) });
    // The return condition pushes the deposit to 600: the excess over the request is returned.
    let f = plan_final_amount(100, p, 600, 400);
    assert_eq!(f, AmountPlan { amount: 600, storage_deposit_return: Some(500) });
    assert_eq!(f.amount - f.storage_deposit_return.unwrap(), 100);
}

#[test]
fn a_raised_return_never_falls_below_the_minimum_basic_deposit() {
    let p = plan_deposit_amount(300, 500, &sd(Some(ReturnStrategy::Return), None), 0, 400);
    assert_eq!(p, AmountPlan { amount: 500, storage_deposit_return: Some(400) });
    let f = plan_final_amount(300, p, 600, 400);
    assert_eq!(f, AmountPlan { amount: 700, storage_deposit_return: Some(400) });
}

#[test]
fn a_gift_has_no_return_condition() {
    assert!(!needs_return_address(100, 500, &sd(Some(ReturnStrategy::Gift), None)));
    let p = plan_deposit_amount(100, 500, &sd(Some(ReturnStrategy::Gift), None), 0, 400);
    assert_eq!(p, AmountPlan { amount: 500, storage_deposit_return: None });
    assert_eq!(plan_final_amount(100, p, 550, 400), AmountPlan { amount: 550, storage_deposit_return: None });
}

#[test]
fn a_low_remainder_is_added_when_excess_may_be_used() {
    let s = sd(Some(ReturnStrategy::Gift), Some(true));
    assert!(needs_balance(&s));
    assert_eq!(plan_deposit_amount(100, 500, &s, 700, 400), AmountPlan { amount: 700, storage_deposit_return: None });
    // A remainder of at least the minimum basic deposit can stand alone.
    assert_eq!(plan_deposit_amount(100, 500, &s, 900, 400), AmountPlan { amount: 500, storage_deposit_return: None });
    // Not more than the output needs is available.
    assert_eq!(plan_deposit_amount(100, 500, &s, 500, 400), AmountPlan { amount: 500, storage_deposit_return: None });
    // Without the option the balance is not read.
    assert_eq!(plan_deposit_amount(100, 500, &None, 700, 400), AmountPlan { amount: 500, storage_deposit_return: Some(400) });
}

#[test]
fn a_low_remainder_is_added_to_a_request_above_the_minimum() {
    let s = sd(None, Some(true));
    assert!(needs_balance(&s));
    // 2 Mi available, a 1 Mi minimum, 1.5 Mi requested: the 0.5 Mi left over
    // cannot stand alone, so the whole 2 Mi is sent.
    let p = plan_deposit_amount(1_500_000, 1_000_000, &s, 2_000_000, 1_000_000);
    assert_eq!(p, AmountPlan { amount: 2_000_000, storage_deposit_return: None });
    assert_eq!(plan_final_amount(1_500_000, p, 1_000_000, 1_000_000), p);
    // A remainder that can stand alone stays with the sender.
    assert_eq!(
        plan_deposit_amount(1_500_000, 1_000_000, &s, 3_000_000, 1_000_000),
        AmountPlan { amount: 1_500_000, storage_deposit_return: None }
    );
    // Without the option the request is sent as it is.
    assert_eq!(
        plan_deposit_amount(1_500_000, 1_000_000, &None, 2_000_000, 1_000_000),
        AmountPlan { amount: 1_500_000, storage_deposit_return: None }
    );
}

#[test]
fn output_plan_follows_the_options() {
    let mut options = options_with(Some(Assets { native_tokens: None, nft_id: Some(NftId { bytes: [1; 32] }) }));
    options.features = feats(Some("0x01"), None, Some("rms1issuer"));
    options.unlocks = Some(Unlocks { expiration_unix_time: Some(10), timelock_unix_time: Some(20) });
    let plan = plan_output(&options).unwrap();
    assert_eq!(plan.kind, OutputKind::Nft);
    assert_eq!(plan.nft_id, Some(NftId { bytes: [1; 32] }));
    assert_eq!(plan.features.tag, Some(vec![1]));
    assert_eq!(plan.features.issuer, Some("rms1issuer".to_string()));
    assert_eq!((plan.expiration_unix_time, plan.timelock_unix_time), (Some(10), Some(20)));

    options.assets = None;
    assert_eq!(plan_output(&options), Err(WalletError::MissingParameter("nft_id")));
}

#[test]
fn features_are_decodable_unless_a_field_is_one_non_ascii_character() {
    let mut options = options_with(None);
    assert!(features_are_decodable(&options));
    options.features = feats(Some("0x01"), Some("0x02"), None);
    assert!(features_are_decodable(&options));
    options.features = feats(Some("é"), None, None);
    assert!(!features_are_decodable(&options));
    // An unreadable tag stops the preparation before the metadata is decoded.
    options.features = feats(Some("x"), Some("é"), None);
    assert!(features_are_decodable(&options));
    options.features = feats(Some("0x01"), Some("é"), None);
    assert!(!features_are_decodable(&options));
    // A basic output with an issuer stops before anything is decoded.
    options.features = feats(Some("é"), None, Some("rms1issuer"));
    assert!(features_are_decodable(&options));
}
