use wallet_core::address_generation::{
    address_range, known_bech32_hrp, IOTA_COIN_TYPE, next_key_index, plan_address_generation, preview_metadata, record_generated_addresses, Account,
    AccountAddress, AddressGenerationOptions, AddressWrapper, GenerateAddressMetadata, Network,
};
use wallet_core::error::WalletError;
use wallet_core::ids::{Address, AddressKind};
use wallet_core::message_handler::{
    token_amount, chosen_bech32_hrp, fallback_bech32_hrp, voting_power_amount, finish_with_secret, finish_with_secrets, into_response,
    output_builder_amount, panic_message, panic_to_response_message, OutputBuilderAmount, PanicPayload, Response,
    Wallet, WalletMessageHandler,
};

fn addr(b: u8) -> Address {
    Address { kind: AddressKind::Ed25519, bytes: [b; 32] }
}

fn empty_account(index: u32) -> Account {
    Account { index, public_addresses: vec![], internal_addresses: vec![] }
}

#[test]
fn default_address_generation_options() {
    let o = AddressGenerationOptions::default();
    assert!(!o.internal);
    assert_eq!(o.metadata, GenerateAddressMetadata { syncing: false, network: Network::Testnet });
    assert_eq!(preview_metadata(&o, true), Some(GenerateAddressMetadata { syncing: true, network: Network::Testnet }));
    // Without a device that prompts there is nothing to show beforehand.
    assert_eq!(preview_metadata(&o, false), None);
    let syncing = AddressGenerationOptions { internal: true, metadata: GenerateAddressMetadata { syncing: true, network: Network::Mainnet } };
    assert_eq!(preview_metadata(&syncing, true), None);
}

#[test]
fn generated_addresses_continue_the_key_indexes() {
    let mut account = empty_account(3);
    assert_eq!(known_bech32_hrp(&account), None);
    assert_eq!(address_range(&account, 2, false), (0, 2));
    let first = record_generated_addresses(&mut account, false, &"rms".to_string(), &vec![addr(1), addr(2)]);
    assert_eq!(first.iter().map(|a| a.key_index).collect::<Vec<_>>(), vec![0, 1]);
    assert_eq!(
        first[1],
        AccountAddress {
            address: AddressWrapper { inner: addr(2), bech32_hrp: "rms".to_string() },
            key_index: 1,
            internal: false,
            used: false
        }
    );
    assert_eq!(known_bech32_hrp(&account), Some("rms".to_string()));
    assert_eq!(next_key_index(&account, false), 2);
    assert_eq!(next_key_index(&account, true), 0);
    let second = record_generated_addresses(&mut account, false, &"rms".to_string(), &vec![addr(3)]);
    assert_eq!(second[0].key_index, 2);
    let internal = record_generated_addresses(&mut account, true, &"rms".to_string(), &vec![addr(4)]);
    assert_eq!(internal[0].key_index, 0);
    assert!(internal[0].internal);
    assert_eq!(account.public_addresses.len(), 3);
    assert_eq!(account.internal_addresses.len(), 1);
    assert_eq!(address_range(&account, 5, true), (1, 6));
    for (i, a) in account.public_addresses.iter().enumerate() {
        assert_eq!(a.key_index as usize, i);
    }
}

#[test]
fn handler_answers_account_indexes() {
    let handler = WalletMessageHandler::with_manager(Wallet { accounts: vec![empty_account(0), empty_account(4)] });
    assert_eq!(handler.account_indexes(), Response::AccountIndexes(vec![0, 4]));
    let none = WalletMessageHandler::with_manager(Wallet { accounts: vec![] });
    assert_eq!(none.account_indexes(), Response::AccountIndexes(vec![]));
}

#[test]
fn errors_become_error_responses() {
    assert_eq!(into_response(Err(WalletError::FailedToGetRemainder)), Response::Error(WalletError::FailedToGetRemainder));
    assert_eq!(into_response(Ok(Response::Done)), Response::Done);
}

#[test]
fn panics_are_reported() {
    assert_eq!(panic_message(&PanicPayload::Message("rekt".to_string())), "Internal error: rekt");
    assert_eq!(panic_message(&PanicPayload::Other), "Internal error");
    match panic_to_response_message(&PanicPayload::Message("rekt".to_string())) {
        Response::Panic(msg) => {
            assert!(msg.starts_with("Internal error: rekt\n\n"));
            assert!(msg.len() > "Internal error: rekt\n\n".len());
        },
        other => panic!("Unexpected response type: {other:?}"),
    }
}

#[test]
fn bech32_hrp_choice() {
    assert_eq!(fallback_bech32_hrp(None), "rms");
    assert_eq!(fallback_bech32_hrp(Some("smr".to_string())), "smr");
    assert_eq!(chosen_bech32_hrp(Some("atoi".to_string()), None), "atoi");
    assert_eq!(chosen_bech32_hrp(None, Some("iota".to_string())), "iota");
}

#[test]
fn output_amount_or_minimum_deposit() {
    assert_eq!(output_builder_amount(Some("12".to_string())), OutputBuilderAmount::Amount("12".to_string()));
    assert_eq!(output_builder_amount(None), OutputBuilderAmount::MinimumStorageDeposit);
}

#[test]
fn secrets_are_wiped_only_once_accepted() {
    let mut mnemonic = "word word word".to_string();
    assert_eq!(finish_with_secret(Err(WalletError::FailedToGetRemainder), &mut mnemonic), Err(WalletError::FailedToGetRemainder));
    assert_eq!(mnemonic, "word word word");
    assert_eq!(finish_with_secret(Ok(()), &mut mnemonic), Ok(Response::Done));
    assert!(mnemonic.is_empty());

    let mut current = "old".to_string();
    let mut new = "new".to_string();
    assert_eq!(finish_with_secrets(Ok(()), &mut current, &mut new), Ok(Response::Done));
    assert!(current.is_empty() && new.is_empty());
}

#[test]
fn token_amounts_are_read_as_hex() {
    assert_eq!(token_amount(&"0xff".to_string(), "burn_amount"), Ok([255, 0, 0, 0]));
    assert_eq!(token_amount(&"255".to_string(), "burn_amount"), Err(WalletError::InvalidField("burn_amount")));
    assert_eq!(token_amount(&"0x".to_string(), "melt_amount"), Err(WalletError::InvalidField("melt_amount")));
    assert_eq!(token_amount(&format!("0x{}", "f".repeat(64)), "mint_amount"), Ok([u64::MAX; 4]));
    assert_eq!(token_amount(&"0x1".to_string(), "mint_amount"), Ok([1, 0, 0, 0]));
    // One ASCII character is an invalid field, not a panic.
    assert_eq!(token_amount(&"x".to_string(), "burn_amount"), Err(WalletError::InvalidField("burn_amount")));
}

#[test]
fn voting_power_is_read_as_decimal() {
    assert_eq!(voting_power_amount(&"1000".to_string()), Ok(1000));
    assert_eq!(voting_power_amount(&"0x10".to_string()), Err(WalletError::InvalidAmount("0x10".to_string())));
}

#[test]
fn generation_plan_for_a_new_account() {
    let account = empty_account(2);
    let plan = plan_address_generation(&account, 3, &AddressGenerationOptions::default(), true);
    assert_eq!(plan.coin_type, IOTA_COIN_TYPE);
    assert_eq!(plan.coin_type, 4218);
    assert_eq!(plan.account_index, 2);
    assert_eq!((plan.start, plan.end), (0, 3));
    assert!(!plan.internal);
    assert_eq!(plan.preview, Some(GenerateAddressMetadata { syncing: true, network: Network::Testnet }));
    assert_eq!(plan.bech32_hrp, None);
    let plain = plan_address_generation(&account, 3, &AddressGenerationOptions::default(), false);
    assert_eq!(plain.preview, None);
    assert_eq!(plain.coin_type, 4218);
}
