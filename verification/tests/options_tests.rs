use wallet_core::decimal::parse_u64;
use wallet_core::error::WalletError;
use wallet_core::ids::{NftId, TokenId};
use wallet_core::output_options::{
    Assets, AssetsDto, Features, NativeToken, NativeTokenDto, OutputOptions, OutputOptionsDto, ReturnStrategy,
    StorageDeposit, Unlocks,
};

fn hex_of(bytes: &[u8]) -> String {
    let mut s = String::from("0x");
    for b in bytes {
        s.push_str(&format!("{:02x}", b));
    }
    s
}

#[test]
fn parse_u64_agrees_with_std() {
    for s in [
        "0",
        "12",
        "+7",
        "",
        "+",
        "-1",
        "-0",
        " 1",
        "1 ",
        "1a",
        "007",
        "18446744073709551615",
        "18446744073709551616",
        "99999999999999999999",
        "٣",
    ] {
        assert_eq!(parse_u64(s), s.parse::<u64>().ok(), "input {s:?}");
    }
}

#[test]
fn nft_id_from_hex_reads_64_digits() {
    let bytes: Vec<u8> = (0u8..32).collect();
    let id = NftId::from_hex(&hex_of(&bytes)).unwrap();
    assert_eq!(id.bytes.to_vec(), bytes);
    assert!(!id.is_null());
    let null = NftId::from_hex(&hex_of(&[0u8; 32])).unwrap();
    assert!(null.is_null());
}

#[test]
fn nft_id_from_hex_rejects_bad_input() {
    assert!(matches!(NftId::from_hex("0x1234"), Err(WalletError::Hex(_))));
    assert!(matches!(NftId::from_hex(&hex_of(&[1u8; 32])[2..]), Err(WalletError::Hex(_))));
    let mut bad = hex_of(&[1u8; 32]);
    bad.replace_range(5..6, "g");
    assert!(matches!(NftId::from_hex(&bad), Err(WalletError::Hex(_))));
}

#[test]
fn token_id_from_hex_reads_76_digits() {
    let bytes: Vec<u8> = (100u8..138).collect();
    let id = TokenId::from_hex(&hex_of(&bytes)).unwrap();
    assert_eq!(id.bytes.to_vec(), bytes);
    assert!(matches!(TokenId::from_hex(&hex_of(&bytes[..32])), Err(WalletError::Hex(_))));
}

fn token_hex() -> String {
    hex_of(&[7u8; 38])
}

#[test]
fn native_token_amount_is_read_as_a_256_bit_number() {
    let dto = NativeTokenDto { token_id: token_hex(), amount: "0x10".to_string() };
    let t = NativeToken::try_from_dto(&dto).unwrap();
    assert_eq!(t.amount, [16, 0, 0, 0]);
    assert_eq!(t.token_id.bytes, [7u8; 38]);

    let big = NativeTokenDto { token_id: token_hex(), amount: "0x10000000000000001".to_string() };
    assert_eq!(NativeToken::try_from_dto(&big).unwrap().amount, [1, 1, 0, 0]);

    let twice_prefixed = NativeTokenDto { token_id: token_hex(), amount: "0x0x2a".to_string() };
    assert_eq!(NativeToken::try_from_dto(&twice_prefixed).unwrap().amount, [42, 0, 0, 0]);
}

#[test]
fn native_token_errors_come_in_order() {
    let bad_id = NativeTokenDto { token_id: "0x12".to_string(), amount: "0xzz".to_string() };
    assert!(matches!(NativeToken::try_from_dto(&bad_id), Err(WalletError::Hex(_))));
    let bad_amount = NativeTokenDto { token_id: token_hex(), amount: "0xzz".to_string() };
    assert_eq!(NativeToken::try_from_dto(&bad_amount), Err(WalletError::InvalidField("amount")));
    let empty_amount = NativeTokenDto { token_id: token_hex(), amount: "0x".to_string() };
    assert_eq!(NativeToken::try_from_dto(&empty_amount), Err(WalletError::InvalidField("amount")));
    let too_long = NativeTokenDto { token_id: token_hex(), amount: format!("0x1{}", "0".repeat(64)) };
    assert_eq!(NativeToken::try_from_dto(&too_long), Err(WalletError::InvalidField("amount")));
    let zero = NativeTokenDto { token_id: token_hex(), amount: "0x0".to_string() };
    assert_eq!(NativeToken::try_from_dto(&zero), Err(WalletError::NativeTokensNullAmount));
}

#[test]
fn assets_from_dto() {
    let nft = hex_of(&[3u8; 32]);
    let dto = AssetsDto { native_tokens: Some(vec![NativeTokenDto { token_id: token_hex(), amount: "0x5".to_string() }]), nft_id: Some(nft) };
    let assets = Assets::try_from(&dto).unwrap();
    assert_eq!(assets.native_tokens.unwrap()[0].amount, [5, 0, 0, 0]);
    assert_eq!(assets.nft_id.unwrap().bytes, [3u8; 32]);

    let none = Assets::try_from(&AssetsDto { native_tokens: None, nft_id: None }).unwrap();
    assert_eq!(none, Assets::default());
}

#[test]
fn assets_first_failing_token_decides_the_error() {
    let dto = AssetsDto { native_tokens: Some(vec![
            NativeTokenDto { token_id: token_hex(), amount: "0x1".to_string() },
            NativeTokenDto { token_id: token_hex(), amount: "0x0".to_string() },
            NativeTokenDto { token_id: "nope".to_string(), amount: "0x1".to_string() },
        ]), nft_id: Some("0xbad".to_string()) };
    assert_eq!(Assets::try_from(&dto), Err(WalletError::NativeTokensNullAmount));
    let nft_only = AssetsDto { native_tokens: None, nft_id: Some("0xbad".to_string()) };
    assert!(matches!(Assets::try_from(&nft_only), Err(WalletError::Hex(_))));
}

fn features() -> Features {
    Features {
        tag: Some("0x0102".to_string()),
        metadata: None,
        issuer: None,
        sender: Some("rms1sender".to_string()),
    }
}

#[test]
fn output_options_from_dto() {
    let dto = OutputOptionsDto {
        recipient_address: "rms1recipient".to_string(),
        amount: "1000000".to_string(),
        assets: None,
        features: Some(features()),
        unlocks: Some(Unlocks { expiration_unix_time: Some(1), timelock_unix_time: None }),
        storage_deposit: Some(StorageDeposit { return_strategy: Some(ReturnStrategy::Gift), use_excess_if_low: Some(true) }),
    };
    let options = OutputOptions::try_from(&dto).unwrap();
    assert_eq!(
        options,
        OutputOptions {
            recipient_address: "rms1recipient".to_string(),
            amount: 1_000_000,
            assets: None,
            features: Some(features()),
            unlocks: Some(Unlocks { expiration_unix_time: Some(1), timelock_unix_time: None }),
            storage_deposit: Some(StorageDeposit {
                return_strategy: Some(ReturnStrategy::Gift),
                use_excess_if_low: Some(true),
            }),
        }
    );
}

#[test]
fn output_options_reject_a_bad_amount_before_the_assets() {
    let dto = OutputOptionsDto {
        recipient_address: "rms1recipient".to_string(),
        amount: "12x".to_string(),
        assets: Some(AssetsDto { native_tokens: None, nft_id: Some("0xbad".to_string()) }),
        features: None,
        unlocks: None,
        storage_deposit: None,
    };
    assert_eq!(OutputOptions::try_from(&dto), Err(WalletError::InvalidAmount("12x".to_string())));
    let dto = OutputOptionsDto {
        recipient_address: "rms1recipient".to_string(),
        amount: "12".to_string(),
        assets: Some(AssetsDto { native_tokens: None, nft_id: Some("0xbad".to_string()) }),
        features: None,
        unlocks: None,
        storage_deposit: None,
    };
    assert!(matches!(OutputOptions::try_from(&dto), Err(WalletError::Hex(_))));
}

#[test]
fn return_strategy_defaults_to_return() {
    assert_eq!(ReturnStrategy::default(), ReturnStrategy::Return);
}
