use wallet_core::allot_mana::{mana_allotments_fit, merge_mana_allotments, prepare_allot_mana_options};
use wallet_core::ids::{Address, AddressKind};
use wallet_core::transaction_options::{BlockOptions, ManaAllotment, RemainderValueStrategy, TransactionOptions};

fn m(id: u8, mana: u64) -> ManaAllotment {
    ManaAllotment { account_id: [id; 32], mana }
}

#[test]
fn allotments_to_the_same_account_add_up() {
    let merged = merge_mana_allotments(Some(vec![m(1, 10)]), vec![m(2, 5), m(1, 7), m(2, 1)]).unwrap();
    assert_eq!(merged, vec![m(1, 17), m(2, 6)]);
}

#[test]
fn first_matching_entry_gets_the_mana() {
    let merged = merge_mana_allotments(Some(vec![m(1, 1), m(1, 2)]), vec![m(1, 3)]).unwrap();
    assert_eq!(merged, vec![m(1, 4), m(1, 2)]);
}

#[test]
fn no_list_and_no_allotments_stays_none() {
    assert_eq!(merge_mana_allotments(None, vec![]), None);
    assert_eq!(merge_mana_allotments(Some(vec![]), vec![]), Some(vec![]));
    assert_eq!(merge_mana_allotments(None, vec![m(4, 9)]), Some(vec![m(4, 9)]));
}

#[test]
fn total_mana_is_kept() {
    let existing = vec![m(1, 10), m(2, 20)];
    let added = vec![m(3, 1), m(2, 2), m(3, 3), m(1, 4)];
    let before: u64 = existing.iter().chain(added.iter()).map(|a| a.mana).sum();
    let merged = merge_mana_allotments(Some(existing), added).unwrap();
    assert_eq!(merged.iter().map(|a| a.mana).sum::<u64>(), before);
    assert_eq!(merged.len(), 3);
}

#[test]
fn block_options_get_the_merged_allotments() {
    let custom = RemainderValueStrategy::CustomAddress(Address { kind: AddressKind::Ed25519, bytes: [2; 32] });
    let given = BlockOptions {
        transaction_options: Some(TransactionOptions {
            remainder_value_strategy: custom,
            mana_allotments: Some(vec![m(1, 1)]),
        }),
    };
    let r = prepare_allot_mana_options(Some(given), vec![m(1, 2), m(5, 5)]);
    let t = r.transaction_options.unwrap();
    assert_eq!(t.remainder_value_strategy, custom);
    assert_eq!(t.mana_allotments, Some(vec![m(1, 3), m(5, 5)]));

    let fresh = prepare_allot_mana_options(None, vec![m(7, 7)]).transaction_options.unwrap();
    assert_eq!(fresh.remainder_value_strategy, RemainderValueStrategy::ReuseAddress);
    assert_eq!(fresh.mana_allotments, Some(vec![m(7, 7)]));

    let empty = prepare_allot_mana_options(None, vec![]).transaction_options.unwrap();
    assert_eq!(empty.mana_allotments, None);

    // Block options without transaction options take the default ones.
    let t = prepare_allot_mana_options(Some(BlockOptions { transaction_options: None }), vec![m(7, 7)])
        .transaction_options
        .unwrap();
    assert_eq!(t.remainder_value_strategy, RemainderValueStrategy::ReuseAddress);
    assert_eq!(t.mana_allotments, Some(vec![m(7, 7)]));
}

#[test]
fn allotments_to_one_account_are_summed_in_first_appearance_order() {
    let t = prepare_allot_mana_options(None, vec![m(1, 10), m(2, 5), m(1, 7)]).transaction_options.unwrap();
    assert_eq!(t, TransactionOptions {
        remainder_value_strategy: RemainderValueStrategy::ReuseAddress,
        mana_allotments: Some(vec![m(1, 17), m(2, 5)]),
    });
}

#[test]
fn default_transaction_options_reuse_the_address() {
    let d = TransactionOptions::default();
    assert_eq!(d.remainder_value_strategy, RemainderValueStrategy::ReuseAddress);
    assert_eq!(d.mana_allotments, None);
}

#[test]
fn allotments_that_would_overflow_do_not_fit() {
    assert!(mana_allotments_fit(&None, &vec![m(1, u64::MAX), m(2, u64::MAX)]));
    assert!(!mana_allotments_fit(&None, &vec![m(1, u64::MAX), m(1, 1)]));
    assert!(!mana_allotments_fit(&Some(vec![m(3, u64::MAX - 1)]), &vec![m(3, 1), m(3, 1)]));
    assert!(mana_allotments_fit(&Some(vec![m(3, u64::MAX - 2)]), &vec![m(3, 1), m(3, 1)]));
}
