use wallet_core::error::WalletError;
use wallet_core::ids::{Address, AddressKind, OutputId, TokenId};
use wallet_core::sync::{sync_step, AccountSyncState, SyncAction, SyncEvent, SyncOptions, SyncState, MIN_SYNC_INTERVAL};
use wallet_core::sync_outputs::{
    attach_output_ids, foundry_ids, incoming_transaction_ids, new_chain_addresses, plan_fetches, retain_unknown_ids,
    nft_output_queries, spent_metadata_map, union_output_ids, AddressWithUnspentOutputs, OutputRecord, QueryParameter,
};

fn opts(force: bool, pending: bool) -> SyncOptions {
    SyncOptions {
        force_syncing: force,
        sync_incoming_transactions: false,
        sync_pending_transactions: pending,
        sync_native_token_foundries: false,
    }
}

#[test]
fn default_sync_options_read_back_what_was_set() {
    let mut state = AccountSyncState::new(opts(false, true));
    assert_eq!(state.default_sync_options(), opts(false, true));
    assert_eq!(state.set_default_sync_options(opts(true, false), Ok(())), Ok(()));
    assert_eq!(state.default_sync_options(), opts(true, false));
    assert_eq!(state.sync_options(None), opts(true, false));
    assert_eq!(state.sync_options(Some(opts(false, false))), opts(false, false));
    state.record_sync(42);
    assert_eq!(state.last_synced, 42);
    assert_eq!(state.default_sync_options(), opts(true, false));
}

#[test]
fn a_failed_save_keeps_the_old_default_sync_options() {
    let mut state = AccountSyncState::new(opts(false, true));
    let r = state.set_default_sync_options(opts(true, false), Err(WalletError::InvalidField("storage")));
    assert_eq!(r, Err(WalletError::InvalidField("storage")));
    assert_eq!(state.default_sync_options(), opts(false, true));
}

fn run(options: &SyncOptions, events: &[SyncEvent]) -> (SyncState, Vec<SyncAction>) {
    let mut state = SyncState::Idle;
    let mut actions = Vec::new();
    for e in events {
        let (s, a) = sync_step(options, state, *e);
        state = s;
        actions.push(a);
    }
    (state, actions)
}

#[test]
fn a_recent_sync_only_computes_the_balance() {
    let (state, actions) = run(
        &opts(false, true),
        &[
            SyncEvent::Begin { time_now: 1003, last_synced: 1000 },
            SyncEvent::BalanceComputed { time_now: 1004 },
        ],
    );
    assert_eq!(state, SyncState::Finished);
    assert_eq!(actions, vec![SyncAction::ComputeBalance, SyncAction::Finish { record_time: None }]);
}

#[test]
fn a_full_sync_with_a_confirmed_unknown_output_syncs_twice() {
    let (state, actions) = run(
        &opts(false, true),
        &[
            SyncEvent::Begin { time_now: 1000 + MIN_SYNC_INTERVAL, last_synced: 1000 },
            SyncEvent::OutputsSynced,
            SyncEvent::PendingSynced { confirmed_with_unknown_output: true },
            SyncEvent::OutputsSynced,
            SyncEvent::BalanceComputed { time_now: 2000 },
        ],
    );
    assert_eq!(state, SyncState::Finished);
    assert_eq!(
        actions,
        vec![
            SyncAction::SyncOutputs,
            SyncAction::SyncPendingTransactions,
            SyncAction::SyncOutputs,
            SyncAction::ComputeBalance,
            SyncAction::Finish { record_time: Some(2000) },
        ]
    );
}

#[test]
fn forced_sync_without_pending_transactions() {
    let (_, actions) = run(
        &opts(true, false),
        &[
            SyncEvent::Begin { time_now: 5, last_synced: 10 },
            SyncEvent::OutputsSynced,
            SyncEvent::BalanceComputed { time_now: 6 },
        ],
    );
    assert_eq!(actions, vec![SyncAction::SyncOutputs, SyncAction::ComputeBalance, SyncAction::Finish { record_time: Some(6) }]);
}

#[test]
fn an_event_out_of_place_is_ignored() {
    let (state, actions) = run(&opts(false, true), &[SyncEvent::OutputsSynced]);
    assert_eq!(state, SyncState::Idle);
    assert_eq!(actions, vec![SyncAction::Ignore]);
}

fn addr(kind: AddressKind, b: u8) -> Address {
    Address { kind, bytes: [b; 32] }
}

fn oid(tx: u8, index: u16) -> OutputId {
    OutputId { transaction_id: [tx; 32], index }
}

fn out(tx: u8, owner: u8, chain: Option<Address>, tokens: &[u8]) -> OutputRecord {
    OutputRecord {
        output_id: oid(tx, 0),
        address: addr(AddressKind::Ed25519, owner),
        chain_address: chain,
        native_token_ids: tokens.iter().map(|t| TokenId { bytes: [*t; 38] }).collect(),
    }
}

#[test]
fn chain_addresses_map_to_their_owners_last_wins() {
    let alias = addr(AddressKind::Alias, 7);
    let nft = addr(AddressKind::Nft, 8);
    let outputs = vec![out(1, 1, Some(alias), &[]), out(2, 2, None, &[]), out(3, 3, Some(nft), &[]), out(4, 4, Some(alias), &[])];
    let r = new_chain_addresses(&outputs);
    assert_eq!(r, vec![(alias, addr(AddressKind::Ed25519, 4)), (nft, addr(AddressKind::Ed25519, 3))]);
    assert!(new_chain_addresses(&vec![out(1, 1, None, &[])]).is_empty());
}

fn with_outputs(owner: u8, ids: Vec<OutputId>) -> AddressWithUnspentOutputs {
    AddressWithUnspentOutputs { address: addr(AddressKind::Ed25519, owner), key_index: owner as u32, internal: false, output_ids: ids }
}

#[test]
fn found_ids_are_attached_to_their_owner() {
    let mut addresses = vec![with_outputs(1, vec![oid(1, 0)]), with_outputs(2, vec![])];
    attach_output_ids(&mut addresses, &addr(AddressKind::Ed25519, 2), &vec![oid(5, 1), oid(6, 2)]).unwrap();
    assert_eq!(addresses[1].output_ids, vec![oid(5, 1), oid(6, 2)]);
    assert_eq!(addresses[0].output_ids, vec![oid(1, 0)]);
    attach_output_ids(&mut addresses, &addr(AddressKind::Ed25519, 1), &vec![oid(7, 0)]).unwrap();
    assert_eq!(addresses[0].output_ids, vec![oid(1, 0), oid(7, 0)]);
    let missing = addr(AddressKind::Ed25519, 9);
    let before = addresses.clone();
    assert_eq!(
        attach_output_ids(&mut addresses, &missing, &vec![oid(8, 0)]),
        Err(WalletError::AddressNotFoundInAccount(missing))
    );
    assert_eq!(addresses, before);
}

#[test]
fn spent_ids_found_unspent_are_dropped() {
    let outputs = vec![out(1, 1, None, &[]), out(3, 1, None, &[])];
    let spent = vec![oid(1, 0), oid(2, 0), oid(3, 0), oid(1, 1), oid(2, 0)];
    assert_eq!(retain_unknown_ids(&spent, &outputs), vec![oid(2, 0), oid(1, 1), oid(2, 0)]);
}

#[test]
fn incoming_transactions_one_per_output() {
    let outputs = vec![out(1, 1, None, &[]), out(3, 1, None, &[]), out(1, 2, None, &[])];
    assert_eq!(incoming_transaction_ids(&outputs), vec![[1u8; 32], [3u8; 32], [1u8; 32]]);
}

#[test]
fn foundries_one_per_token_held() {
    let outputs = vec![out(1, 1, None, &[5, 6]), out(2, 1, None, &[]), out(3, 1, None, &[6, 7, 5])];
    let ids: Vec<u8> = foundry_ids(&outputs).iter().map(|t| t.bytes[0]).collect();
    assert_eq!(ids, vec![5, 6, 7]);
}

#[test]
fn nft_output_ids_of_three_queries_each_once() {
    let lists = vec![vec![oid(1, 0), oid(2, 0)], vec![oid(2, 0), oid(3, 0)], vec![oid(1, 0), oid(1, 0)]];
    assert_eq!(union_output_ids(&lists), vec![oid(1, 0), oid(2, 0), oid(3, 0)]);
    assert!(union_output_ids(&vec![vec![], vec![], vec![]]).is_empty());
}

#[test]
fn metadata_map_marks_pruned_outputs() {
    let ids = vec![oid(1, 0), oid(2, 0), oid(1, 0)];
    let responses = vec![(oid(2, 0), "spent"), (oid(9, 0), "other"), (oid(2, 0), "spent again")];
    let r = spent_metadata_map(&ids, responses);
    assert_eq!(r, vec![(oid(1, 0), None), (oid(2, 0), Some("spent again")), (oid(9, 0), Some("other"))]);
}

#[test]
fn fetches_follow_the_options() {

    let outputs = vec![out(1, 1, None, &[5]), out(2, 1, None, &[5])];
    let none = plan_fetches(&opts(false, true), &outputs);
    assert_eq!(none.transaction_ids, None);
    assert_eq!(none.foundry_ids, None);
    let all = SyncOptions { sync_incoming_transactions: true, sync_native_token_foundries: true, ..opts(false, true) };
    let plan = plan_fetches(&all, &outputs);
    assert_eq!(plan.transaction_ids, Some(vec![[1u8; 32], [2u8; 32]]));
    assert_eq!(plan.foundry_ids, Some(vec![TokenId { bytes: [5; 38] }]));
}

#[test]
fn nft_outputs_are_queried_by_every_unlock_condition() {
    let a = "rms1qp".to_string();
    assert_eq!(
        nft_output_queries(&a),
        vec![
            QueryParameter::Address(a.clone()),
            QueryParameter::StorageDepositReturnAddress(a.clone()),
            QueryParameter::ExpirationReturnAddress(a.clone()),
        ]
    );
}
