use wallet_core::error::WalletError;
use wallet_core::ids::{Address, AddressKind, OutputId};
use wallet_core::sync_outputs::{AddressWithUnspentOutputs, OutputDiscovery, OutputRecord};

fn ed(b: u8) -> Address {
    Address { kind: AddressKind::Ed25519, bytes: [b; 32] }
}

fn oid(tx: u8) -> OutputId {
    OutputId { transaction_id: [tx; 32], index: 0 }
}

fn out(tx: u8, owner: u8, chain: Option<Address>) -> OutputRecord {
    OutputRecord { output_id: oid(tx), address: ed(owner), chain_address: chain, native_token_ids: vec![] }
}

fn account_address(b: u8, ids: Vec<OutputId>) -> AddressWithUnspentOutputs {
    AddressWithUnspentOutputs { address: ed(b), key_index: b as u32, internal: false, output_ids: ids }
}

#[test]
fn discovery_follows_alias_and_nft_addresses_until_none_is_left() {
    let alias = Address { kind: AddressKind::Alias, bytes: [10; 32] };
    let nft = Address { kind: AddressKind::Nft, bytes: [11; 32] };
    let mut d = OutputDiscovery::start(
        vec![oid(1), oid(9)],
        vec![account_address(1, vec![oid(1)]), account_address(2, vec![oid(2)])],
        vec![out(1, 1, Some(alias)), out(2, 2, None)],
    );
    assert_eq!(d.next_request(), Some((alias, ed(1))));
    d.record(&vec![oid(3)], vec![out(3, 1, Some(nft))]).unwrap();
    assert_eq!(d.next_request(), Some((nft, ed(1))));
    d.record(&vec![oid(4)], vec![out(4, 1, None)]).unwrap();
    assert_eq!(d.next_request(), None);
    let (retained, addresses, outputs) = d.finish();
    assert_eq!(retained, vec![oid(9)]);
    assert_eq!(addresses[0].output_ids, vec![oid(1), oid(3), oid(4)]);
    assert_eq!(addresses[1].output_ids, vec![oid(2)]);
    assert_eq!(outputs.len(), 4);
}

#[test]
fn discovery_without_chain_outputs_is_done_at_once() {
    let d = OutputDiscovery::start(vec![oid(5)], vec![account_address(1, vec![])], vec![out(5, 1, None)]);
    assert_eq!(d.next_request(), None);
    let (retained, _, _) = d.finish();
    assert!(retained.is_empty());
}

#[test]
fn an_owner_outside_the_account_is_an_error() {
    let alias = Address { kind: AddressKind::Alias, bytes: [10; 32] };
    let mut d = OutputDiscovery::start(vec![], vec![account_address(1, vec![])], vec![out(1, 7, Some(alias))]);
    assert_eq!(d.next_request(), Some((alias, ed(7))));
    assert_eq!(d.record(&vec![oid(2)], vec![]), Err(WalletError::AddressNotFoundInAccount(ed(7))));
}

#[test]
fn all_addresses_of_a_round_are_asked_before_the_next_round() {
    let a1 = Address { kind: AddressKind::Alias, bytes: [10; 32] };
    let a2 = Address { kind: AddressKind::Alias, bytes: [12; 32] };
    let nft = Address { kind: AddressKind::Nft, bytes: [11; 32] };
    let mut d = OutputDiscovery::start(
        vec![],
        vec![account_address(1, vec![]), account_address(2, vec![])],
        vec![out(1, 1, Some(a1)), out(2, 2, Some(a2))],
    );
    assert_eq!(d.next_request(), Some((a1, ed(1))));
    d.record(&vec![oid(3)], vec![out(3, 1, Some(nft))]).unwrap();
    // The NFT address waits for the next round.
    assert_eq!(d.next_request(), Some((a2, ed(2))));
    d.record(&vec![], vec![]).unwrap();
    assert_eq!(d.next_request(), Some((nft, ed(1))));
    d.record(&vec![oid(4)], vec![out(4, 1, None)]).unwrap();
    assert_eq!(d.next_request(), None);
    let (_, addresses, outputs) = d.finish();
    assert_eq!(addresses[0].output_ids, vec![oid(3), oid(4)]);
    assert!(addresses[1].output_ids.is_empty());
    assert_eq!(outputs.len(), 4);
}

#[test]
fn an_owner_in_the_account_gets_the_found_ids() {
    let alias = Address { kind: AddressKind::Alias, bytes: [10; 32] };
    let mut d = OutputDiscovery::start(
        vec![],
        vec![account_address(1, vec![]), account_address(7, vec![oid(1)])],
        vec![out(1, 7, Some(alias))],
    );
    assert_eq!(d.record(&vec![oid(2)], vec![out(2, 7, None)]), Ok(()));
    assert_eq!(d.next_request(), None);
    let (_, addresses, _) = d.finish();
    assert_eq!(addresses[1].output_ids, vec![oid(1), oid(2)]);
    assert!(addresses[0].output_ids.is_empty());
}
