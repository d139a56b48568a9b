//! Combining what a sync fetched: the alias and NFT addresses that newly
//! found outputs open up, the output ids found for them, the spent output ids
//! that are still worth asking about, and the transactions and foundries to
//! fetch next.
use vstd::prelude::*;

use crate::error::WalletError;
use crate::ids::{Address, AddressKind, OutputId, TokenId};
use crate::sync::SyncOptions;

verus! {

pub type AddressView = (AddressKind, Seq<u8>);

pub type OutputIdView = (Seq<u8>, u16);

/// An unspent output found during a sync.
#[derive(Debug, Clone, PartialEq, Eq)]
pub struct OutputRecord {
    pub output_id: OutputId,
    /// The account address that owns the output.
    pub address: Address,
    /// For an alias or NFT output, the alias or NFT address that the output
    /// controls (derived from the output id while the alias or NFT is new).
    pub chain_address: Option<Address>,
    /// The native tokens that the output holds.
    pub native_token_ids: Vec<TokenId>,
}

/// An address of the account and the unspent outputs found for it.
#[derive(Debug, Clone, PartialEq, Eq)]
pub struct AddressWithUnspentOutputs {
    pub address: Address,
    pub key_index: u32,
    pub internal: bool,
    pub output_ids: Vec<OutputId>,
}

/// Each alias or NFT address of the outputs, mapped to the account address
/// that owns its output; a later output overrides an earlier one.
pub open spec fn chain_map(outputs: Seq<OutputRecord>) -> Map<AddressView, AddressView>
    decreases outputs.len(),
{
    if outputs.len() == 0 {
        Map::empty()
    } else {
        let m = chain_map(outputs.drop_last());
        match outputs.last().chain_address {
            Some(c) => m.insert(c@, outputs.last().address@),
            None => m,
        }
    }
}

/// The map that a list of pairs stands for.
pub open spec fn pairs_map(s: Seq<(Address, Address)>) -> Map<AddressView, AddressView>
    decreases s.len(),
{
    if s.len() == 0 {
        Map::empty()
    } else {
        pairs_map(s.drop_last()).insert(s.last().0@, s.last().1@)
    }
}

/// No key occurs twice.
pub open spec fn distinct_keys(s: Seq<(Address, Address)>) -> bool {
    forall|i: int, j: int| 0 <= i < j < s.len() ==> (#[trigger] s[i]).0@ != (#[trigger] s[j]).0@
}

proof fn lemma_pairs_map_update(s: Seq<(Address, Address)>, j: int, v: Address)
    requires
        distinct_keys(s),
        0 <= j < s.len(),
    ensures
        pairs_map(s.update(j, (s[j].0, v))) == pairs_map(s).insert(s[j].0@, v@),
    decreases s.len(),
{
    let t = s.update(j, (s[j].0, v));
    if j == s.len() - 1 {
        assert(t.drop_last() =~= s.drop_last());
        assert(pairs_map(t) =~= pairs_map(s).insert(s[j].0@, v@));
    } else {
        assert(distinct_keys(s.drop_last()));
        lemma_pairs_map_update(s.drop_last(), j, v);
        assert(t.drop_last() =~= s.drop_last().update(j, (s[j].0, v)));
        assert(s[j].0@ != s.last().0@);
        assert(pairs_map(t) =~= pairs_map(s).insert(s[j].0@, v@));
    }
}

/// The alias and NFT addresses opened up by newly found outputs, each with
/// the account address that owns its output.
pub fn new_chain_addresses(outputs: &Vec<OutputRecord>) -> (r: Vec<(Address, Address)>)
    ensures
        distinct_keys(r@),
        pairs_map(r@) == chain_map(outputs@),
{
    let mut r: Vec<(Address, Address)> = Vec::new();
    proof {
        assert(pairs_map(r@) == Map::<AddressView, AddressView>::empty());
        lemma_chain_map_from_empty(outputs@);
    }
    add_chain_addresses(&mut r, outputs);
    r
}

proof fn lemma_chain_map_from_empty(outputs: Seq<OutputRecord>)
    ensures
        chain_map_from(Map::empty(), outputs) == chain_map(outputs),
    decreases outputs.len(),
{
    if outputs.len() > 0 {
        lemma_chain_map_from_empty(outputs.drop_last());
    }
}

/// The index of the pair with this key, if there is one.
fn find_key(r: &Vec<(Address, Address)>, c: &Address) -> (found: Option<usize>)
    ensures
        match found {
            Some(j) => j < r@.len() && r@[j as int].0@ == c@,
            None => forall|k: int| 0 <= k < r@.len() ==> (#[trigger] r@[k]).0@ != c@,
        },
{
    let m = r.len();
    let mut j: usize = 0;
    while j < m
        invariant
            m == r@.len(),
            j <= m,
            forall|k: int| 0 <= k < j ==> (#[trigger] r@[k]).0@ != c@,
        decreases m - j,
    {
        if r[j].0.same_as(c) {
            return Some(j);
        }
        j = j + 1;
    }
    None
}

/// Adds the output ids found for an alias or NFT address to the account
/// address that owns it (the first entry for that address).
pub fn attach_output_ids(
    addresses: &mut Vec<AddressWithUnspentOutputs>,
    owner: &Address,
    ids: &Vec<OutputId>,
) -> (r: Result<(), WalletError>)
    ensures
        match r {
            Ok(()) => exists|k: int|
                0 <= k < old(addresses)@.len() && old(addresses)@[k].address@ == owner@ && (forall|j: int|
                    0 <= j < k ==> (#[trigger] old(addresses)@[j]).address@ != owner@) && final(addresses)@ == old(
                    addresses,
                )@.update(
                    k,
                    AddressWithUnspentOutputs {
                        output_ids: final(addresses)@[k].output_ids,
                        ..old(addresses)@[k]
                    },
                ) && final(addresses)@[k].output_ids@ == old(addresses)@[k].output_ids@ + ids@,
            Err(e) => e == WalletError::AddressNotFoundInAccount(*owner) && final(addresses)@ == old(addresses)@
                && forall|j: int| 0 <= j < old(addresses)@.len() ==> (#[trigger] old(addresses)@[j]).address@ != owner@,
        },
{
    let n = addresses.len();
    let mut k: usize = 0;
    while k < n
        invariant
            n == addresses@.len(),
            addresses@ == old(addresses)@,
            k <= n,
            forall|j: int| 0 <= j < k ==> (#[trigger] addresses@[j]).address@ != owner@,
        decreases n - k,
    {
        if addresses[k].address.same_as(owner) {
            let mut merged: Vec<OutputId> = Vec::new();
            let len_old = addresses[k].output_ids.len();
            let mut a: usize = 0;
            while a < len_old
                invariant
                    n == addresses@.len(),
                    k < n,
                    len_old == addresses@[k as int].output_ids@.len(),
                    a <= len_old,
                    merged@ == addresses@[k as int].output_ids@.take(a as int),
                decreases len_old - a,
            {
                merged.push(addresses[k].output_ids[a]);
                a = a + 1;
                proof {
                    assert(merged@ =~= addresses@[k as int].output_ids@.take(a as int));
                }
            }
            let len_new = ids.len();
            let mut b: usize = 0;
            while b < len_new
                invariant
                    n == addresses@.len(),
                    k < n,
                    len_new == ids@.len(),
                    b <= len_new,
                    merged@ == addresses@[k as int].output_ids@ + ids@.take(b as int),
                decreases len_new - b,
            {
                merged.push(ids[b]);
                b = b + 1;
                proof {
                    assert(merged@ =~= addresses@[k as int].output_ids@ + ids@.take(b as int));
                }
            }
            proof {
                assert(addresses@[k as int].output_ids@.take(len_old as int) =~= addresses@[k as int].output_ids@);
                assert(ids@.take(len_new as int) =~= ids@);
            }
            let entry = AddressWithUnspentOutputs {
                address: addresses[k].address,
                key_index: addresses[k].key_index,
                internal: addresses[k].internal,
                output_ids: merged,
            };
            addresses.set(k, entry);
            return Ok(());
        }
        k = k + 1;
    }
    Err(WalletError::AddressNotFoundInAccount(*owner))
}

pub open spec fn ids_view(s: Seq<OutputId>) -> Seq<OutputIdView> {
    s.map_values(|o: OutputId| o@)
}

/// The output ids of the found outputs.
pub open spec fn found_ids(outputs: Seq<OutputRecord>) -> Set<OutputIdView> {
    Set::new(|v: OutputIdView| exists|i: int| 0 <= i < outputs.len() && outputs[i].output_id@ == v)
}

/// The ids of a list that are not in a set, in order.
pub open spec fn ids_not_in(s: Seq<OutputIdView>, known: Set<OutputIdView>) -> Seq<OutputIdView>
    decreases s.len(),
{
    if s.len() == 0 {
        Seq::empty()
    } else {
        let rest = ids_not_in(s.drop_last(), known);
        if known.contains(s.last()) {
            rest
        } else {
            rest.push(s.last())
        }
    }
}

/// One of the found outputs has this id.
pub fn is_found(outputs: &Vec<OutputRecord>, id: &OutputId) -> (r: bool)
    ensures
        r == found_ids(outputs@).contains(id@),
{
    let n = outputs.len();
    let mut i: usize = 0;
    while i < n
        invariant
            n == outputs@.len(),
            i <= n,
            forall|j: int| 0 <= j < i ==> (#[trigger] outputs@[j]).output_id@ != id@,
        decreases n - i,
    {
        if outputs[i].output_id.same_as(id) {
            return true;
        }
        i = i + 1;
    }
    false
}

/// Of the output ids that may be spent or not synced yet, those that were
/// not found unspent after all.
pub fn retain_unknown_ids(spent_or_not_synced: &Vec<OutputId>, outputs: &Vec<OutputRecord>) -> (r: Vec<OutputId>)
    ensures
        ids_view(r@) == ids_not_in(ids_view(spent_or_not_synced@), found_ids(outputs@)),
{
    let ghost s = ids_view(spent_or_not_synced@);
    let ghost known = found_ids(outputs@);
    let mut r: Vec<OutputId> = Vec::new();
    let n = spent_or_not_synced.len();
    let mut i: usize = 0;
    while i < n
        invariant
            n == spent_or_not_synced@.len(),
            s == ids_view(spent_or_not_synced@),
            known == found_ids(outputs@),
            i <= n,
            ids_view(r@) == ids_not_in(s.take(i as int), known),
        decreases n - i,
    {
        proof {
            assert(s.take(i + 1).drop_last() =~= s.take(i as int));
            assert(s.take(i + 1).last() == spent_or_not_synced@[i as int]@);
        }
        let id = spent_or_not_synced[i];
        if !is_found(outputs, &id) {
            let ghost before = r@;
            r.push(id);
            proof {
                assert(ids_view(r@) =~= ids_view(before).push(id@));
            }
        }
        i = i + 1;
    }
    proof {
        assert(s.take(n as int) =~= s);
    }
    r
}

/// The transactions that created the found outputs, one per output.
pub fn incoming_transaction_ids(outputs: &Vec<OutputRecord>) -> (r: Vec<[u8; 32]>)
    ensures
        r@.len() == outputs@.len(),
        forall|i: int| 0 <= i < r@.len() ==> (#[trigger] r@[i])@ == outputs@[i].output_id.transaction_id@,
{
    let mut r: Vec<[u8; 32]> = Vec::new();
    let n = outputs.len();
    let mut i: usize = 0;
    while i < n
        invariant
            n == outputs@.len(),
            i <= n,
            r@.len() == i,
            forall|j: int| 0 <= j < i ==> (#[trigger] r@[j])@ == outputs@[j].output_id.transaction_id@,
        decreases n - i,
    {
        r.push(outputs[i].output_id.transaction_id);
        i = i + 1;
    }
    r
}

/// No two entries have the same view.
pub open spec fn distinct_token_ids(s: Seq<TokenId>) -> bool {
    forall|i: int, j: int| 0 <= i < j < s.len() ==> (#[trigger] s[i])@ != (#[trigger] s[j])@
}

/// The native tokens held by the found outputs.
pub open spec fn held_token_ids(outputs: Seq<OutputRecord>) -> Set<Seq<u8>> {
    Set::new(
        |t: Seq<u8>|
            exists|i: int, j: int|
                0 <= i < outputs.len() && 0 <= j < outputs[i].native_token_ids@.len() && (
                #[trigger] outputs[i].native_token_ids@[j])@ == t,
    )
}

pub open spec fn token_set(s: Seq<TokenId>) -> Set<Seq<u8>> {
    Set::new(|t: Seq<u8>| exists|i: int| 0 <= i < s.len() && (#[trigger] s[i])@ == t)
}

fn push_token_if_new(list: &mut Vec<TokenId>, t: TokenId)
    requires
        distinct_token_ids(old(list)@),
    ensures
        distinct_token_ids(final(list)@),
        token_set(final(list)@) == token_set(old(list)@).insert(t@),
{
    let n = list.len();
    let mut i: usize = 0;
    while i < n
        invariant
            n == list@.len(),
            list@ == old(list)@,
            distinct_token_ids(old(list)@),
            i <= n,
            forall|j: int| 0 <= j < i ==> (#[trigger] list@[j])@ != t@,
        decreases n - i,
    {
        if list[i].same_as(&t) {
            proof {
                assert(token_set(list@) =~= token_set(list@).insert(t@));
            }
            return;
        }
        i = i + 1;
    }
    let ghost before = list@;
    list.push(t);
    proof {
        assert forall|a: int, b: int| 0 <= a < b < list@.len() implies (#[trigger] list@[a])@ != (#[trigger] list@[b])@ by {
            if b == before.len() {
                assert(list@[a] == before[a]);
            } else {
                assert(list@[a] == before[a] && list@[b] == before[b]);
            }
        }
        assert forall|v: Seq<u8>| #[trigger] token_set(list@).contains(v) <==> token_set(before).insert(t@).contains(v) by {
            if token_set(before).contains(v) {
                let a = choose|a: int| 0 <= a < before.len() && (#[trigger] before[a])@ == v;
                assert(list@[a] == before[a]);
            }
            if token_set(list@).contains(v) {
                let a = choose|a: int| 0 <= a < list@.len() && (#[trigger] list@[a])@ == v;
                if a < before.len() {
                    assert(list@[a] == before[a]);
                }
            }
            if v == t@ {
                assert(list@[before.len() as int] == t);
            }
        }
        assert(token_set(list@) =~= token_set(before).insert(t@));
    }
}

/// The foundries to fetch: one per native token held by the found outputs
/// (a foundry is identified by the identifier of the token it controls).
pub fn foundry_ids(outputs: &Vec<OutputRecord>) -> (r: Vec<TokenId>)
    ensures
        distinct_token_ids(r@),
        token_set(r@) == held_token_ids(outputs@),
{
    let mut r: Vec<TokenId> = Vec::new();
    let n = outputs.len();
    let mut i: usize = 0;
    proof {
        assert(token_set(r@) =~= held_token_ids(outputs@.take(0)));
    }
    while i < n
        invariant
            n == outputs@.len(),
            i <= n,
            distinct_token_ids(r@),
            token_set(r@) == held_token_ids(outputs@.take(i as int)),
        decreases n - i,
    {
        let m = outputs[i].native_token_ids.len();
        let mut j: usize = 0;
        while j < m
            invariant
                n == outputs@.len(),
                i < n,
                m == outputs@[i as int].native_token_ids@.len(),
                j <= m,
                distinct_token_ids(r@),
                token_set(r@) == held_token_ids(outputs@.take(i as int)).union(
                    token_set(outputs@[i as int].native_token_ids@.take(j as int)),
                ),
            decreases m - j,
        {
            let t = outputs[i].native_token_ids[j];
            push_token_if_new(&mut r, t);
            proof {
                let tk = outputs@[i as int].native_token_ids@;
                assert(token_set(tk.take(j + 1)) =~= token_set(tk.take(j as int)).insert(t@)) by {
                    assert forall|v: Seq<u8>| #[trigger] token_set(tk.take(j + 1)).contains(v) <==> token_set(
                        tk.take(j as int),
                    ).insert(t@).contains(v) by {
                        if token_set(tk.take(j + 1)).contains(v) {
                            let a = choose|a: int| 0 <= a < tk.take(j + 1).len() && (#[trigger] tk.take(j + 1)[a])@ == v;
                            if a < j {
                                assert(tk.take(j as int)[a] == tk.take(j + 1)[a]);
                            }
                        }
                        if token_set(tk.take(j as int)).contains(v) {
                            let a = choose|a: int| 0 <= a < tk.take(j as int).len() && (#[trigger] tk.take(j as int)[a])@ == v;
                            assert(tk.take(j + 1)[a] == tk.take(j as int)[a]);
                        }
                        if v == t@ {
                            assert(tk.take(j + 1)[j as int] == t);
                        }
                    }
                }
            }
            j = j + 1;
        }
        proof {
            let tk = outputs@[i as int].native_token_ids@;
            assert(tk.take(m as int) =~= tk);
            assert(held_token_ids(outputs@.take(i + 1)) =~= held_token_ids(outputs@.take(i as int)).union(
                token_set(tk),
            )) by {
                let o = outputs@.take(i + 1);
                let p = outputs@.take(i as int);
                assert forall|v: Seq<u8>| #[trigger] held_token_ids(o).contains(v) <==> held_token_ids(p).union(
                    token_set(tk),
                ).contains(v) by {
                    if held_token_ids(o).contains(v) {
                        let (a, b) = choose|a: int, b: int|
                            0 <= a < o.len() && 0 <= b < o[a].native_token_ids@.len() && (
                            #[trigger] o[a].native_token_ids@[b])@ == v;
                        if a < i {
                            assert(p[a] == o[a]);
                        } else {
                            assert(tk[b] == o[a].native_token_ids@[b]);
                        }
                    }
                    if held_token_ids(p).contains(v) {
                        let (a, b) = choose|a: int, b: int|
                            0 <= a < p.len() && 0 <= b < p[a].native_token_ids@.len() && (
                            #[trigger] p[a].native_token_ids@[b])@ == v;
                        assert(o[a] == p[a]);
                    }
                    if token_set(tk).contains(v) {
                        let b = choose|b: int| 0 <= b < tk.len() && (#[trigger] tk[b])@ == v;
                        assert(o[i as int] == outputs@[i as int]);
                        assert(o[i as int].native_token_ids@[b] == tk[b]);
                    }
                }
            }
        }
        i = i + 1;
    }
    proof {
        assert(outputs@.take(n as int) =~= outputs@);
    }
    r
}

/// No two output ids are the same.
pub open spec fn distinct_ids(s: Seq<OutputId>) -> bool {
    forall|i: int, j: int| 0 <= i < j < s.len() ==> (#[trigger] s[i])@ != (#[trigger] s[j])@
}

pub open spec fn id_set(s: Seq<OutputId>) -> Set<OutputIdView> {
    Set::new(|v: OutputIdView| exists|i: int| 0 <= i < s.len() && (#[trigger] s[i])@ == v)
}

/// The output ids in any of the lists.
pub open spec fn id_union(lists: Seq<Vec<OutputId>>) -> Set<OutputIdView> {
    Set::new(
        |v: OutputIdView|
            exists|i: int, j: int| 0 <= i < lists.len() && 0 <= j < lists[i]@.len() && (#[trigger] lists[i]@[j])@ == v,
    )
}

fn push_id_if_new(list: &mut Vec<OutputId>, id: OutputId)
    requires
        distinct_ids(old(list)@),
    ensures
        distinct_ids(final(list)@),
        id_set(final(list)@) == id_set(old(list)@).insert(id@),
{
    let n = list.len();
    let mut i: usize = 0;
    while i < n
        invariant
            n == list@.len(),
            list@ == old(list)@,
            distinct_ids(old(list)@),
            i <= n,
            forall|j: int| 0 <= j < i ==> (#[trigger] list@[j])@ != id@,
        decreases n - i,
    {
        if list[i].same_as(&id) {
            proof {
                assert(id_set(list@) =~= id_set(list@).insert(id@));
            }
            return;
        }
        i = i + 1;
    }
    let ghost before = list@;
    list.push(id);
    proof {
        assert forall|a: int, b: int| 0 <= a < b < list@.len() implies (#[trigger] list@[a])@ != (#[trigger] list@[b])@ by {
            if b == before.len() {
                assert(list@[a] == before[a]);
            } else {
                assert(list@[a] == before[a] && list@[b] == before[b]);
            }
        }
        assert forall|v: OutputIdView| #[trigger] id_set(list@).contains(v) <==> id_set(before).insert(id@).contains(v) by {
            if id_set(before).contains(v) {
                let a = choose|a: int| 0 <= a < before.len() && (#[trigger] before[a])@ == v;
                assert(list@[a] == before[a]);
            }
            if id_set(list@).contains(v) {
                let a = choose|a: int| 0 <= a < list@.len() && (#[trigger] list@[a])@ == v;
                if a < before.len() {
                    assert(list@[a] == before[a]);
                }
            }
            if v == id@ {
                assert(list@[before.len() as int] == id);
            }
        }
        assert(id_set(list@) =~= id_set(before).insert(id@));
    }
}

/// The output ids found by several queries, each once.
pub fn union_output_ids(lists: &Vec<Vec<OutputId>>) -> (r: Vec<OutputId>)
    ensures
        distinct_ids(r@),
        id_set(r@) == id_union(lists@),
{
    let mut r: Vec<OutputId> = Vec::new();
    let n = lists.len();
    let mut i: usize = 0;
    proof {
        assert(id_set(r@) =~= id_union(lists@.take(0)));
    }
    while i < n
        invariant
            n == lists@.len(),
            i <= n,
            distinct_ids(r@),
            id_set(r@) == id_union(lists@.take(i as int)),
        decreases n - i,
    {
        let m = lists[i].len();
        let mut j: usize = 0;
        while j < m
            invariant
                n == lists@.len(),
                i < n,
                m == lists@[i as int]@.len(),
                j <= m,
                distinct_ids(r@),
                id_set(r@) == id_union(lists@.take(i as int)).union(id_set(lists@[i as int]@.take(j as int))),
            decreases m - j,
        {
            let id = lists[i][j];
            push_id_if_new(&mut r, id);
            proof {
                let l = lists@[i as int]@;
                assert(id_set(l.take(j + 1)) =~= id_set(l.take(j as int)).insert(id@)) by {
                    assert forall|v: OutputIdView| #[trigger] id_set(l.take(j + 1)).contains(v) <==> id_set(
                        l.take(j as int),
                    ).insert(id@).contains(v) by {
                        if id_set(l.take(j + 1)).contains(v) {
                            let a = choose|a: int| 0 <= a < l.take(j + 1).len() && (#[trigger] l.take(j + 1)[a])@ == v;
                            if a < j {
                                assert(l.take(j as int)[a] == l.take(j + 1)[a]);
                            }
                        }
                        if id_set(l.take(j as int)).contains(v) {
                            let a = choose|a: int| 0 <= a < l.take(j as int).len() && (#[trigger] l.take(j as int)[a])@ == v;
                            assert(l.take(j + 1)[a] == l.take(j as int)[a]);
                        }
                        if v == id@ {
                            assert(l.take(j + 1)[j as int] == id);
                        }
                    }
                }
            }
            j = j + 1;
        }
        proof {
            let l = lists@[i as int]@;
            assert(l.take(m as int) =~= l);
            assert(id_union(lists@.take(i + 1)) =~= id_union(lists@.take(i as int)).union(id_set(l))) by {
                let o = lists@.take(i + 1);
                let p = lists@.take(i as int);
                assert forall|v: OutputIdView| #[trigger] id_union(o).contains(v) <==> id_union(p).union(
                    id_set(l),
                ).contains(v) by {
                    if id_union(o).contains(v) {
                        let (a, b) = choose|a: int, b: int|
                            0 <= a < o.len() && 0 <= b < o[a]@.len() && (#[trigger] o[a]@[b])@ == v;
                        if a < i {
                            assert(p[a] == o[a]);
                        } else {
                            assert(l[b] == o[a]@[b]);
                        }
                    }
                    if id_union(p).contains(v) {
                        let (a, b) = choose|a: int, b: int|
                            0 <= a < p.len() && 0 <= b < p[a]@.len() && (#[trigger] p[a]@[b])@ == v;
                        assert(o[a] == p[a]);
                    }
                    if id_set(l).contains(v) {
                        let b = choose|b: int| 0 <= b < l.len() && (#[trigger] l[b])@ == v;
                        assert(o[i as int] == lists@[i as int]);
                        assert(o[i as int]@[b] == l[b]);
                    }
                }
            }
        }
        i = i + 1;
    }
    proof {
        assert(lists@.take(n as int) =~= lists@);
    }
    r
}

/// The map that a list of output ids paired with optional metadata stands for.
pub open spec fn meta_pairs_map<T>(s: Seq<(OutputId, Option<T>)>) -> Map<OutputIdView, Option<T>>
    decreases s.len(),
{
    if s.len() == 0 {
        Map::empty()
    } else {
        meta_pairs_map(s.drop_last()).insert(s.last().0@, s.last().1)
    }
}

pub open spec fn distinct_meta_keys<T>(s: Seq<(OutputId, Option<T>)>) -> bool {
    forall|i: int, j: int| 0 <= i < j < s.len() ==> (#[trigger] s[i]).0@ != (#[trigger] s[j]).0@
}

/// Each output id that may be spent or not synced maps to nothing; then each
/// response maps its output id to its metadata, a later response overriding
/// an earlier one.
pub open spec fn metadata_map<T>(ids: Seq<OutputId>, responses: Seq<(OutputId, T)>) -> Map<OutputIdView, Option<T>>
    decreases responses.len(),
{
    if responses.len() == 0 {
        Map::new(|k: OutputIdView| id_set(ids).contains(k), |k: OutputIdView| None)
    } else {
        metadata_map(ids, responses.drop_last()).insert(responses.last().0@, Some(responses.last().1))
    }
}

proof fn lemma_meta_pairs_map_update<T>(s: Seq<(OutputId, Option<T>)>, j: int, v: Option<T>)
    requires
        distinct_meta_keys(s),
        0 <= j < s.len(),
    ensures
        meta_pairs_map(s.update(j, (s[j].0, v))) == meta_pairs_map(s).insert(s[j].0@, v),
    decreases s.len(),
{
    let t = s.update(j, (s[j].0, v));
    if j == s.len() - 1 {
        assert(t.drop_last() =~= s.drop_last());
        assert(meta_pairs_map(t) =~= meta_pairs_map(s).insert(s[j].0@, v));
    } else {
        assert(distinct_meta_keys(s.drop_last()));
        lemma_meta_pairs_map_update(s.drop_last(), j, v);
        assert(t.drop_last() =~= s.drop_last().update(j, (s[j].0, v)));
        assert(s[j].0@ != s.last().0@);
        assert(meta_pairs_map(t) =~= meta_pairs_map(s).insert(s[j].0@, v));
    }
}

fn find_meta_key<T>(r: &Vec<(OutputId, Option<T>)>, id: &OutputId) -> (found: Option<usize>)
    ensures
        match found {
            Some(j) => j < r@.len() && r@[j as int].0@ == id@,
            None => forall|k: int| 0 <= k < r@.len() ==> (#[trigger] r@[k]).0@ != id@,
        },
{
    let m = r.len();
    let mut j: usize = 0;
    while j < m
        invariant
            m == r@.len(),
            j <= m,
            forall|k: int| 0 <= k < j ==> (#[trigger] r@[k]).0@ != id@,
        decreases m - j,
    {
        if r[j].0.same_as(id) {
            return Some(j);
        }
        j = j + 1;
    }
    None
}

/// Maps `id` to `v` in an association list with distinct keys.
fn upsert_meta<T>(r: &mut Vec<(OutputId, Option<T>)>, id: OutputId, v: Option<T>)
    requires
        distinct_meta_keys(old(r)@),
    ensures
        distinct_meta_keys(final(r)@),
        meta_pairs_map(final(r)@) == meta_pairs_map(old(r)@).insert(id@, v),
{
    let ghost before = r@;
    match find_meta_key(r, &id) {
        Some(j) => {
            proof {
                lemma_meta_pairs_map_update(before, j as int, v);
            }
            let key = r[j].0;
            r.set(j, (key, v));
            proof {
                assert(r@ == before.update(j as int, (before[j as int].0, v)));
                assert forall|a: int, b: int| 0 <= a < b < r@.len() implies (#[trigger] r@[a]).0@ != (#[trigger] r@[b]).0@ by {
                    assert(r@[a].0 == before[a].0);
                    assert(r@[b].0 == before[b].0);
                }
            }
        },
        None => {
            r.push((id, v));
            proof {
                assert(r@.drop_last() =~= before);
                assert forall|a: int, b: int| 0 <= a < b < r@.len() implies (#[trigger] r@[a]).0@ != (#[trigger] r@[b]).0@ by {
                    if b == before.len() {
                        assert(r@[a] == before[a]);
                    } else {
                        assert(r@[a] == before[a] && r@[b] == before[b]);
                    }
                }
            }
        },
    }
}

/// The metadata that came back for the output ids that may be spent or not
/// synced, each id once; an id without a response maps to nothing (its output
/// may have been pruned).
pub fn spent_metadata_map<T>(ids: &Vec<OutputId>, responses: Vec<(OutputId, T)>) -> (r: Vec<(OutputId, Option<T>)>)
    ensures
        distinct_meta_keys(r@),
        meta_pairs_map(r@) == metadata_map(ids@, responses@),
{
    let mut r: Vec<(OutputId, Option<T>)> = Vec::new();
    let n = ids.len();
    let mut i: usize = 0;
    proof {
        assert(meta_pairs_map(r@) =~= Map::new(|k: OutputIdView| id_set(ids@.take(0)).contains(k), |k: OutputIdView| None::<T>));
    }
    while i < n
        invariant
            n == ids@.len(),
            i <= n,
            distinct_meta_keys(r@),
            meta_pairs_map(r@) == Map::new(|k: OutputIdView| id_set(ids@.take(i as int)).contains(k), |k: OutputIdView| None::<T>),
        decreases n - i,
    {
        let id = ids[i];
        upsert_meta(&mut r, id, None);
        proof {
            let p = ids@.take(i as int);
            let q = ids@.take(i + 1);
            assert forall|v: OutputIdView| #[trigger] id_set(q).contains(v) <==> id_set(p).insert(id@).contains(v) by {
                if id_set(q).contains(v) {
                    let a = choose|a: int| 0 <= a < q.len() && (#[trigger] q[a])@ == v;
                    if a < i {
                        assert(p[a] == q[a]);
                    }
                }
                if id_set(p).contains(v) {
                    let a = choose|a: int| 0 <= a < p.len() && (#[trigger] p[a])@ == v;
                    assert(q[a] == p[a]);
                }
                if v == id@ {
                    assert(q[i as int] == id);
                }
            }
            assert(meta_pairs_map(r@) =~= Map::new(|k: OutputIdView| id_set(q).contains(k), |k: OutputIdView| None::<T>));
        }
        i = i + 1;
    }
    proof {
        assert(ids@.take(n as int) =~= ids@);
        assert(metadata_map(ids@, responses@.take(0)) == Map::new(|k: OutputIdView| id_set(ids@).contains(k), |k: OutputIdView| None::<T>));
    }
    let response_count = responses.len();
    let ghost all = responses@;
    let mut rest = responses;
    let mut taken: usize = 0;
    proof {
        assert(all.skip(0) =~= all);
    }
    while rest.len() > 0
        invariant
            taken <= all.len(),
            all.len() == response_count,
            rest@ == all.skip(taken as int),
            distinct_meta_keys(r@),
            meta_pairs_map(r@) == metadata_map(ids@, all.take(taken as int)),
        decreases rest@.len(),
    {
        let (id, meta) = rest.remove(0);
        proof {
            assert(all[taken as int] == (id, meta));
            assert(all.take(taken + 1).drop_last() =~= all.take(taken as int));
            assert(all.take(taken + 1).last() == all[taken as int]);
        }
        upsert_meta(&mut r, id, Some(meta));
        taken = taken + 1;
        proof {
            assert(rest@ =~= all.skip(taken as int));
        }
    }
    proof {
        assert(all.take(taken as int) =~= all);
    }
    r
}

/// `chain_map`, continued from a given map over more outputs.
pub open spec fn chain_map_from(m: Map<AddressView, AddressView>, outputs: Seq<OutputRecord>) -> Map<AddressView, AddressView>
    decreases outputs.len(),
{
    if outputs.len() == 0 {
        m
    } else {
        let p = chain_map_from(m, outputs.drop_last());
        match outputs.last().chain_address {
            Some(c) => p.insert(c@, outputs.last().address@),
            None => p,
        }
    }
}

/// Recording the outputs of a round in two parts opens up the same alias and
/// NFT addresses as recording them all at once.
pub proof fn lemma_round_parts_compose(m: Map<AddressView, AddressView>, a: Seq<OutputRecord>, b: Seq<OutputRecord>)
    ensures
        chain_map_from(chain_map_from(m, a), b) == chain_map_from(m, a + b),
    decreases b.len(),
{
    if b.len() == 0 {
        assert(a + b =~= a);
    } else {
        lemma_round_parts_compose(m, a, b.drop_last());
        assert((a + b).drop_last() =~= a + b.drop_last());
        assert((a + b).last() == b.last());
    }
}

/// Adds the alias and NFT addresses that `outputs` open up to a list of
/// pairs with distinct keys; a later output overrides an earlier one.
fn add_chain_addresses(pairs: &mut Vec<(Address, Address)>, outputs: &Vec<OutputRecord>)
    requires
        distinct_keys(old(pairs)@),
    ensures
        distinct_keys(final(pairs)@),
        pairs_map(final(pairs)@) == chain_map_from(pairs_map(old(pairs)@), outputs@),
{
    let ghost start = pairs_map(pairs@);
    let n = outputs.len();
    let mut i: usize = 0;
    while i < n
        invariant
            n == outputs@.len(),
            i <= n,
            distinct_keys(pairs@),
            pairs_map(pairs@) == chain_map_from(start, outputs@.take(i as int)),
        decreases n - i,
    {
        proof {
            assert(outputs@.take(i + 1).drop_last() =~= outputs@.take(i as int));
            assert(outputs@.take(i + 1).last() == outputs@[i as int]);
        }
        match outputs[i].chain_address {
            Some(c) => {
                let owner = outputs[i].address;
                match find_key(pairs, &c) {
                    Some(j) => {
                        let ghost before = pairs@;
                        proof {
                            lemma_pairs_map_update(pairs@, j as int, owner);
                        }
                        let key = pairs[j].0;
                        pairs.set(j, (key, owner));
                        proof {
                            assert forall|a: int, b: int| 0 <= a < b < pairs@.len() implies (#[trigger] pairs@[a]).0@
                                != (#[trigger] pairs@[b]).0@ by {
                                assert(pairs@[a].0 == before[a].0);
                                assert(pairs@[b].0 == before[b].0);
                            }
                        }
                    },
                    None => {
                        let ghost before = pairs@;
                        pairs.push((c, owner));
                        proof {
                            assert(pairs@.drop_last() =~= before);
                            assert forall|a: int, b: int| 0 <= a < b < pairs@.len() implies (#[trigger] pairs@[a]).0@
                                != (#[trigger] pairs@[b]).0@ by {
                                if b == before.len() {
                                    assert(pairs@[a] == before[a]);
                                } else {
                                    assert(pairs@[a] == before[a] && pairs@[b] == before[b]);
                                }
                            }
                        }
                    },
                }
            },
            None => {},
        }
        i = i + 1;
    }
    proof {
        assert(outputs@.take(n as int) =~= outputs@);
    }
}

/// The discovery of outputs through alias and NFT addresses during a sync.
///
/// It starts from what was found for the account's own addresses. In each
/// round, the alias and NFT outputs found in the previous round open up their
/// alias or NFT addresses; the outputs of each such address are asked for in
/// turn, their ids are added to the account address that owns the alias or
/// NFT, and the outputs found open up the next round. When a round opens up
/// no address, discovery is finished.
pub struct OutputDiscovery {
    /// Output ids that may be spent or not synced yet.
    spent_or_not_synced: Vec<OutputId>,
    /// The account's addresses with the ids of their unspent outputs.
    addresses: Vec<AddressWithUnspentOutputs>,
    /// All outputs found so far.
    outputs: Vec<OutputRecord>,
    /// The alias and NFT addresses of this round, with their owners.
    round: Vec<(Address, Address)>,
    /// How many addresses of this round have been asked for.
    asked: usize,
    /// The alias and NFT addresses opened up so far in this round.
    next_round: Vec<(Address, Address)>,
}

impl OutputDiscovery {
    /// The discovery is in a consistent state.
    #[verifier::type_invariant]
    spec fn consistent(self) -> bool {
        &&& self.asked < self.round@.len() || (self.asked == 0 && self.round@.len() == 0)
        &&& distinct_keys(self.round@)
        &&& distinct_keys(self.next_round@)
    }

    pub closed spec fn spent_or_not_synced(&self) -> Seq<OutputId> {
        self.spent_or_not_synced@
    }

    pub closed spec fn addresses(&self) -> Seq<AddressWithUnspentOutputs> {
        self.addresses@
    }

    pub closed spec fn outputs(&self) -> Seq<OutputRecord> {
        self.outputs@
    }

    pub closed spec fn round(&self) -> Seq<(Address, Address)> {
        self.round@
    }

    pub closed spec fn asked(&self) -> nat {
        self.asked as nat
    }

    pub closed spec fn next_round(&self) -> Seq<(Address, Address)> {
        self.next_round@
    }

    /// Starts discovery from the outputs found for the account's own addresses.
    pub fn start(
        spent_or_not_synced: Vec<OutputId>,
        addresses: Vec<AddressWithUnspentOutputs>,
        outputs: Vec<OutputRecord>,
    ) -> (r: OutputDiscovery)
        ensures
            r.spent_or_not_synced() == spent_or_not_synced@,
            r.addresses() == addresses@,
            r.outputs() == outputs@,
            distinct_keys(r.round()),
            pairs_map(r.round()) == chain_map(outputs@),
            r.asked() == 0,
            r.next_round() == Seq::<(Address, Address)>::empty(),
    {
        let round = new_chain_addresses(&outputs);
        OutputDiscovery { spent_or_not_synced, addresses, outputs, round, asked: 0, next_round: Vec::new() }
    }

    /// The alias or NFT address to ask outputs for next, with the account
    /// address that owns it; none once discovery is finished.
    pub fn next_request(&self) -> (r: Option<(Address, Address)>)
        ensures
            match r {
                Some(p) => self.asked() < self.round().len() && p == self.round()[self.asked() as int],
                None => self.round().len() == 0,
            },
    {
        proof {
            use_type_invariant(self);
        }
        if self.asked < self.round.len() {
            Some(self.round[self.asked])
        } else {
            None
        }
    }

    /// Records what was found for the address of `next_request`: the ids go
    /// to the account address that owns it, the outputs (each owned by that
    /// address) to all outputs, and the addresses they open up to the next
    /// round. After the last address of a round, the next round begins.
    /// Fails, changing nothing, exactly when that account address is not
    /// among the account's addresses.
    pub fn record(&mut self, ids: &Vec<OutputId>, found: Vec<OutputRecord>) -> (r: Result<(), WalletError>)
        requires
            old(self).asked() < old(self).round().len(),
            forall|i: int|
                0 <= i < found@.len() ==> (#[trigger] found@[i]).address@ == old(self).round()[old(self).asked() as int].1@,
        ensures
            final(self).spent_or_not_synced() == old(self).spent_or_not_synced(),
            match r {
                Ok(()) => {
                    let owner = old(self).round()[old(self).asked() as int].1;
                    let opened = chain_map_from(pairs_map(old(self).next_round()), found@);
                    &&& exists|k: int|
                        0 <= k < old(self).addresses().len() && old(self).addresses()[k].address@ == owner@
                            && (forall|j: int| 0 <= j < k ==> (#[trigger] old(self).addresses()[j]).address@ != owner@)
                            && final(self).addresses() == old(self).addresses().update(
                            k,
                            AddressWithUnspentOutputs {
                                output_ids: final(self).addresses()[k].output_ids,
                                ..old(self).addresses()[k]
                            },
                        ) && final(self).addresses()[k].output_ids@ == old(self).addresses()[k].output_ids@ + ids@
                    &&& final(self).outputs() == old(self).outputs() + found@
                    &&& if old(self).asked() + 1 < old(self).round().len() {
                        &&& final(self).round() == old(self).round()
                        &&& final(self).asked() == old(self).asked() + 1
                        &&& pairs_map(final(self).next_round()) == opened
                    } else {
                        &&& pairs_map(final(self).round()) == opened
                        &&& final(self).asked() == 0
                        &&& final(self).next_round() == Seq::<(Address, Address)>::empty()
                    }
                },
                Err(e) => e == WalletError::AddressNotFoundInAccount(old(self).round()[old(self).asked() as int].1)
                    && (forall|j: int|
                    0 <= j < old(self).addresses().len() ==> (#[trigger] old(self).addresses()[j]).address@
                        != old(self).round()[old(self).asked() as int].1@)
                    && final(self).addresses() == old(self).addresses() && final(self).outputs() == old(self).outputs()
                    && final(self).round() == old(self).round() && final(self).asked() == old(self).asked()
                    && final(self).next_round() == old(self).next_round(),
            },
    {
        proof {
            use_type_invariant(&*self);
        }
        let owner = self.round[self.asked].1;
        let mut addresses: Vec<AddressWithUnspentOutputs> = Vec::new();
        std::mem::swap(&mut addresses, &mut self.addresses);
        assert(addresses@ == old(self).addresses@);
        let attached = attach_output_ids(&mut addresses, &owner, ids);
        std::mem::swap(&mut addresses, &mut self.addresses);
        match attached {
            Ok(()) => {},
            Err(e) => {
                return Err(e);
            },
        }
        let mut opened: Vec<(Address, Address)> = Vec::new();
        std::mem::swap(&mut opened, &mut self.next_round);
        add_chain_addresses(&mut opened, &found);
        let mut outputs: Vec<OutputRecord> = Vec::new();
        std::mem::swap(&mut outputs, &mut self.outputs);
        let mut found = found;
        outputs.append(&mut found);
        std::mem::swap(&mut outputs, &mut self.outputs);
        let n = self.round.len();
        if self.asked + 1 < n {
            std::mem::swap(&mut opened, &mut self.next_round);
            self.asked = self.asked + 1;
        } else {
            self.asked = 0;
            self.round = opened;
        }
        assert(exists|k: int|
            0 <= k < old(self).addresses().len() && old(self).addresses()[k].address@ == owner@ && (forall|j: int|
                0 <= j < k ==> (#[trigger] old(self).addresses()[j]).address@ != owner@) && self.addresses()
                == old(self).addresses().update(
                k,
                AddressWithUnspentOutputs { output_ids: self.addresses()[k].output_ids, ..old(self).addresses()[k] },
            ) && self.addresses()[k].output_ids@ == old(self).addresses()[k].output_ids@ + ids@);
        Ok(())
    }

    /// Ends discovery: the output ids that may be spent or not synced, less
    /// those found unspent; the account's addresses; all found outputs.
    pub fn finish(self) -> (r: (Vec<OutputId>, Vec<AddressWithUnspentOutputs>, Vec<OutputRecord>))
        requires
            self.round().len() == 0,
        ensures
            ids_view(r.0@) == ids_not_in(ids_view(self.spent_or_not_synced()), found_ids(self.outputs())),
            r.1@ == self.addresses(),
            r.2@ == self.outputs(),
    {
        let retained = retain_unknown_ids(&self.spent_or_not_synced, &self.outputs);
        let OutputDiscovery { addresses, outputs, .. } = self;
        (retained, addresses, outputs)
    }
}

/// After discovery, no output id that is still asked about was found unspent.
pub proof fn lemma_retained_ids_are_unknown(s: Seq<OutputIdView>, known: Set<OutputIdView>, i: int)
    requires
        0 <= i < ids_not_in(s, known).len(),
    ensures
        !known.contains(ids_not_in(s, known)[i]),
        s.contains(ids_not_in(s, known)[i]),
    decreases s.len(),
{
    let rest = ids_not_in(s.drop_last(), known);
    if known.contains(s.last()) || i < rest.len() {
        lemma_retained_ids_are_unknown(s.drop_last(), known, i);
        if !known.contains(s.last()) {
            assert(ids_not_in(s, known)[i] == rest[i]);
        }
        let j = choose|j: int| 0 <= j < s.drop_last().len() && s.drop_last()[j] == rest[i];
        assert(s[j] == s.drop_last()[j]);
    } else {
        assert(s[s.len() - 1] == s.last());
    }
}

/// What a sync fetches after the outputs.
#[derive(Debug, Clone, PartialEq, Eq)]
pub struct FetchPlan {
    /// The transactions that created the found outputs.
    pub transaction_ids: Option<Vec<[u8; 32]>>,
    /// The foundries of the native tokens the found outputs hold.
    pub foundry_ids: Option<Vec<TokenId>>,
}

/// The transactions are fetched where the options ask for incoming
/// transactions, the foundries where they ask for native token foundries.
pub fn plan_fetches(options: &SyncOptions, outputs: &Vec<OutputRecord>) -> (r: FetchPlan)
    ensures
        r.transaction_ids is Some == options.sync_incoming_transactions,
        r.transaction_ids matches Some(t) ==> t@.len() == outputs@.len() && forall|i: int|
            0 <= i < t@.len() ==> (#[trigger] t@[i])@ == outputs@[i].output_id.transaction_id@,
        r.foundry_ids is Some == options.sync_native_token_foundries,
        r.foundry_ids matches Some(f) ==> distinct_token_ids(f@) && token_set(f@) == held_token_ids(outputs@),
{
    let transaction_ids = if options.sync_incoming_transactions {
        Some(incoming_transaction_ids(outputs))
    } else {
        None
    };
    let foundry_ids = if options.sync_native_token_foundries {
        Some(foundry_ids(outputs))
    } else {
        None
    };
    FetchPlan { transaction_ids, foundry_ids }
}

/// A filter of the indexer's NFT output query.
#[derive(Debug, Clone, PartialEq, Eq)]
pub enum QueryParameter {
    /// Outputs with this bech32 address in their address unlock condition.
    Address(String),
    /// Outputs with this bech32 address in their storage deposit return unlock condition.
    StorageDepositReturnAddress(String),
    /// Outputs with this bech32 address in their expiration unlock condition.
    ExpirationReturnAddress(String),
}

/// The queries that together find the NFT outputs with the address in any
/// unlock condition; their results are joined with `union_output_ids`.
pub fn nft_output_queries(bech32_address: &String) -> (r: Vec<QueryParameter>)
    ensures
        r@ == seq![
            QueryParameter::Address(*bech32_address),
            QueryParameter::StorageDepositReturnAddress(*bech32_address),
            QueryParameter::ExpirationReturnAddress(*bech32_address),
        ],
{
    let mut r: Vec<QueryParameter> = Vec::new();
    r.push(QueryParameter::Address(bech32_address.clone()));
    r.push(QueryParameter::StorageDepositReturnAddress(bech32_address.clone()));
    r.push(QueryParameter::ExpirationReturnAddress(bech32_address.clone()));
    proof {
        assert(r@ =~= seq![
            QueryParameter::Address(*bech32_address),
            QueryParameter::StorageDepositReturnAddress(*bech32_address),
            QueryParameter::ExpirationReturnAddress(*bech32_address),
        ]);
    }
    r
}

} // verus!
