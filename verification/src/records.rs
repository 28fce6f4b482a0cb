//! The records of a controller as a map: each vault record under its
//! owner, and what appending and replacing a record do to that map.

use vstd::prelude::*;
use crate::key::AccountKey;
use crate::vault::Vault;

verus! {

/// No two records of the sequence belong to the same owner.
pub open spec fn owners_distinct(records: Seq<Vault>) -> bool {
    forall|i: int, j: int| 0 <= i < j < records.len() ==> records[i].owner != records[j].owner
}

/// The sequence has a record of `owner`.
pub open spec fn holds(records: Seq<Vault>, owner: AccountKey) -> bool {
    exists|i: int| 0 <= i < records.len() && records[i].owner == owner
}

/// Where the record of `owner` stands in the sequence, if it has one.
pub open spec fn position_of(records: Seq<Vault>, owner: AccountKey) -> int {
    choose|i: int| 0 <= i < records.len() && records[i].owner == owner
}

/// The records of the sequence, each under its owner.
pub open spec fn by_owner(records: Seq<Vault>) -> Map<AccountKey, Vault> {
    Map::new(
        |owner: AccountKey| holds(records, owner),
        |owner: AccountKey| records[position_of(records, owner)],
    )
}

/// Every record of the map is kept under its own owner.
pub proof fn lemma_keyed_by_owner(records: Seq<Vault>, owner: AccountKey)
    requires
        by_owner(records).contains_key(owner),
    ensures
        by_owner(records)[owner].owner == owner,
{
}

/// In a sequence of distinct owners each record is found under its owner.
pub proof fn lemma_by_owner_at(records: Seq<Vault>, i: int)
    requires
        owners_distinct(records),
        0 <= i < records.len(),
    ensures
        by_owner(records).contains_key(records[i].owner),
        by_owner(records)[records[i].owner] == records[i],
{
    let owner = records[i].owner;
    assert(holds(records, owner));
    let p = position_of(records, owner);
    assert(0 <= p < records.len() && records[p].owner == owner);
    assert(p == i);
}

/// Appending the record of a new owner adds it to the map and changes
/// nothing else.
pub proof fn lemma_by_owner_push(records: Seq<Vault>, vault: Vault)
    requires
        owners_distinct(records),
        !holds(records, vault.owner),
    ensures
        owners_distinct(records.push(vault)),
        by_owner(records.push(vault)) == by_owner(records).insert(vault.owner, vault),
{
    let grown = records.push(vault);
    assert(owners_distinct(grown)) by {
        assert forall|i: int, j: int| 0 <= i < j < grown.len() implies grown[i].owner
            != grown[j].owner by {
            if j == records.len() {
                assert(records[i].owner == grown[i].owner);
            } else {
                assert(records[i] == grown[i] && records[j] == grown[j]);
            }
        }
    }
    assert forall|owner: AccountKey| #[trigger]
        by_owner(grown).contains_key(owner) == by_owner(records).insert(
            vault.owner,
            vault,
        ).contains_key(owner) by {
        if holds(grown, owner) {
            let p = position_of(grown, owner);
            if p < records.len() {
                assert(records[p].owner == owner);
            }
        }
        if holds(records, owner) {
            let p = position_of(records, owner);
            assert(grown[p].owner == owner);
        }
        if owner == vault.owner {
            assert(grown[records.len() as int].owner == owner);
        }
    }
    assert forall|owner: AccountKey| #[trigger]
        by_owner(grown).contains_key(owner) implies by_owner(grown)[owner] == by_owner(
        records,
    ).insert(vault.owner, vault)[owner] by {
        let p = position_of(grown, owner);
        lemma_by_owner_at(grown, p);
        if p < records.len() {
            assert(records[p] == grown[p]);
            lemma_by_owner_at(records, p);
        }
    }
    assert(by_owner(grown) =~= by_owner(records).insert(vault.owner, vault));
}

/// Replacing a record by one of the same owner replaces it in the map and
/// changes nothing else.
pub proof fn lemma_by_owner_update(records: Seq<Vault>, i: int, vault: Vault)
    requires
        owners_distinct(records),
        0 <= i < records.len(),
        records[i].owner == vault.owner,
    ensures
        owners_distinct(records.update(i, vault)),
        by_owner(records.update(i, vault)) == by_owner(records).insert(vault.owner, vault),
{
    let changed = records.update(i, vault);
    assert(owners_distinct(changed)) by {
        assert forall|a: int, b: int| 0 <= a < b < changed.len() implies changed[a].owner
            != changed[b].owner by {
            assert(changed[a].owner == records[a].owner);
            assert(changed[b].owner == records[b].owner);
        }
    }
    assert forall|owner: AccountKey| #[trigger]
        by_owner(changed).contains_key(owner) == by_owner(records).insert(
            vault.owner,
            vault,
        ).contains_key(owner) by {
        if holds(changed, owner) {
            let p = position_of(changed, owner);
            assert(records[p].owner == owner);
        }
        if holds(records, owner) {
            let p = position_of(records, owner);
            assert(changed[p].owner == owner);
        }
        if owner == vault.owner {
            assert(changed[i].owner == owner);
        }
    }
    assert forall|owner: AccountKey| #[trigger]
        by_owner(changed).contains_key(owner) implies by_owner(changed)[owner] == by_owner(
        records,
    ).insert(vault.owner, vault)[owner] by {
        let p = position_of(changed, owner);
        lemma_by_owner_at(changed, p);
        if p != i {
            assert(records[p] == changed[p]);
            lemma_by_owner_at(records, p);
        }
    }
    assert(by_owner(changed) =~= by_owner(records).insert(vault.owner, vault));
}

} // verus!
