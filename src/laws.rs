//! Properties that relate several operations of the library.

use vstd::prelude::*;

use crate::credentials::{has_real_secrets, redaction_of};
use crate::store::{
    accessible_at, accessible_ids, first_account_with_id, ids_of, inaccessible_names,
    is_permutation_of, reconciled_data, texts_of,
};
use crate::types::{AuthData, StoredAccount};

verus! {

/// Some secret field of `stored` holds the same value as in `real`.
pub open spec fn shares_secret(stored: AuthData, secret: AuthData) -> bool {
    match (stored, secret) {
        (AuthData::ApiKey { key: a }, AuthData::ApiKey { key: b }) => a@ == b@,
        (
            AuthData::ChatGPT { id_token: i1, access_token: a1, refresh_token: r1, .. },
            AuthData::ChatGPT { id_token: i2, access_token: a2, refresh_token: r2, .. },
        ) => i1@ == i2@ || a1@ == a2@ || r1@ == r2@,
        _ => false,
    }
}

/// Redaction round trip: the redacted copy of a real secret, which is what
/// the index file holds, shares none of its secret values; and a load that
/// finds the real secret in the vault restores it exactly.
pub proof fn law_redaction_round_trip(secret: AuthData, stored: AuthData)
    requires
        has_real_secrets(secret),
        redaction_of(stored, secret),
    ensures
        !shares_secret(stored, secret),
        reconciled_data(stored, Some(secret)) == secret,
{
}

/// Adding an account grows the index's id set by exactly the new id, the
/// one whose secret was just written and read back.
pub proof fn law_add_ids(accounts: Seq<StoredAccount>, account: StoredAccount)
    ensures
        ids_of(accounts.push(account)).to_set() == ids_of(accounts).to_set().insert(account.id@),
{
    assert(ids_of(accounts.push(account)) =~= ids_of(accounts).push(account.id@));
    ids_of(accounts).lemma_push_to_set_commute(account.id@);
}

/// Removing an account takes exactly its id out of the index's id set, the
/// id whose secret is deleted next.
pub proof fn law_remove_ids(accounts: Seq<StoredAccount>, id: Seq<char>)
    ensures
        ids_of(accounts.filter(|a: StoredAccount| a.id@ != id)).to_set() == ids_of(accounts).to_set().remove(id),
{
    let pred = |a: StoredAccount| a.id@ != id;
    let kept = accounts.filter(pred);
    assert forall|x: Seq<char>| ids_of(kept).to_set().contains(x) <==> ids_of(accounts).to_set().remove(id).contains(x) by {
        if ids_of(kept).to_set().contains(x) {
            let k = choose|k: int| 0 <= k < ids_of(kept).len() && ids_of(kept)[k] == x;
            accounts.lemma_filter_pred(pred, k);
            assert(kept.contains(kept[k]));
            accounts.lemma_filter_contains_rev(pred, kept[k]);
            let j = choose|j: int| 0 <= j < accounts.len() && accounts[j] == kept[k];
            assert(ids_of(accounts)[j] == x);
        }
        if ids_of(accounts).to_set().remove(id).contains(x) {
            let j = choose|j: int| 0 <= j < ids_of(accounts).len() && ids_of(accounts)[j] == x;
            accounts.lemma_filter_contains(pred, j);
            let k = choose|k: int| 0 <= k < kept.len() && kept[k] == accounts[j];
            assert(ids_of(kept)[k] == x);
        }
    }
    assert(ids_of(kept).to_set() =~= ids_of(accounts).to_set().remove(id));
}

/// Reordering keeps the index's id set.
pub proof fn law_reorder_ids(accounts: Seq<StoredAccount>, ordered: Seq<String>, reordered: Seq<StoredAccount>)
    requires
        is_permutation_of(texts_of(ordered), ids_of(accounts)),
        reordered.len() == ordered.len(),
        forall|k: int| 0 <= k < ordered.len() ==> first_account_with_id(accounts, ordered[k]@, #[trigger] reordered[k]),
    ensures
        ids_of(reordered).to_set() == ids_of(accounts).to_set(),
{
    assert forall|k: int| 0 <= k < reordered.len() implies #[trigger] ids_of(reordered)[k] == texts_of(ordered)[k] by {
        assert(first_account_with_id(accounts, ordered[k]@, reordered[k]));
    }
    assert(ids_of(reordered) =~= texts_of(ordered));
    let t = texts_of(ordered);
    let ids = ids_of(accounts);
    assert forall|x: Seq<char>| t.to_set().contains(x) <==> ids.to_set().contains(x) by {
        if t.to_set().contains(x) {
            let k = choose|k: int| 0 <= k < t.len() && t[k] == x;
            assert(ids.contains(t[k]));
        }
        if ids.to_set().contains(x) {
            let k = choose|k: int| 0 <= k < ids.len() && ids[k] == x;
            assert(t.contains(ids[k]));
        }
    }
    assert(t.to_set() =~= ids.to_set());
}

/// Every account of a reconciled index is either accessible (its secret is
/// in the vault or about to be migrated there) or reported as inaccessible.
pub proof fn law_accessible_or_reported(accounts: Seq<StoredAccount>, vault: Seq<Option<AuthData>>, n: int)
    requires
        0 <= n <= accounts.len(),
        accounts.len() == vault.len(),
    ensures
        forall|i: int|
            0 <= i < n ==> accessible_ids(accounts, vault, n).contains(#[trigger] accounts[i].id@)
                || inaccessible_names(accounts, vault, n).contains(accounts[i].name@),
    decreases n,
{
    if n > 0 {
        law_accessible_or_reported(accounts, vault, n - 1);
        let acc = accessible_ids(accounts, vault, n - 1);
        let gone = inaccessible_names(accounts, vault, n - 1);
        assert forall|i: int|
            0 <= i < n implies accessible_ids(accounts, vault, n).contains(#[trigger] accounts[i].id@)
                || inaccessible_names(accounts, vault, n).contains(accounts[i].name@) by {
            if accessible_at(accounts, vault, n - 1) {
                assert(accessible_ids(accounts, vault, n) == acc.push(accounts[n - 1].id@));
                if i < n - 1 {
                    if acc.contains(accounts[i].id@) {
                        let k = choose|k: int| 0 <= k < acc.len() && acc[k] == accounts[i].id@;
                        assert(acc.push(accounts[n - 1].id@)[k] == accounts[i].id@);
                    } else {
                        assert(gone.contains(accounts[i].name@));
                    }
                } else {
                    assert(acc.push(accounts[n - 1].id@)[acc.len() as int] == accounts[i].id@);
                }
            } else {
                assert(inaccessible_names(accounts, vault, n) == gone.push(accounts[n - 1].name@));
                if i < n - 1 {
                    if gone.contains(accounts[i].name@) {
                        let k = choose|k: int| 0 <= k < gone.len() && gone[k] == accounts[i].name@;
                        assert(gone.push(accounts[n - 1].name@)[k] == accounts[i].name@);
                    } else {
                        assert(acc.contains(accounts[i].id@));
                    }
                } else {
                    assert(gone.push(accounts[n - 1].name@)[gone.len() as int] == accounts[i].name@);
                }
            }
        }
    }
}

} // verus!
