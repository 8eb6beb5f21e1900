//! The account index held in memory: lookups, the active-account rule,
//! reconciliation with the secret vault, and every mutation that the index
//! supports. Reading and writing the index file is the caller's part.

use vstd::prelude::*;

use crate::credentials::{auth_data_has_real_secrets, has_real_secrets, fully_redacted, redact_auth_data, redaction_of};
use crate::errors::AccountError;
use crate::text::same_text;
use crate::types::{copy_opt_string, AccountInfo, AccountsStore, AuthData, AuthMode, StoredAccount};

verus! {

/// The ids of a sequence of accounts, in order.
pub open spec fn ids_of(accounts: Seq<StoredAccount>) -> Seq<Seq<char>> {
    accounts.map_values(|a: StoredAccount| a.id@)
}

/// The names of a sequence of accounts, in order.
pub open spec fn names_of(accounts: Seq<StoredAccount>) -> Seq<Seq<char>> {
    accounts.map_values(|a: StoredAccount| a.name@)
}

/// The views of a sequence of strings.
pub open spec fn texts_of(v: Seq<String>) -> Seq<Seq<char>> {
    v.map_values(|s: String| s@)
}

/// `i` is the first position of an account with this id.
pub open spec fn first_with_id(accounts: Seq<StoredAccount>, id: Seq<char>, i: int) -> bool {
    &&& 0 <= i < accounts.len()
    &&& accounts[i].id@ == id
    &&& forall|j: int| 0 <= j < i ==> accounts[j].id@ != id
}

/// The first id in `ids` that is also in `accessible`.
pub open spec fn first_accessible(ids: Seq<Seq<char>>, accessible: Seq<Seq<char>>) -> Option<Seq<char>>
    decreases ids.len(),
{
    if ids.len() == 0 {
        None
    } else if accessible.contains(ids[0]) {
        Some(ids[0])
    } else {
        first_accessible(ids.drop_first(), accessible)
    }
}

/// The active-account rule: keep the recorded id if it still names an
/// accessible account, else the first accessible account in order, else none.
pub open spec fn resolved_active(
    ids: Seq<Seq<char>>,
    current: Option<Seq<char>>,
    accessible: Seq<Seq<char>>,
) -> Option<Seq<char>> {
    match current {
        Some(c) => if ids.contains(c) && accessible.contains(c) {
            Some(c)
        } else {
            first_accessible(ids, accessible)
        },
        None => first_accessible(ids, accessible),
    }
}

pub open spec fn opt_text(s: Option<String>) -> Option<Seq<char>> {
    match s {
        Some(v) => Some(v@),
        None => None,
    }
}

pub open spec fn opt_str_text(s: Option<&str>) -> Option<Seq<char>> {
    match s {
        Some(v) => Some(v@),
        None => None,
    }
}

impl AccountsStore {
    pub open spec fn ids(&self) -> Seq<Seq<char>> {
        ids_of(self.accounts@)
    }

    pub open spec fn names(&self) -> Seq<Seq<char>> {
        names_of(self.accounts@)
    }

    /// The active id, if any, names a stored account.
    pub open spec fn active_is_stored(&self) -> bool {
        self.active_account_id matches Some(a) ==> self.ids().contains(a@)
    }
}

/// The position of the first account with the given id.
pub fn find_account_index(accounts: &[StoredAccount], account_id: &str) -> (r: Option<usize>)
    ensures
        r matches Some(i) ==> first_with_id(accounts@, account_id@, i as int),
        r is None <==> !ids_of(accounts@).contains(account_id@),
{
    let mut i: usize = 0;
    while i < accounts.len()
        invariant
            0 <= i <= accounts@.len(),
            forall|j: int| 0 <= j < i ==> accounts@[j].id@ != account_id@,
        decreases accounts@.len() - i,
    {
        if same_text(accounts[i].id.as_str(), account_id) {
            assert(ids_of(accounts@)[i as int] == account_id@);
            return Some(i);
        }
        i += 1;
    }
    proof {
        if ids_of(accounts@).contains(account_id@) {
            let k = choose|k: int| 0 <= k < ids_of(accounts@).len() && ids_of(accounts@)[k] == account_id@;
            assert(accounts@[k].id@ == account_id@);
        }
    }
    None
}

/// Whether some account has exactly this name.
pub fn name_taken(accounts: &[StoredAccount], name: &str) -> (r: bool)
    ensures
        r == names_of(accounts@).contains(name@),
{
    let mut i: usize = 0;
    while i < accounts.len()
        invariant
            0 <= i <= accounts@.len(),
            forall|j: int| 0 <= j < i ==> accounts@[j].name@ != name@,
        decreases accounts@.len() - i,
    {
        if same_text(accounts[i].name.as_str(), name) {
            assert(names_of(accounts@)[i as int] == name@);
            return true;
        }
        i += 1;
    }
    proof {
        if names_of(accounts@).contains(name@) {
            let k = choose|k: int| 0 <= k < names_of(accounts@).len() && names_of(accounts@)[k] == name@;
            assert(accounts@[k].name@ == name@);
        }
    }
    false
}

/// Whether `id` occurs in the list.
pub fn contains_text(list: &[String], id: &str) -> (r: bool)
    ensures
        r == texts_of(list@).contains(id@),
{
    let mut i: usize = 0;
    while i < list.len()
        invariant
            0 <= i <= list@.len(),
            forall|j: int| 0 <= j < i ==> list@[j]@ != id@,
        decreases list@.len() - i,
    {
        if same_text(list[i].as_str(), id) {
            assert(texts_of(list@)[i as int] == id@);
            return true;
        }
        i += 1;
    }
    proof {
        if texts_of(list@).contains(id@) {
            let k = choose|k: int| 0 <= k < texts_of(list@).len() && texts_of(list@)[k] == id@;
            assert(list@[k]@ == id@);
        }
    }
    false
}

/// Picks the active account after a load: the recorded one if it is still
/// stored and accessible, else the first accessible account in stored
/// order, else none.
pub fn resolve_active_account_id(
    accounts: &[StoredAccount],
    current_active_id: Option<&str>,
    accessible_account_ids: &[String],
) -> (r: Option<String>)
    ensures
        opt_text(r) == resolved_active(
            ids_of(accounts@),
            opt_str_text(current_active_id),
            texts_of(accessible_account_ids@),
        ),
{
    let ghost ids = ids_of(accounts@);
    let ghost acc = texts_of(accessible_account_ids@);
    if let Some(active_id) = current_active_id {
        let stored = find_account_index(accounts, active_id).is_some();
        let accessible = contains_text(accessible_account_ids, active_id);
        if stored && accessible {
            return Some(active_id.to_owned());
        }
        assert(!(ids.contains(active_id@) && acc.contains(active_id@)));
    }
    let mut i: usize = 0;
    assert(ids.subrange(0, ids.len() as int) =~= ids);
    while i < accounts.len()
        invariant
            0 <= i <= accounts@.len(),
            ids == ids_of(accounts@),
            acc == texts_of(accessible_account_ids@),
            first_accessible(ids, acc) == first_accessible(ids.subrange(i as int, ids.len() as int), acc),
            resolved_active(ids, opt_str_text(current_active_id), acc) == first_accessible(ids, acc),
        decreases accounts@.len() - i,
    {
        let ghost rest = ids.subrange(i as int, ids.len() as int);
        assert(rest[0] == accounts@[i as int].id@);
        assert(rest.drop_first() =~= ids.subrange(i + 1, ids.len() as int));
        if contains_text(accessible_account_ids, accounts[i].id.as_str()) {
            assert(first_accessible(rest, acc) == Some(rest[0]));
            let found = accounts[i].id.clone();
            return Some(found);
        }
        i += 1;
    }
    assert(ids.subrange(i as int, ids.len() as int).len() == 0);
    None
}

} // verus!

verus! {

/// What a load learned while reconciling the index with the vault.
#[derive(Clone, Debug)]
pub struct LoadReport {
    /// Positions of accounts whose index copy of the secret must be written
    /// to the vault (legacy data predating the vault).
    pub migrate: Vec<usize>,
    /// Names of accounts kept as metadata whose credentials are missing.
    pub inaccessible: Vec<String>,
    /// Whether the index must be written back.
    pub changed: bool,
}

/// Account `i` has a usable secret after reconciliation: the vault holds
/// one, or the index still holds a real one to migrate.
pub open spec fn accessible_at(accounts: Seq<StoredAccount>, vault: Seq<Option<AuthData>>, i: int) -> bool {
    vault[i] is Some || has_real_secrets(accounts[i].auth_data)
}

/// Ids of the accessible accounts among the first `n`, in order.
pub open spec fn accessible_ids(accounts: Seq<StoredAccount>, vault: Seq<Option<AuthData>>, n: int) -> Seq<Seq<char>>
    decreases n,
{
    if n <= 0 {
        Seq::empty()
    } else if accessible_at(accounts, vault, n - 1) {
        accessible_ids(accounts, vault, n - 1).push(accounts[n - 1].id@)
    } else {
        accessible_ids(accounts, vault, n - 1)
    }
}

/// Positions among the first `n` whose secret must migrate into the vault.
pub open spec fn migrations(accounts: Seq<StoredAccount>, vault: Seq<Option<AuthData>>, n: int) -> Seq<usize>
    decreases n,
{
    if n <= 0 {
        Seq::empty()
    } else if vault[n - 1] is None && has_real_secrets(accounts[n - 1].auth_data) {
        migrations(accounts, vault, n - 1).push((n - 1) as usize)
    } else {
        migrations(accounts, vault, n - 1)
    }
}

/// Names among the first `n` accounts whose credentials are missing.
pub open spec fn inaccessible_names(accounts: Seq<StoredAccount>, vault: Seq<Option<AuthData>>, n: int) -> Seq<Seq<char>>
    decreases n,
{
    if n <= 0 {
        Seq::empty()
    } else if !accessible_at(accounts, vault, n - 1) {
        inaccessible_names(accounts, vault, n - 1).push(accounts[n - 1].name@)
    } else {
        inaccessible_names(accounts, vault, n - 1)
    }
}

/// The secret an account holds after a load: the vault's copy when there is one.
pub open spec fn reconciled_data(index_copy: AuthData, found: Option<AuthData>) -> AuthData {
    match found {
        Some(d) => d,
        None => index_copy,
    }
}

/// The account with its secret replaced.
pub open spec fn with_auth_data(a: StoredAccount, d: AuthData) -> StoredAccount {
    StoredAccount { auth_data: d, ..a }
}

/// Compares two optional strings by contents.
pub fn same_opt_text(a: &Option<String>, b: &Option<String>) -> (r: bool)
    ensures
        r == (opt_text(*a) == opt_text(*b)),
{
    match (a, b) {
        (Some(x), Some(y)) => same_text(x.as_str(), y.as_str()),
        (None, None) => true,
        _ => false,
    }
}

/// Borrows the contents of an optional string.
pub fn opt_as_str(a: &Option<String>) -> (r: Option<&str>)
    ensures
        opt_str_text(r) == opt_text(*a),
{
    match a {
        Some(s) => Some(s.as_str()),
        None => None,
    }
}

/// Reconciles a freshly read index with what the vault returned for each
/// account (`vault[i]` for `store.accounts[i]`): a secret found in the vault
/// replaces the index copy; an index copy with real values is kept and
/// marked for migration; otherwise the account stays, reported as
/// inaccessible. The active account is then resolved by the active-account
/// rule over the accessible accounts.
pub fn reconcile_accounts(store: &mut AccountsStore, vault: &[Option<AuthData>]) -> (r: LoadReport)
    requires
        old(store).accounts@.len() == vault@.len(),
    ensures
        final(store).accounts@.len() == old(store).accounts@.len(),
        forall|i: int|
            0 <= i < vault@.len() ==> #[trigger] final(store).accounts@[i] == with_auth_data(
                old(store).accounts@[i],
                reconciled_data(old(store).accounts@[i].auth_data, vault@[i]),
            ),
        opt_text(final(store).active_account_id) == resolved_active(
            ids_of(old(store).accounts@),
            opt_text(old(store).active_account_id),
            accessible_ids(old(store).accounts@, vault@, vault@.len() as int),
        ),
        r.migrate@ == migrations(old(store).accounts@, vault@, vault@.len() as int),
        texts_of(r.inaccessible@) == inaccessible_names(old(store).accounts@, vault@, vault@.len() as int),
        r.changed == (r.migrate@.len() > 0 || opt_text(final(store).active_account_id) != opt_text(
            old(store).active_account_id,
        )),
{
    let ghost old_accounts = store.accounts@;
    let mut accounts: Vec<StoredAccount> = Vec::new();
    let mut accessible: Vec<String> = Vec::new();
    let mut migrate: Vec<usize> = Vec::new();
    let mut inaccessible: Vec<String> = Vec::new();
    let mut i: usize = 0;
    while i < store.accounts.len()
        invariant
            0 <= i <= vault@.len(),
            store.accounts@ == old_accounts,
            old_accounts.len() == vault@.len(),
            accounts@.len() == i,
            forall|j: int|
                0 <= j < i ==> #[trigger] accounts@[j] == with_auth_data(
                    old_accounts[j],
                    reconciled_data(old_accounts[j].auth_data, vault@[j]),
                ),
            texts_of(accessible@) == accessible_ids(old_accounts, vault@, i as int),
            migrate@ == migrations(old_accounts, vault@, i as int),
            texts_of(inaccessible@) == inaccessible_names(old_accounts, vault@, i as int),
        decreases vault@.len() - i,
    {
        let account = &store.accounts[i];
        let mut updated = account.copy_account();
        match &vault[i] {
            Some(found) => {
                updated.auth_data = found.copy_data();
                accessible.push(account.id.clone());
            },
            None => {
                if auth_data_has_real_secrets(&account.auth_data) {
                    migrate.push(i);
                    accessible.push(account.id.clone());
                } else {
                    inaccessible.push(account.name.clone());
                }
            },
        }
        proof {
            assert(texts_of(accessible@) =~= accessible_ids(old_accounts, vault@, i + 1));
            assert(texts_of(inaccessible@) =~= inaccessible_names(old_accounts, vault@, i + 1));
        }
        accounts.push(updated);
        i += 1;
    }
    let previous_active = copy_opt_string(&store.active_account_id);
    let resolved = resolve_active_account_id(
        store.accounts.as_slice(),
        opt_as_str(&previous_active),
        accessible.as_slice(),
    );
    let active_changed = !same_opt_text(&resolved, &previous_active);
    store.accounts = accounts;
    store.active_account_id = resolved;
    let changed = migrate.len() > 0 || active_changed;
    LoadReport { migrate, inaccessible, changed }
}

} // verus!

verus! {

/// The index as it is written to disk: every secret replaced by the marker.
pub fn redacted_store(store: &AccountsStore) -> (r: AccountsStore)
    ensures
        r.accounts@.len() == store.accounts@.len(),
        r.active_account_id == store.active_account_id,
        forall|i: int|
            0 <= i < r.accounts@.len() ==> {
                &&& fully_redacted(#[trigger] r.accounts@[i].auth_data)
                &&& redaction_of(r.accounts@[i].auth_data, store.accounts@[i].auth_data)
                &&& r.accounts@[i] == with_auth_data(store.accounts@[i], r.accounts@[i].auth_data)
            },
{
    let mut accounts: Vec<StoredAccount> = Vec::new();
    let mut i: usize = 0;
    while i < store.accounts.len()
        invariant
            0 <= i <= store.accounts@.len(),
            accounts@.len() == i,
            forall|j: int|
                0 <= j < i ==> {
                    &&& fully_redacted(#[trigger] accounts@[j].auth_data)
                    &&& redaction_of(accounts@[j].auth_data, store.accounts@[j].auth_data)
                    &&& accounts@[j] == with_auth_data(store.accounts@[j], accounts@[j].auth_data)
                },
        decreases store.accounts@.len() - i,
    {
        let mut account = store.accounts[i].copy_account();
        redact_auth_data(&mut account.auth_data);
        accounts.push(account);
        i += 1;
    }
    AccountsStore { accounts, active_account_id: copy_opt_string(&store.active_account_id) }
}

/// Appends an account unless its name is taken (exact, case-sensitive
/// match). The first account of an empty index becomes active.
pub fn insert_account(store: &mut AccountsStore, account: StoredAccount) -> (r: Result<(), AccountError>)
    ensures
        r is Err <==> old(store).names().contains(account.name@),
        r matches Err(e) ==> e is DuplicateName && *final(store) == *old(store),
        r is Ok ==> {
            &&& final(store).accounts@ == old(store).accounts@.push(account)
            &&& final(store).active_account_id == if old(store).accounts@.len() == 0 {
                Some(account.id)
            } else {
                old(store).active_account_id
            }
        },
{
    if name_taken(store.accounts.as_slice(), account.name.as_str()) {
        return Err(AccountError::DuplicateName { name: account.name });
    }
    let was_empty = store.accounts.len() == 0;
    if was_empty {
        store.active_account_id = Some(account.id.clone());
    }
    store.accounts.push(account);
    Ok(())
}

/// Removes every account with this id. When the removed account was
/// active, the first remaining account (or none) becomes active.
pub fn remove_account(store: &mut AccountsStore, account_id: &str) -> (r: Result<(), AccountError>)
    ensures
        r is Err <==> !old(store).ids().contains(account_id@),
        r matches Err(e) ==> e is AccountNotFound && *final(store) == *old(store),
        r is Ok ==> {
            &&& final(store).accounts@ == old(store).accounts@.filter(
                |a: StoredAccount| a.id@ != account_id@,
            )
            &&& opt_text(final(store).active_account_id) == if opt_text(old(store).active_account_id)
                == Some(account_id@) {
                if final(store).accounts@.len() == 0 {
                    None
                } else {
                    Some(final(store).accounts@[0].id@)
                }
            } else {
                opt_text(old(store).active_account_id)
            }
        },
{
    if find_account_index(store.accounts.as_slice(), account_id).is_none() {
        return Err(AccountError::AccountNotFound { account_id: account_id.to_owned() });
    }
    let ghost pred = |a: StoredAccount| a.id@ != account_id@;
    let ghost old_accounts = store.accounts@;
    let mut kept: Vec<StoredAccount> = Vec::new();
    let mut i: usize = 0;
    while i < store.accounts.len()
        invariant
            0 <= i <= old_accounts.len(),
            store.accounts@ == old_accounts,
            pred == (|a: StoredAccount| a.id@ != account_id@),
            kept@ == old_accounts.take(i as int).filter(pred),
        decreases old_accounts.len() - i,
    {
        proof {
            assert(old_accounts.take(i + 1) =~= old_accounts.take(i as int).push(old_accounts[i as int]));
            old_accounts.take(i as int).lemma_filter_push(old_accounts[i as int], pred);
        }
        if !same_text(store.accounts[i].id.as_str(), account_id) {
            kept.push(store.accounts[i].copy_account());
        }
        i += 1;
    }
    assert(old_accounts.take(old_accounts.len() as int) =~= old_accounts);
    let active_removed = match &store.active_account_id {
        Some(active) => same_text(active.as_str(), account_id),
        None => false,
    };
    if active_removed {
        store.active_account_id = if kept.len() == 0 {
            None
        } else {
            Some(kept[0].id.clone())
        };
    }
    store.accounts = kept;
    Ok(())
}

/// Makes the account with this id the active one.
pub fn set_active_account(store: &mut AccountsStore, account_id: &str) -> (r: Result<(), AccountError>)
    ensures
        r is Err <==> !old(store).ids().contains(account_id@),
        r matches Err(e) ==> e is AccountNotFound && *final(store) == *old(store),
        r is Ok ==> {
            &&& final(store).accounts == old(store).accounts
            &&& opt_text(final(store).active_account_id) == Some(account_id@)
        },
{
    if find_account_index(store.accounts.as_slice(), account_id).is_none() {
        return Err(AccountError::AccountNotFound { account_id: account_id.to_owned() });
    }
    store.active_account_id = Some(account_id.to_owned());
    Ok(())
}

/// The first account with this id.
pub fn get_account(store: &AccountsStore, account_id: &str) -> (r: Option<StoredAccount>)
    ensures
        r is None <==> !store.ids().contains(account_id@),
        r matches Some(a) ==> exists|i: int| first_with_id(store.accounts@, account_id@, i) && a == store.accounts@[i],
{
    match find_account_index(store.accounts.as_slice(), account_id) {
        Some(i) => Some(store.accounts[i].copy_account()),
        None => None,
    }
}

/// The active account, if one is set and stored.
pub fn get_active_account(store: &AccountsStore) -> (r: Option<StoredAccount>)
    ensures
        store.active_account_id is None ==> r is None,
        store.active_account_id matches Some(id) ==> {
            &&& (r is None <==> !store.ids().contains(id@))
            &&& (r matches Some(a) ==> exists|i: int| first_with_id(store.accounts@, id@, i) && a == store.accounts@[i])
        },
{
    match &store.active_account_id {
        Some(id) => get_account(store, id.as_str()),
        None => None,
    }
}

/// Stamps `last_used_at` of the first account with this id; a missing id is
/// silently ignored. Returns whether anything changed.
pub fn touch_account(store: &mut AccountsStore, account_id: &str, now: i64) -> (r: bool)
    ensures
        r == old(store).ids().contains(account_id@),
        final(store).active_account_id == old(store).active_account_id,
        final(store).accounts@.len() == old(store).accounts@.len(),
        !r ==> *final(store) == *old(store),
        r ==> exists|i: int|
            first_with_id(old(store).accounts@, account_id@, i) && final(store).accounts@ == old(
                store,
            ).accounts@.update(i, StoredAccount { last_used_at: Some(now), ..old(store).accounts@[i] }),
{
    match find_account_index(store.accounts.as_slice(), account_id) {
        Some(i) => {
            let mut account = store.accounts[i].copy_account();
            account.last_used_at = Some(now);
            store.accounts.set(i, account);
            true
        },
        None => false,
    }
}

} // verus!

verus! {

/// `ordered` lists every id of `ids` exactly once: same length, no
/// duplicates, same elements.
pub open spec fn is_permutation_of(ordered: Seq<Seq<char>>, ids: Seq<Seq<char>>) -> bool {
    &&& ordered.len() == ids.len()
    &&& ordered.no_duplicates()
    &&& forall|k: int| 0 <= k < ordered.len() ==> ids.contains(#[trigger] ordered[k])
    &&& forall|k: int| 0 <= k < ids.len() ==> ordered.contains(#[trigger] ids[k])
}

/// `a` is the first stored account with this id.
pub open spec fn first_account_with_id(accounts: Seq<StoredAccount>, id: Seq<char>, a: StoredAccount) -> bool {
    exists|i: int| first_with_id(accounts, id, i) && a == accounts[i]
}

/// Whether every entry of the list is distinct.
pub fn all_distinct(list: &[String]) -> (r: bool)
    ensures
        r == texts_of(list@).no_duplicates(),
{
    let ghost t = texts_of(list@);
    let mut k: usize = 0;
    while k < list.len()
        invariant
            0 <= k <= list@.len(),
            t == texts_of(list@),
            forall|a: int, b: int| 0 <= a < k && 0 <= b < k && a != b ==> t[a] != t[b],
        decreases list@.len() - k,
    {
        let mut m: usize = 0;
        while m < k
            invariant
                0 <= m <= k < list@.len(),
                t == texts_of(list@),
                forall|a: int, b: int| 0 <= a < k && 0 <= b < k && a != b ==> t[a] != t[b],
                forall|a: int| 0 <= a < m ==> t[a] != t[k as int],
            decreases k - m,
        {
            if same_text(list[m].as_str(), list[k].as_str()) {
                assert(t[m as int] == t[k as int]);
                return false;
            }
            m += 1;
        }
        k += 1;
    }
    true
}

/// The accounts in the order given by `ordered_ids`, when that lists every
/// stored id exactly once.
pub fn arrange_by_ids(accounts: &[StoredAccount], ordered_ids: &[String]) -> (r: Option<Vec<StoredAccount>>)
    ensures
        r is Some <==> is_permutation_of(texts_of(ordered_ids@), ids_of(accounts@)),
        r matches Some(v) ==> {
            &&& v@.len() == ordered_ids@.len()
            &&& forall|k: int|
                0 <= k < ordered_ids@.len() ==> first_account_with_id(
                    accounts@,
                    ordered_ids@[k]@,
                    #[trigger] v@[k],
                )
        },
{
    let ghost ordered = texts_of(ordered_ids@);
    let ghost ids = ids_of(accounts@);
    if ordered_ids.len() != accounts.len() || !all_distinct(ordered_ids) {
        return None;
    }
    // Every stored id must be listed.
    let mut k: usize = 0;
    while k < accounts.len()
        invariant
            0 <= k <= ids.len(),
            ids == ids_of(accounts@),
            ordered == texts_of(ordered_ids@),
            forall|j: int| 0 <= j < k ==> ordered.contains(#[trigger] ids[j]),
        decreases ids.len() - k,
    {
        assert(ids[k as int] == accounts@[k as int].id@);
        if !contains_text(ordered_ids, accounts[k].id.as_str()) {
            return None;
        }
        k += 1;
    }
    // Every listed id must be stored; collect the accounts in that order.
    let mut arranged: Vec<StoredAccount> = Vec::new();
    let mut k: usize = 0;
    while k < ordered_ids.len()
        invariant
            0 <= k <= ordered.len(),
            ids == ids_of(accounts@),
            ordered == texts_of(ordered_ids@),
            ordered.len() == ids.len(),
            ordered.no_duplicates(),
            forall|j: int| 0 <= j < ids.len() ==> ordered.contains(#[trigger] ids[j]),
            forall|j: int| 0 <= j < k ==> ids.contains(#[trigger] ordered[j]),
            arranged@.len() == k,
            forall|j: int|
                0 <= j < k ==> first_account_with_id(accounts@, ordered_ids@[j]@, #[trigger] arranged@[j]),
        decreases ordered.len() - k,
    {
        assert(ordered[k as int] == ordered_ids@[k as int]@);
        match find_account_index(accounts, ordered_ids[k].as_str()) {
            Some(i) => {
                arranged.push(accounts[i].copy_account());
                assert(first_with_id(accounts@, ordered_ids@[k as int]@, i as int));
                assert(first_account_with_id(accounts@, ordered_ids@[k as int]@, arranged@[k as int]));
            },
            None => {
                return None;
            },
        }
        k += 1;
    }
    Some(arranged)
}

/// Puts the accounts in the order given by `ordered_ids`, which must list
/// every stored id exactly once; otherwise nothing changes.
pub fn reorder_accounts(store: &mut AccountsStore, ordered_ids: &[String]) -> (r: Result<(), AccountError>)
    ensures
        r is Ok <==> is_permutation_of(texts_of(ordered_ids@), old(store).ids()),
        r matches Err(e) ==> e is ReorderMismatch && *final(store) == *old(store),
        r is Ok ==> {
            &&& final(store).active_account_id == old(store).active_account_id
            &&& final(store).accounts@.len() == ordered_ids@.len()
            &&& forall|k: int|
                0 <= k < ordered_ids@.len() ==> first_account_with_id(
                    old(store).accounts@,
                    ordered_ids@[k]@,
                    #[trigger] final(store).accounts@[k],
                )
        },
{
    match arrange_by_ids(store.accounts.as_slice(), ordered_ids) {
        Some(arranged) => {
            store.accounts = arranged;
            Ok(())
        },
        None => Err(AccountError::ReorderMismatch { expected: store.accounts.len(), given: ordered_ids.len() }),
    }
}

/// Whether an account other than `account_id` is named `name`.
pub fn name_used_by_other(accounts: &[StoredAccount], account_id: &str, name: &str) -> (r: bool)
    ensures
        r == exists|i: int|
            0 <= i < accounts@.len() && accounts@[i].id@ != account_id@ && #[trigger] accounts@[i].name@ == name@,
{
    let mut k: usize = 0;
    while k < accounts.len()
        invariant
            0 <= k <= accounts@.len(),
            forall|j: int|
                0 <= j < k ==> !(accounts@[j].id@ != account_id@ && #[trigger] accounts@[j].name@ == name@),
        decreases accounts@.len() - k,
    {
        if !same_text(accounts[k].id.as_str(), account_id) && same_text(accounts[k].name.as_str(), name) {
            assert(accounts@[k as int].name@ == name@);
            return true;
        }
        k += 1;
    }
    false
}

/// Applies the provided metadata fields to the first account with this id.
/// A new name must not be used by any other account.
pub fn update_account_metadata(
    store: &mut AccountsStore,
    account_id: &str,
    name: Option<String>,
    email: Option<String>,
    plan_type: Option<String>,
) -> (r: Result<(), AccountError>)
    ensures
        ({
            let clash = name matches Some(n) && exists|i: int|
                0 <= i < old(store).accounts@.len() && old(store).accounts@[i].id@ != account_id@
                    && #[trigger] old(store).accounts@[i].name@ == n@;
            &&& (r matches Err(e) && e is DuplicateName) <==> clash
            &&& (r matches Err(e) && e is AccountNotFound) <==> !clash && !old(store).ids().contains(account_id@)
            &&& r is Ok <==> !clash && old(store).ids().contains(account_id@)
            &&& r is Err ==> *final(store) == *old(store)
        }),
        r is Ok ==> exists|i: int|
            first_with_id(old(store).accounts@, account_id@, i) && final(store).accounts@ == old(store).accounts@.update(
                i,
                StoredAccount {
                    name: if name is Some { name->0 } else { old(store).accounts@[i].name },
                    email: if email is Some { email } else { old(store).accounts@[i].email },
                    plan_type: if plan_type is Some { plan_type } else { old(store).accounts@[i].plan_type },
                    ..old(store).accounts@[i]
                },
            ),
        r is Ok ==> final(store).active_account_id == old(store).active_account_id,
{
    if let Some(new_name) = &name {
        if name_used_by_other(store.accounts.as_slice(), account_id, new_name.as_str()) {
            return Err(AccountError::DuplicateName { name: new_name.clone() });
        }
    }
    match find_account_index(store.accounts.as_slice(), account_id) {
        Some(i) => {
            let mut account = store.accounts[i].copy_account();
            if let Some(new_name) = name {
                account.name = new_name;
            }
            if email.is_some() {
                account.email = email;
            }
            if plan_type.is_some() {
                account.plan_type = plan_type;
            }
            store.accounts.set(i, account);
            Ok(())
        },
        None => Err(AccountError::AccountNotFound { account_id: account_id.to_owned() }),
    }
}

/// Overwrites the credential of the first account with this id by fresh
/// OAuth tokens, keeping its id and name; email and plan are replaced when
/// given. Returns the updated account.
pub fn replace_account_chatgpt_credentials(
    store: &mut AccountsStore,
    account_id: &str,
    id_token: String,
    access_token: String,
    refresh_token: String,
    provider_account_id: Option<String>,
    email: Option<String>,
    plan_type: Option<String>,
) -> (r: Result<StoredAccount, AccountError>)
    ensures
        r is Err <==> !old(store).ids().contains(account_id@),
        r matches Err(e) ==> e is AccountNotFound && *final(store) == *old(store),
        r matches Ok(updated) ==> {
            &&& final(store).active_account_id == old(store).active_account_id
            &&& exists|i: int|
                first_with_id(old(store).accounts@, account_id@, i) && final(store).accounts@
                    == old(store).accounts@.update(i, updated) && updated == StoredAccount {
                    auth_mode: AuthMode::ChatGPT,
                    auth_data: AuthData::ChatGPT {
                        id_token,
                        access_token,
                        refresh_token,
                        account_id: provider_account_id,
                    },
                    email: if email is Some { email } else { old(store).accounts@[i].email },
                    plan_type: if plan_type is Some { plan_type } else { old(store).accounts@[i].plan_type },
                    ..old(store).accounts@[i]
                }
        },
{
    match find_account_index(store.accounts.as_slice(), account_id) {
        Some(i) => {
            let mut account = store.accounts[i].copy_account();
            account.auth_mode = AuthMode::ChatGPT;
            account.auth_data = AuthData::ChatGPT {
                id_token,
                access_token,
                refresh_token,
                account_id: provider_account_id,
            };
            if email.is_some() {
                account.email = email;
            }
            if plan_type.is_some() {
                account.plan_type = plan_type;
            }
            let updated = account.copy_account();
            store.accounts.set(i, account);
            Ok(updated)
        },
        None => Err(AccountError::AccountNotFound { account_id: account_id.to_owned() }),
    }
}

} // verus!

verus! {

/// `info` is the display record of `account` when `active` is the active id.
pub open spec fn displays(info: AccountInfo, account: StoredAccount, active: Option<Seq<char>>) -> bool {
    &&& info.id == account.id
    &&& info.name == account.name
    &&& info.email == account.email
    &&& info.plan_type == account.plan_type
    &&& info.auth_mode == account.auth_mode
    &&& info.created_at == account.created_at
    &&& info.last_used_at == account.last_used_at
    &&& info.is_active == (active == Some(account.id@))
}

/// The display records of all accounts, in stored order.
pub fn list_accounts(store: &AccountsStore) -> (r: Vec<AccountInfo>)
    ensures
        r@.len() == store.accounts@.len(),
        forall|i: int|
            0 <= i < r@.len() ==> displays(#[trigger] r@[i], store.accounts@[i], opt_text(store.active_account_id)),
{
    let active = opt_as_str(&store.active_account_id);
    let ghost active_text = opt_text(store.active_account_id);
    let mut infos: Vec<AccountInfo> = Vec::new();
    let mut i: usize = 0;
    while i < store.accounts.len()
        invariant
            0 <= i <= store.accounts@.len(),
            opt_str_text(active) == active_text,
            active_text == opt_text(store.active_account_id),
            infos@.len() == i,
            forall|j: int| 0 <= j < i ==> displays(#[trigger] infos@[j], store.accounts@[j], active_text),
        decreases store.accounts@.len() - i,
    {
        let info = AccountInfo::from_stored(&store.accounts[i], active);
        assert(displays(info, store.accounts@[i as int], active_text));
        infos.push(info);
        i += 1;
    }
    infos
}

/// The display record of the active account, if one is set and stored.
pub fn get_active_account_info(store: &AccountsStore) -> (r: Option<AccountInfo>)
    ensures
        r is Some <==> (store.active_account_id matches Some(id) && store.ids().contains(id@)),
        r matches Some(info) ==> info.is_active && opt_text(store.active_account_id) == Some(info.id@)
            && exists|i: int| first_with_id(store.accounts@, info.id@, i) && displays(info, store.accounts@[i], opt_text(store.active_account_id)),
{
    match get_active_account(store) {
        Some(account) => {
            let info = AccountInfo::from_stored(&account, opt_as_str(&store.active_account_id));
            Some(info)
        },
        None => None,
    }
}

/// Renames the first account with this id; the new name must not be used
/// by any other account.
pub fn rename_account(store: &mut AccountsStore, account_id: &str, new_name: String) -> (r: Result<(), AccountError>)
    ensures
        ({
            let clash = exists|i: int|
                0 <= i < old(store).accounts@.len() && old(store).accounts@[i].id@ != account_id@
                    && #[trigger] old(store).accounts@[i].name@ == new_name@;
            &&& (r matches Err(e) && e is DuplicateName) <==> clash
            &&& (r matches Err(e) && e is AccountNotFound) <==> !clash && !old(store).ids().contains(account_id@)
            &&& r is Ok <==> !clash && old(store).ids().contains(account_id@)
            &&& r is Err ==> *final(store) == *old(store)
        }),
        r is Ok ==> final(store).active_account_id == old(store).active_account_id,
        r is Ok ==> exists|i: int|
            first_with_id(old(store).accounts@, account_id@, i) && final(store).accounts@ == old(store).accounts@.update(
                i,
                StoredAccount { name: new_name, ..old(store).accounts@[i] },
            ),
{
    update_account_metadata(store, account_id, Some(new_name), None, None)
}

} // verus!
