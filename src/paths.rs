//! Where the index, the snapshots and the external session file live.

use vstd::prelude::*;

use crate::errors::AccountError;

verus! {

/// The path made of `base` followed by the component `part`.
pub uninterp spec fn path_joined(base: Seq<char>, part: Seq<char>) -> Seq<char>;

/// Relies on std::path::Path::join: the joined path depends on its two
/// parts alone. Both parts are UTF-8, so the conversion back is lossless.
#[verifier::external_body]
fn join_path(base: &str, part: &str) -> (r: String)
    ensures
        r@ == path_joined(base@, part@),
{
    std::path::Path::new(base).join(part).to_string_lossy().into_owned()
}

/// Relies on dirs::home_dir: the user's home directory, when it is known
/// and valid UTF-8.
#[verifier::external_body]
fn home_dir_text() -> (r: Option<String>) {
    match dirs::home_dir() {
        Some(path) => path.into_os_string().into_string().ok(),
        None => None,
    }
}

pub open spec fn config_dir_in(home: Seq<char>) -> Seq<char> {
    path_joined(home, ".codex-switcher"@)
}

pub open spec fn accounts_file_in(home: Seq<char>) -> Seq<char> {
    path_joined(config_dir_in(home), "accounts.json"@)
}

pub open spec fn snapshots_dir_in(home: Seq<char>) -> Seq<char> {
    path_joined(config_dir_in(home), "snapshots"@)
}

pub open spec fn codex_home_in(home: Seq<char>) -> Seq<char> {
    path_joined(home, ".codex"@)
}

fn home() -> (r: Result<String, AccountError>)
    ensures
        r matches Err(e) ==> e is NoHomeDirectory,
{
    match home_dir_text() {
        Some(h) => Ok(h),
        None => Err(AccountError::NoHomeDirectory),
    }
}

/// The configuration directory of this application.
pub fn get_config_dir() -> (r: Result<String, AccountError>)
    ensures
        r matches Err(e) ==> e is NoHomeDirectory,
        r matches Ok(p) ==> exists|h: Seq<char>| p@ == config_dir_in(h),
{
    let h = home()?;
    let dir = join_path(h.as_str(), ".codex-switcher");
    assert(dir@ == config_dir_in(h@));
    Ok(dir)
}

/// The path of the account index.
pub fn get_accounts_file() -> (r: Result<String, AccountError>)
    ensures
        r matches Err(e) ==> e is NoHomeDirectory,
        r matches Ok(p) ==> exists|h: Seq<char>| p@ == accounts_file_in(h),
{
    let h = home()?;
    let dir = join_path(h.as_str(), ".codex-switcher");
    let file = join_path(dir.as_str(), "accounts.json");
    assert(file@ == accounts_file_in(h@));
    Ok(file)
}

/// The directory of session-file snapshots.
pub fn get_snapshots_dir() -> (r: Result<String, AccountError>)
    ensures
        r matches Err(e) ==> e is NoHomeDirectory,
        r matches Ok(p) ==> exists|h: Seq<char>| p@ == snapshots_dir_in(h),
{
    let h = home()?;
    let dir = join_path(h.as_str(), ".codex-switcher");
    let snapshots = join_path(dir.as_str(), "snapshots");
    assert(snapshots@ == snapshots_dir_in(h@));
    Ok(snapshots)
}

/// The external tool's home: the override when one is set (the caller reads
/// it from the environment), else `.codex` under the user's home.
pub fn get_codex_home(codex_home_override: Option<String>) -> (r: Result<String, AccountError>)
    ensures
        codex_home_override matches Some(o) ==> r == Ok::<String, AccountError>(o),
        codex_home_override is None ==> (r matches Err(e) ==> e is NoHomeDirectory),
        codex_home_override is None ==> (r matches Ok(p) ==> exists|h: Seq<char>| p@ == codex_home_in(h)),
{
    match codex_home_override {
        Some(o) => Ok(o),
        None => {
            let h = home()?;
            let dir = join_path(h.as_str(), ".codex");
            assert(dir@ == codex_home_in(h@));
            Ok(dir)
        },
    }
}

/// The external tool's session file.
pub fn get_codex_auth_file(codex_home_override: Option<String>) -> (r: Result<String, AccountError>)
    ensures
        codex_home_override matches Some(o) ==> r matches Ok(p) && p@ == path_joined(o@, "auth.json"@),
        codex_home_override is None ==> (r matches Err(e) ==> e is NoHomeDirectory),
        codex_home_override is None ==> (r matches Ok(p) ==> exists|h: Seq<char>|
            p@ == path_joined(codex_home_in(h), "auth.json"@)),
{
    let dir = get_codex_home(codex_home_override)?;
    Ok(join_path(dir.as_str(), "auth.json"))
}

} // verus!
