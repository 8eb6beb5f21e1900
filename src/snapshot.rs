//! Names of session-file snapshots: `auth-snapshot-<UTC stamp>.json`, or
//! `auth-snapshot-<UTC stamp>-<n>.json` for the n-th retry within the same
//! second, and the retry rule that walks those names.

use vstd::prelude::*;

verus! {

/// The compact UTC stamp (`%Y%m%dT%H%M%SZ`) of a Unix time in seconds, when
/// the time lies in the calendar's range.
pub uninterp spec fn compact_utc_stamp(secs: i64) -> Option<Seq<char>>;

/// Unix seconds from 0000-01-01T00:00:00Z to 9999-12-31T23:59:59Z, well
/// inside the calendar range of chrono's `NaiveDate`.
pub open spec fn four_digit_year_time(secs: i64) -> bool {
    -62167219200 <= secs <= 253402300799
}

/// Relies on chrono: `DateTime::<Utc>::from_timestamp(secs, 0)` (none only
/// out of its calendar range) formatted with `%Y%m%dT%H%M%SZ`; the text
/// depends on `secs` alone.
#[verifier::external_body]
fn format_compact_utc(secs: i64) -> (r: Option<String>)
    ensures
        four_digit_year_time(secs) ==> r is Some,
        r matches Some(s) ==> compact_utc_stamp(secs) == Some(s@),
        r is None ==> compact_utc_stamp(secs) is None,
{
    match chrono::DateTime::<chrono::Utc>::from_timestamp(secs, 0) {
        Some(t) => Some(t.format("%Y%m%dT%H%M%SZ").to_string()),
        None => None,
    }
}

/// How many names are tried before snapshot creation gives up.
pub const SNAPSHOT_ATTEMPTS: u32 = 1000;

pub open spec fn digit(d: nat) -> char {
    seq!['0', '1', '2', '3', '4', '5', '6', '7', '8', '9'][d as int]
}

/// The decimal digits of `n`, most significant first, without leading zeros.
pub open spec fn decimal(n: nat) -> Seq<char>
    decreases n,
{
    if n < 10 {
        seq![digit(n)]
    } else {
        decimal(n / 10).push(digit(n % 10))
    }
}

proof fn lemma_decimal_nonempty(n: nat)
    ensures
        decimal(n).len() >= 1,
        n >= 10 ==> decimal(n).len() >= 2,
    decreases n,
{
    if n >= 10 {
        lemma_decimal_nonempty(n / 10);
    }
}

/// Distinct numbers have distinct decimal texts.
pub proof fn lemma_decimal_injective(a: nat, b: nat)
    requires
        decimal(a) == decimal(b),
    ensures
        a == b,
    decreases a,
{
    lemma_decimal_nonempty(a);
    lemma_decimal_nonempty(b);
    let da = decimal(a);
    let db = decimal(b);
    assert(da.last() == db.last());
    if a < 10 && b < 10 {
        assert(digit(a) == digit(b));
    } else if a >= 10 && b >= 10 {
        assert(da.drop_last() =~= decimal(a / 10));
        assert(db.drop_last() =~= decimal(b / 10));
        lemma_decimal_injective(a / 10, b / 10);
        assert(digit(a % 10) == digit(b % 10));
        vstd::arithmetic::div_mod::lemma_fundamental_div_mod(a as int, 10);
        vstd::arithmetic::div_mod::lemma_fundamental_div_mod(b as int, 10);
    }
}

fn digit_text(d: u32) -> (r: &'static str)
    requires
        d < 10,
    ensures
        r@ == seq![digit(d as nat)],
{
    proof {
        reveal_strlit("0");
        reveal_strlit("1");
        reveal_strlit("2");
        reveal_strlit("3");
        reveal_strlit("4");
        reveal_strlit("5");
        reveal_strlit("6");
        reveal_strlit("7");
        reveal_strlit("8");
        reveal_strlit("9");
    }
    let r = if d == 0 {
        "0"
    } else if d == 1 {
        "1"
    } else if d == 2 {
        "2"
    } else if d == 3 {
        "3"
    } else if d == 4 {
        "4"
    } else if d == 5 {
        "5"
    } else if d == 6 {
        "6"
    } else if d == 7 {
        "7"
    } else if d == 8 {
        "8"
    } else {
        "9"
    };
    assert(r@ =~= seq![digit(d as nat)]);
    r
}

/// The decimal text of `n`.
pub fn decimal_text(n: u32) -> (r: String)
    ensures
        r@ == decimal(n as nat),
    decreases n,
{
    if n < 10 {
        digit_text(n).to_owned()
    } else {
        let mut s = decimal_text(n / 10);
        s.append(digit_text(n % 10));
        s
    }
}

/// The snapshot file name for a stamp and a collision index.
pub open spec fn snapshot_name(stamp: Seq<char>, collision_index: nat) -> Seq<char> {
    if collision_index == 0 {
        "auth-snapshot-"@ + stamp + ".json"@
    } else {
        "auth-snapshot-"@ + stamp + "-"@ + decimal(collision_index) + ".json"@
    }
}

/// The snapshot file name for the time `now` (Unix seconds, UTC) and a
/// collision index; none when `now` lies outside the calendar's range.
pub fn build_snapshot_filename(now: i64, collision_index: u32) -> (r: Option<String>)
    ensures
        four_digit_year_time(now) ==> r is Some,
        compact_utc_stamp(now) is None ==> r is None,
        compact_utc_stamp(now) matches Some(stamp) ==> r matches Some(name) && name@ == snapshot_name(
            stamp,
            collision_index as nat,
        ),
{
    let stamp = format_compact_utc(now)?;
    let mut name = "auth-snapshot-".to_owned();
    name.append(stamp.as_str());
    if collision_index != 0 {
        name.append("-");
        let n = decimal_text(collision_index);
        name.append(n.as_str());
    }
    name.append(".json");
    proof {
        if collision_index == 0 {
            assert(name@ =~= snapshot_name(stamp@, 0));
        } else {
            assert(name@ =~= snapshot_name(stamp@, collision_index as nat));
        }
    }
    Some(name)
}

/// Names for the same stamp and different collision indices differ.
pub proof fn law_snapshot_names_distinct(stamp: Seq<char>, a: nat, b: nat)
    requires
        a != b,
    ensures
        snapshot_name(stamp, a) != snapshot_name(stamp, b),
{
    reveal_strlit("auth-snapshot-");
    reveal_strlit("-");
    reveal_strlit(".json");
    let p = "auth-snapshot-"@ + stamp;
    let na = snapshot_name(stamp, a);
    let nb = snapshot_name(stamp, b);
    if na == nb {
        lemma_decimal_nonempty(a);
        lemma_decimal_nonempty(b);
        let mid_a = if a == 0 { Seq::<char>::empty() } else { "-"@ + decimal(a) };
        let mid_b = if b == 0 { Seq::<char>::empty() } else { "-"@ + decimal(b) };
        assert(na =~= p + mid_a + ".json"@);
        assert(nb =~= p + mid_b + ".json"@);
        assert(na.subrange(p.len() as int, na.len() - 5) =~= mid_a);
        assert(nb.subrange(p.len() as int, nb.len() - 5) =~= mid_b);
        if a != 0 && b != 0 {
            assert(mid_a.drop_first() =~= decimal(a));
            assert(mid_b.drop_first() =~= decimal(b));
            lemma_decimal_injective(a, b);
        }
    }
}

/// What trying to create a snapshot under one name gave.
#[derive(Clone, Debug)]
pub enum CreateOutcome {
    Created,
    /// A file of that name exists already.
    AlreadyExists,
    /// Any other failure, described.
    Failed(String),
}

/// What to do after an attempt.
#[derive(Clone, Debug)]
pub enum SnapshotStep {
    Finished,
    /// Try again under the next collision index.
    Retry(u32),
    /// Every name was taken.
    Exhausted,
    /// Stop with this failure.
    Abort(String),
}

/// The retry rule: a taken name moves to the next collision index, until
/// the bound of attempts is reached.
pub fn next_snapshot_step(collision_index: u32, outcome: CreateOutcome) -> (r: SnapshotStep)
    requires
        collision_index < SNAPSHOT_ATTEMPTS,
    ensures
        outcome is Created ==> r is Finished,
        outcome matches CreateOutcome::Failed(m) ==> r == SnapshotStep::Abort(m),
        outcome is AlreadyExists ==> if collision_index + 1 < SNAPSHOT_ATTEMPTS {
            r == SnapshotStep::Retry((collision_index + 1) as u32)
        } else {
            r is Exhausted
        },
{
    match outcome {
        CreateOutcome::Created => SnapshotStep::Finished,
        CreateOutcome::Failed(m) => SnapshotStep::Abort(m),
        CreateOutcome::AlreadyExists => if collision_index + 1 < SNAPSHOT_ATTEMPTS {
            SnapshotStep::Retry(collision_index + 1)
        } else {
            SnapshotStep::Exhausted
        },
    }
}

} // verus!
