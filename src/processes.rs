//! Reading process ids of running CLI instances out of the text that the
//! host's process tools print (`pgrep -x codex`, `ps aux`, `tasklist` in
//! CSV form). Running the tools is the caller's part; the result is an
//! advisory signal only.

use vstd::prelude::*;

use crate::store::texts_of;
use crate::text::{chars_of, trim_text, trimmed};

verus! {

/// The lines of a text, without their terminators.
pub uninterp spec fn lines_of(s: Seq<char>) -> Seq<Seq<char>>;

/// The whitespace-separated words of a text.
pub uninterp spec fn words_of(s: Seq<char>) -> Seq<Seq<char>>;

/// The comma-separated fields of a text.
pub uninterp spec fn comma_fields_of(s: Seq<char>) -> Seq<Seq<char>>;

/// The lower-case form of a text.
pub uninterp spec fn lowercase_of(s: Seq<char>) -> Seq<char>;

/// The decimal `u32` a text spells, if it spells one.
pub uninterp spec fn u32_of(s: Seq<char>) -> Option<u32>;

/// Relies on `str::lines`: the lines depend on the text alone.
#[verifier::external_body]
fn text_lines(s: &str) -> (r: Vec<String>)
    ensures
        texts_of(r@) == lines_of(s@),
{
    s.lines().map(|l| l.to_owned()).collect()
}

/// Relies on `str::split_whitespace`: the words depend on the text alone.
#[verifier::external_body]
fn text_words(s: &str) -> (r: Vec<String>)
    ensures
        texts_of(r@) == words_of(s@),
{
    s.split_whitespace().map(|w| w.to_owned()).collect()
}

/// Relies on `str::split(',')`: the fields depend on the text alone.
#[verifier::external_body]
fn comma_fields(s: &str) -> (r: Vec<String>)
    ensures
        texts_of(r@) == comma_fields_of(s@),
{
    s.split(',').map(|f| f.to_owned()).collect()
}

/// Relies on `str::to_lowercase`: the result depends on the text alone.
#[verifier::external_body]
fn lowercase(s: &str) -> (r: String)
    ensures
        r@ == lowercase_of(s@),
{
    s.to_lowercase()
}

/// Relies on `str::parse::<u32>`: the number depends on the text alone.
#[verifier::external_body]
fn parse_u32(s: &str) -> (r: Option<u32>)
    ensures
        r == u32_of(s@),
{
    s.parse::<u32>().ok()
}

/// `p` occurs in `s` at position `i`.
pub open spec fn occurs_at(p: Seq<char>, s: Seq<char>, i: int) -> bool {
    0 <= i && i + p.len() <= s.len() && s.subrange(i, i + p.len()) == p
}

pub open spec fn has_substring(s: Seq<char>, p: Seq<char>) -> bool {
    exists|i: int| occurs_at(p, s, i)
}

pub open spec fn has_suffix(s: Seq<char>, p: Seq<char>) -> bool {
    p.len() <= s.len() && s.subrange(s.len() - p.len(), s.len() as int) == p
}

fn matches_at(s: &Vec<char>, p: &Vec<char>, i: usize) -> (r: bool)
    requires
        i + p@.len() <= s@.len(),
    ensures
        r == occurs_at(p@, s@, i as int),
{
    let n = s.len();
    let mut k: usize = 0;
    while k < p.len()
        invariant
            i + p@.len() <= s@.len(),
            n == s@.len(),
            0 <= k <= p@.len(),
            forall|j: int| 0 <= j < k ==> s@[i + j] == p@[j],
        decreases p@.len() - k,
    {
        if s[i + k] != p[k] {
            assert(s@.subrange(i as int, i + p@.len())[k as int] != p@[k as int]);
            return false;
        }
        k += 1;
    }
    assert(s@.subrange(i as int, i + p@.len()) =~= p@);
    true
}

/// Whether `p` occurs in `s`.
pub fn contains_chars(s: &Vec<char>, p: &Vec<char>) -> (r: bool)
    ensures
        r == has_substring(s@, p@),
{
    if p.len() > s.len() {
        return false;
    }
    if p.len() == 0 {
        assert(s@.subrange(0, 0) =~= p@);
        assert(occurs_at(p@, s@, 0));
        return true;
    }
    let n = s.len();
    let last = n - p.len();
    let mut i: usize = 0;
    while i <= last
        invariant
            n == s@.len(),
            p@.len() >= 1,
            last + p@.len() == s@.len(),
            0 <= i <= last + 1,
            forall|j: int| 0 <= j < i ==> !occurs_at(p@, s@, j),
        decreases last + 1 - i,
    {
        if matches_at(s, p, i) {
            return true;
        }
        i += 1;
    }
    false
}

/// Whether `s` ends with `p`.
pub fn ends_with_chars(s: &Vec<char>, p: &Vec<char>) -> (r: bool)
    ensures
        r == has_suffix(s@, p@),
{
    if p.len() > s.len() {
        return false;
    }
    let r = matches_at(s, p, s.len() - p.len());
    r
}

fn text_contains(s: &Vec<char>, p: &str) -> (r: bool)
    ensures
        r == has_substring(s@, p@),
{
    contains_chars(s, &chars_of(p))
}

/// The pid on one line of `pgrep` output, unless it is our own.
pub open spec fn pgrep_line_pid(line: Seq<char>, own_pid: u32) -> Option<u32> {
    match u32_of(trimmed(line)) {
        Some(pid) => if pid != own_pid { Some(pid) } else { None },
        None => None,
    }
}

/// The pids on the given `pgrep` lines, in order.
pub open spec fn pgrep_pids(lines: Seq<Seq<char>>, own_pid: u32) -> Seq<u32>
    decreases lines.len(),
{
    if lines.len() == 0 {
        Seq::empty()
    } else {
        let rest = pgrep_pids(lines.drop_last(), own_pid);
        match pgrep_line_pid(lines.last(), own_pid) {
            Some(pid) => rest.push(pid),
            None => rest,
        }
    }
}

/// The pids listed by `pgrep` output, except our own.
pub fn pids_from_pgrep(stdout: &str, own_pid: u32) -> (r: Vec<u32>)
    ensures
        r@ == pgrep_pids(lines_of(stdout@), own_pid),
{
    let lines = text_lines(stdout);
    let ghost ls = texts_of(lines@);
    let mut pids: Vec<u32> = Vec::new();
    let mut i: usize = 0;
    while i < lines.len()
        invariant
            0 <= i <= lines@.len(),
            ls == texts_of(lines@),
            pids@ == pgrep_pids(ls.take(i as int), own_pid),
        decreases lines@.len() - i,
    {
        proof {
            assert(ls.take(i + 1).drop_last() =~= ls.take(i as int));
            assert(ls.take(i + 1).last() == lines@[i as int]@);
        }
        if let Some(pid) = parse_u32(trim_text(lines[i].as_str())) {
            if pid != own_pid {
                pids.push(pid);
            }
        }
        i += 1;
    }
    assert(ls.take(ls.len() as int) =~= ls);
    pids
}

/// A `ps` line of our own application or of a grep is not a CLI process.
pub open spec fn ignored_ps_line(lower: Seq<char>) -> bool {
    ||| has_substring(lower, "codex-switcher"@)
    ||| has_substring(lower, "codex switcher"@)
    ||| has_substring(lower, "grep"@)
}

/// A `ps` line names the CLI: a word that is `codex` or ends in `/codex`,
/// or `/codex` followed by a blank.
pub open spec fn names_cli(lower: Seq<char>) -> bool {
    ||| exists|k: int|
        0 <= k < words_of(lower).len() && (words_of(lower)[k] == "codex"@ || has_suffix(
            #[trigger] words_of(lower)[k],
            "/codex"@,
        ))
    ||| has_substring(lower, "/codex "@)
    ||| has_substring(lower, "/codex\t"@)
}

/// The pid (second column) of a `ps aux` line that names the CLI, unless it
/// is our own.
pub open spec fn ps_line_pid(line: Seq<char>, own_pid: u32) -> Option<u32> {
    let lower = lowercase_of(line);
    if ignored_ps_line(lower) || !names_cli(lower) || words_of(line).len() <= 1 {
        None
    } else {
        match u32_of(words_of(line)[1]) {
            Some(pid) => if pid != own_pid { Some(pid) } else { None },
            None => None,
        }
    }
}

/// `known` extended with the pids of the given `ps` lines that it lacks.
pub open spec fn ps_pids(lines: Seq<Seq<char>>, own_pid: u32, known: Seq<u32>) -> Seq<u32>
    decreases lines.len(),
{
    if lines.len() == 0 {
        known
    } else {
        let rest = ps_pids(lines.drop_last(), own_pid, known);
        match ps_line_pid(lines.last(), own_pid) {
            Some(pid) => if rest.contains(pid) { rest } else { rest.push(pid) },
            None => rest,
        }
    }
}

fn word_names_cli(words: &Vec<String>) -> (r: bool)
    ensures
        r == exists|k: int|
            0 <= k < words@.len() && (words@[k]@ == "codex"@ || has_suffix(#[trigger] words@[k]@, "/codex"@)),
{
    let codex = chars_of("codex");
    let slash_codex = chars_of("/codex");
    let mut k: usize = 0;
    while k < words.len()
        invariant
            0 <= k <= words@.len(),
            codex@ == "codex"@,
            slash_codex@ == "/codex"@,
            forall|j: int| 0 <= j < k ==> !(words@[j]@ == "codex"@ || has_suffix(#[trigger] words@[j]@, "/codex"@)),
        decreases words@.len() - k,
    {
        let w = chars_of(words[k].as_str());
        let exact = w.len() == codex.len() && ends_with_chars(&w, &codex);
        proof {
            assert(w@.subrange(0, w@.len() as int) =~= w@);
            assert(w@ == words@[k as int]@);
        }
        if exact || ends_with_chars(&w, &slash_codex) {
            return true;
        }
        k += 1;
    }
    false
}

fn contains_pid(pids: &Vec<u32>, pid: u32) -> (r: bool)
    ensures
        r == pids@.contains(pid),
{
    let mut i: usize = 0;
    while i < pids.len()
        invariant
            0 <= i <= pids@.len(),
            forall|j: int| 0 <= j < i ==> pids@[j] != pid,
        decreases pids@.len() - i,
    {
        if pids[i] == pid {
            return true;
        }
        i += 1;
    }
    false
}

fn ps_line_pid_of(line: &str, own_pid: u32) -> (r: Option<u32>)
    ensures
        r == ps_line_pid(line@, own_pid),
{
    let lower = lowercase(line);
    let lower_chars = chars_of(lower.as_str());
    if text_contains(&lower_chars, "codex-switcher") || text_contains(&lower_chars, "codex switcher")
        || text_contains(&lower_chars, "grep") {
        return None;
    }
    let lower_words = text_words(lower.as_str());
    proof {
        assert forall|k: int| 0 <= k < lower_words@.len() implies lower_words@[k]@ == #[trigger] words_of(lower@)[k] by {
            assert(texts_of(lower_words@)[k] == lower_words@[k]@);
        }
    }
    let by_word = word_names_cli(&lower_words);
    let named = by_word || text_contains(&lower_chars, "/codex ") || text_contains(
        &lower_chars,
        "/codex\t",
    );
    proof {
        let ws = words_of(lower@);
        assert(ws.len() == lower_words@.len());
        if exists|k: int| 0 <= k < ws.len() && (ws[k] == "codex"@ || has_suffix(#[trigger] ws[k], "/codex"@)) {
            let k = choose|k: int| 0 <= k < ws.len() && (ws[k] == "codex"@ || has_suffix(#[trigger] ws[k], "/codex"@));
            assert(lower_words@[k]@ == ws[k]);
            assert(by_word);
        }
        if by_word {
            let k = choose|k: int|
                0 <= k < lower_words@.len() && (lower_words@[k]@ == "codex"@ || has_suffix(
                    #[trigger] lower_words@[k]@,
                    "/codex"@,
                ));
            assert(lower_words@[k]@ == ws[k]);
        }
    }
    if !named {
        return None;
    }
    let words = text_words(line);
    if words.len() <= 1 {
        return None;
    }
    assert(texts_of(words@)[1] == words@[1]@);
    match parse_u32(words[1].as_str()) {
        Some(pid) => if pid != own_pid {
            Some(pid)
        } else {
            None
        },
        None => None,
    }
}

/// Adds the pids of `ps aux` lines that name the CLI and are not yet listed.
pub fn add_pids_from_ps(pids: &mut Vec<u32>, stdout: &str, own_pid: u32)
    ensures
        final(pids)@ == ps_pids(lines_of(stdout@), own_pid, old(pids)@),
{
    let lines = text_lines(stdout);
    let ghost ls = texts_of(lines@);
    let ghost known = pids@;
    let mut i: usize = 0;
    while i < lines.len()
        invariant
            0 <= i <= lines@.len(),
            ls == texts_of(lines@),
            pids@ == ps_pids(ls.take(i as int), own_pid, known),
        decreases lines@.len() - i,
    {
        proof {
            assert(ls.take(i + 1).drop_last() =~= ls.take(i as int));
            assert(ls.take(i + 1).last() == lines@[i as int]@);
        }
        if let Some(pid) = ps_line_pid_of(lines[i].as_str(), own_pid) {
            if !contains_pid(pids, pid) {
                pids.push(pid);
            }
        }
        i += 1;
    }
    assert(ls.take(ls.len() as int) =~= ls);
}

} // verus!

verus! {

/// A text with its surrounding double quotes removed.
pub uninterp spec fn unquoted_of(s: Seq<char>) -> Seq<char>;

/// Relies on `str::trim_matches('"')`: the result depends on the text alone.
#[verifier::external_body]
fn unquote(s: &str) -> (r: &str)
    ensures
        r@ == unquoted_of(s@),
{
    s.trim_matches('"')
}

/// The pid (second CSV field) of one `tasklist` line, unless it is our own.
pub open spec fn tasklist_line_pid(line: Seq<char>, own_pid: u32) -> Option<u32> {
    let fields = comma_fields_of(line);
    if fields.len() <= 1 {
        None
    } else {
        match u32_of(unquoted_of(fields[1])) {
            Some(pid) => if pid != own_pid { Some(pid) } else { None },
            None => None,
        }
    }
}

/// The pids on the given `tasklist` lines, in order.
pub open spec fn tasklist_pids(lines: Seq<Seq<char>>, own_pid: u32) -> Seq<u32>
    decreases lines.len(),
{
    if lines.len() == 0 {
        Seq::empty()
    } else {
        let rest = tasklist_pids(lines.drop_last(), own_pid);
        match tasklist_line_pid(lines.last(), own_pid) {
            Some(pid) => rest.push(pid),
            None => rest,
        }
    }
}

/// The pids listed by `tasklist /FO CSV /NH` output, except our own.
pub fn pids_from_tasklist(stdout: &str, own_pid: u32) -> (r: Vec<u32>)
    ensures
        r@ == tasklist_pids(lines_of(stdout@), own_pid),
{
    let lines = text_lines(stdout);
    let ghost ls = texts_of(lines@);
    let mut pids: Vec<u32> = Vec::new();
    let mut i: usize = 0;
    while i < lines.len()
        invariant
            0 <= i <= lines@.len(),
            ls == texts_of(lines@),
            pids@ == tasklist_pids(ls.take(i as int), own_pid),
        decreases lines@.len() - i,
    {
        proof {
            assert(ls.take(i + 1).drop_last() =~= ls.take(i as int));
            assert(ls.take(i + 1).last() == lines@[i as int]@);
        }
        let fields = comma_fields(lines[i].as_str());
        if fields.len() > 1 {
            assert(texts_of(fields@)[1] == fields@[1]@);
            if let Some(pid) = parse_u32(unquote(fields[1].as_str())) {
                if pid != own_pid {
                    pids.push(pid);
                }
            }
        }
        i += 1;
    }
    assert(ls.take(ls.len() as int) =~= ls);
    pids
}

} // verus!
