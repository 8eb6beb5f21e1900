//! Display metadata from an OAuth id token: the middle of its three
//! dot-separated segments is decoded as unverified JSON claims. Nothing here
//! checks a signature; the result is for display only.

use vstd::prelude::*;

verus! {

#[verifier::external_type_specification]
#[verifier::external_body]
pub struct ExJsonValue(serde_json::Value);

/// What URL-safe, unpadded base64 decoding makes of a text, if it is valid.
pub uninterp spec fn base64url_decoded(s: Seq<char>) -> Option<Seq<u8>>;

/// Relies on base64's `URL_SAFE_NO_PAD` engine `decode`: the bytes, or a
/// failure, depend on the text alone.
#[verifier::external_body]
fn decode_base64url(s: &str) -> (r: Option<Vec<u8>>)
    ensures
        r matches Some(v) ==> base64url_decoded(s@) == Some(v@),
        r is None ==> base64url_decoded(s@) is None,
{
    match base64::Engine::decode(&base64::engine::general_purpose::URL_SAFE_NO_PAD, s) {
        Ok(bytes) => Some(bytes),
        Err(_) => None,
    }
}

/// The text that the JSON pointer `pointer` addresses in the JSON document
/// `doc`: none when the bytes do not parse, nothing is at that pointer, or
/// the value there is not a string.
pub uninterp spec fn json_text_at(doc: Seq<u8>, pointer: Seq<char>) -> Option<Seq<char>>;

/// A parsed JSON document, with the bytes it was parsed from.
pub struct JsonDoc {
    value: serde_json::Value,
    source: Ghost<Seq<u8>>,
}

impl JsonDoc {
    pub closed spec fn source(&self) -> Seq<u8> {
        self.source@
    }
}

/// Relies on serde_json::from_slice: parses bytes as a JSON document; when
/// they do not parse, no pointer addresses any text in them.
#[verifier::external_body]
fn parse_json_doc(bytes: &[u8]) -> (r: Option<JsonDoc>)
    ensures
        r matches Some(d) ==> d.source() == bytes@,
        r is None ==> forall|p: Seq<char>| #[trigger] json_text_at(bytes@, p) is None,
{
    match serde_json::from_slice::<serde_json::Value>(bytes) {
        Ok(value) => Some(JsonDoc { value, source: Ghost(bytes@) }),
        Err(_) => None,
    }
}

/// Relies on serde_json::Value::pointer, read as text by Value::as_str: the
/// string that a JSON pointer addresses in the parsed document.
#[verifier::external_body]
fn json_text_at_pointer(doc: &JsonDoc, pointer: &str) -> (r: Option<String>)
    ensures
        r matches Some(t) ==> json_text_at(doc.source(), pointer@) == Some(t@),
        r is None ==> json_text_at(doc.source(), pointer@) is None,
{
    doc.value.pointer(pointer).and_then(serde_json::Value::as_str).map(str::to_owned)
}

/// Where the email claim lives.
pub const EMAIL_POINTER: &'static str = "/email";

/// Where the plan claim lives: `chatgpt_plan_type` under the
/// `https://api.openai.com/auth` claim.
pub const PLAN_POINTER: &'static str = "/https:~1~1api.openai.com~1auth/chatgpt_plan_type";

/// Email and plan in a decoded claims payload.
pub open spec fn claims_in(payload: Seq<u8>) -> (Option<Seq<char>>, Option<Seq<char>>) {
    (json_text_at(payload, EMAIL_POINTER@), json_text_at(payload, PLAN_POINTER@))
}

/// Email and plan of an id token: read from its middle segment, decoded as
/// URL-safe base64; none when the token is not three dot-separated segments
/// or the segment is not valid base64.
pub open spec fn id_token_claims(token: Seq<char>) -> (Option<Seq<char>>, Option<Seq<char>>) {
    if has_three_segments(token) {
        let (i, j) = choose|i: int, j: int| dots_exactly_at(token, i, j);
        match base64url_decoded(token.subrange(i + 1, j)) {
            Some(payload) => claims_in(payload),
            None => (None, None),
        }
    } else {
        (None, None)
    }
}

pub open spec fn opt_chars(s: Option<String>) -> Option<Seq<char>> {
    match s {
        Some(v) => Some(v@),
        None => None,
    }
}

/// `s` has exactly two dots, at `i` and `j`.
pub open spec fn dots_exactly_at(s: Seq<char>, i: int, j: int) -> bool {
    &&& 0 <= i < j < s.len()
    &&& s[i] == '.'
    &&& s[j] == '.'
    &&& forall|k: int| 0 <= k < s.len() && s[k] == '.' ==> k == i || k == j
}

/// `s` splits on dots into exactly three segments.
pub open spec fn has_three_segments(s: Seq<char>) -> bool {
    exists|i: int, j: int| dots_exactly_at(s, i, j)
}

/// The middle segment of a text made of exactly three dot-separated segments.
pub fn middle_segment(s: &str) -> (r: Option<String>)
    ensures
        r is Some <==> has_three_segments(s@),
        r matches Some(m) ==> exists|i: int, j: int| dots_exactly_at(s@, i, j) && m@ == s@.subrange(i + 1, j),
{
    let n = s.unicode_len();
    let mut first: Option<usize> = None;
    let mut second: Option<usize> = None;
    let mut k: usize = 0;
    while k < n
        invariant
            n == s@.len(),
            0 <= k <= n,
            first is None ==> second is None && forall|p: int| 0 <= p < k ==> s@[p] != '.',
            first matches Some(a) ==> {
                &&& a < k
                &&& s@[a as int] == '.'
                &&& forall|p: int| 0 <= p < a ==> s@[p] != '.'
            },
            first is Some && second is None ==> forall|p: int| first->0 < p < k ==> s@[p] != '.',
            second matches Some(b) ==> {
                &&& first matches Some(a) && a < b
                &&& b < k
                &&& s@[b as int] == '.'
                &&& forall|p: int| first->0 < p < b ==> s@[p] != '.'
                &&& forall|p: int| b < p < k ==> s@[p] != '.'
            },
        decreases n - k,
    {
        if s.get_char(k) == '.' {
            if first.is_none() {
                first = Some(k);
            } else if second.is_none() {
                second = Some(k);
            } else {
                proof {
                    let a = first->0 as int;
                    let b = second->0 as int;
                    if has_three_segments(s@) {
                        let (i, j) = choose|i: int, j: int| dots_exactly_at(s@, i, j);
                        assert(a == i || a == j);
                        assert(b == i || b == j);
                        assert(k == i || k == j);
                    }
                }
                return None;
            }
        }
        k += 1;
    }
    match (first, second) {
        (Some(a), Some(b)) => {
            assert(dots_exactly_at(s@, a as int, b as int));
            Some(s.substring_char(a + 1, b).to_owned())
        },
        _ => {
            proof {
                if has_three_segments(s@) {
                    let (i, j) = choose|i: int, j: int| dots_exactly_at(s@, i, j);
                    assert(s@[i] == '.' && s@[j] == '.');
                }
            }
            None
        },
    }
}

/// Email and plan read from the claims of an id token, for display only.
pub fn parse_id_token_claims(id_token: &str) -> (r: (Option<String>, Option<String>))
    ensures
        (opt_chars(r.0), opt_chars(r.1)) == id_token_claims(id_token@),
{
    let payload_text = match middle_segment(id_token) {
        Some(m) => m,
        None => return (None, None),
    };
    let ghost s = id_token@;
    proof {
        let (i, j) = choose|i: int, j: int| dots_exactly_at(s, i, j) && payload_text@ == s.subrange(i + 1, j);
        let (i2, j2) = choose|i: int, j: int| dots_exactly_at(s, i, j);
        assert(i == i2 || i == j2);
        assert(j == i2 || j == j2);
        assert(i == i2 && j == j2);
    }
    let payload = match decode_base64url(payload_text.as_str()) {
        Some(bytes) => bytes,
        None => return (None, None),
    };
    let json = match parse_json_doc(payload.as_slice()) {
        Some(doc) => doc,
        None => {
            assert(json_text_at(payload@, EMAIL_POINTER@) is None);
            assert(json_text_at(payload@, PLAN_POINTER@) is None);
            return (None, None);
        },
    };
    let email = json_text_at_pointer(&json, EMAIL_POINTER);
    let plan_type = json_text_at_pointer(&json, PLAN_POINTER);
    (email, plan_type)
}

} // verus!
