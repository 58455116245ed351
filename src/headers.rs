use vstd::prelude::*;
use crate::seqs::lemma_filter_take_step;

verus! {

/// A character that may stand in a header name: a letter, a digit, or one of
/// ``!#$%&'*+-.^_`|~``.
pub open spec fn header_name_char(c: char) -> bool {
    ||| 'a' <= c <= 'z'
    ||| 'A' <= c <= 'Z'
    ||| '0' <= c <= '9'
    ||| c == '!' || c == '#' || c == '$' || c == '%' || c == '&' || c == '\''
    ||| c == '*' || c == '+' || c == '-' || c == '.' || c == '^' || c == '_'
    ||| c == '`' || c == '|' || c == '~'
}

/// Whether `s` is an acceptable header name: 1 to 65535 name characters.
pub open spec fn header_name_accepted(s: Seq<char>) -> bool {
    &&& 1 <= s.len() <= 65535
    &&& forall|i: int| 0 <= i < s.len() ==> header_name_char(#[trigger] s[i])
}

/// A character that may stand in a header value: a tab, or anything from the space up but
/// DEL. (Characters beyond ASCII encode as bytes of 0x80 and above, which are allowed.)
pub open spec fn header_value_char(c: char) -> bool {
    c == '\t' || (c as u32 >= 32 && c as u32 != 127)
}

/// Whether `s` is an acceptable header value.
pub open spec fn header_value_valid(s: Seq<char>) -> bool {
    forall|i: int| 0 <= i < s.len() ==> header_value_char(#[trigger] s[i])
}

/// Whether the header `p` can be transmitted; any other header is skipped.
pub open spec fn sendable(p: (String, String)) -> bool {
    header_name_accepted(p.0@) && header_value_valid(p.1@)
}

pub open spec fn sendable_header() -> spec_fn((String, String)) -> bool {
    |p: (String, String)| sendable(p)
}

/// Relies on reqwest's `HeaderName::from_str` (from the `http` crate), which accepts a
/// name of 1 to 65535 bytes, each of them a character of its token table (letters in
/// either case, digits and ``!#$%&'*+-.^_`|~``); any other byte, and so any character
/// beyond ASCII, is refused.
#[verifier::external_body]
fn parse_header_name(s: &str) -> (r: bool)
    ensures
        r == header_name_accepted(s@),
{
    <reqwest::header::HeaderName as std::str::FromStr>::from_str(s).is_ok()
}

/// Relies on reqwest's `HeaderValue::from_str` (from the `http` crate), which accepts a
/// string exactly when each of its bytes is a tab, or at least 32 and not 127.
#[verifier::external_body]
fn parse_header_value(s: &str) -> (r: bool)
    ensures
        r == header_value_valid(s@),
{
    reqwest::header::HeaderValue::from_str(s).is_ok()
}

/// The headers of `pairs` that can be transmitted, in order; malformed names and values
/// are skipped silently.
pub fn select_headers(pairs: &Vec<(String, String)>) -> (r: Vec<(String, String)>)
    ensures
        r@ == pairs@.filter(sendable_header()),
{
    let mut out: Vec<(String, String)> = Vec::new();
    let mut i: usize = 0;
    while i < pairs.len()
        invariant
            i <= pairs@.len(),
            out@ == pairs@.take(i as int).filter(sendable_header()),
        decreases pairs@.len() - i,
    {
        let name = pairs[i].0.clone();
        let value = pairs[i].1.clone();
        proof {
            lemma_filter_take_step(pairs@, i as int, sendable_header());
        }
        if parse_header_name(name.as_str()) && parse_header_value(value.as_str()) {
            assert((name, value) == pairs@[i as int]);
            out.push((name, value));
        }
        i = i + 1;
    }
    assert(pairs@.take(pairs@.len() as int) =~= pairs@);
    out
}

} // verus!
