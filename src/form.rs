use vstd::prelude::*;
use vstd::utf8::is_ascii_chars;
use serde_urlencoded::ser::Error as UrlencodedError;

verus! {

/// A character that `application/x-www-form-urlencoded` keeps as it is.
pub open spec fn is_form_unreserved(c: char) -> bool {
    ('a' <= c <= 'z') || ('A' <= c <= 'Z') || ('0' <= c <= '9') || c == '*' || c == '-' || c
        == '.' || c == '_'
}

/// The upper-case hexadecimal digit of `n`, for `0 <= n < 16`.
pub open spec fn hex_digit(n: int) -> char {
    seq!['0', '1', '2', '3', '4', '5', '6', '7', '8', '9', 'A', 'B', 'C', 'D', 'E', 'F'][n]
}

/// How one ASCII character is written in a form-encoded component: kept,
/// a space as `+`, anything else as `%` and two upper-case hex digits.
pub open spec fn form_char(c: char) -> Seq<char> {
    if is_form_unreserved(c) {
        seq![c]
    } else if c == ' ' {
        seq!['+']
    } else {
        seq!['%', hex_digit(c as int / 16), hex_digit(c as int % 16)]
    }
}

/// A form-encoded component.
pub open spec fn form_text(s: Seq<char>) -> Seq<char>
    decreases s.len(),
{
    if s.len() == 0 {
        Seq::empty()
    } else {
        form_text(s.drop_last()) + form_char(s.last())
    }
}

/// One `name=value` pair.
pub open spec fn form_pair(p: (Seq<char>, Seq<char>)) -> Seq<char> {
    form_text(p.0) + seq!['='] + form_text(p.1)
}

/// Pairs in order, joined by `&`.
pub open spec fn form_pairs(ps: Seq<(Seq<char>, Seq<char>)>) -> Seq<char>
    decreases ps.len(),
{
    if ps.len() == 0 {
        Seq::empty()
    } else if ps.len() == 1 {
        form_pair(ps[0])
    } else {
        form_pairs(ps.drop_last()) + seq!['&'] + form_pair(ps.last())
    }
}

pub open spec fn pair_views(ps: Seq<(String, String)>) -> Seq<(Seq<char>, Seq<char>)> {
    ps.map_values(|p: (String, String)| (p.0@, p.1@))
}

#[verifier::external_type_specification]
#[verifier::external_body]
pub struct ExUrlencodedError(serde_urlencoded::ser::Error);

/// Relies on `serde_urlencoded::to_string` over a sequence of two-string
/// tuples: each tuple becomes one pair, appended by
/// `form_urlencoded::Serializer::append_pair`, which writes `&` before every
/// pair but the first, then name, `=` and value, each through
/// `byte_serialize` (`*-._` and ASCII letters and digits kept, space as `+`,
/// other bytes as `%XX` in upper case). A tuple of two strings always
/// serializes, so the call succeeds.
#[verifier::external_body]
fn urlencode_pairs(pairs: &Vec<(String, String)>) -> (r: Result<String, UrlencodedError>)
    requires
        forall|i: int|
            0 <= i < pairs@.len() ==> is_ascii_chars(#[trigger] pairs@[i].0@) && is_ascii_chars(
                pairs@[i].1@,
            ),
    ensures
        r is Ok,
        r matches Ok(t) ==> t@ == form_pairs(pair_views(pairs@)),
{
    serde_urlencoded::to_string(pairs)
}

/// The form-encoded query of the given name/value pairs.
pub fn form_encode(pairs: &Vec<(String, String)>) -> (r: Option<String>)
    requires
        forall|i: int|
            0 <= i < pairs@.len() ==> is_ascii_chars(#[trigger] pairs@[i].0@) && is_ascii_chars(
                pairs@[i].1@,
            ),
    ensures
        r matches Some(t) && t@ == form_pairs(pair_views(pairs@)),
{
    match urlencode_pairs(pairs) {
        Ok(t) => Some(t),
        Err(_) => None,
    }
}

} // verus!
