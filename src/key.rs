use vstd::prelude::*;
use crate::error::IndexnowError;

verus! {

/// The pattern an ownership key must match as a whole.
pub const KEY_PATTERN: &'static str = "^[a-zA-Z0-9\\-]{8,128}$";

/// An ASCII letter, an ASCII digit or a hyphen.
pub open spec fn is_key_char(c: char) -> bool {
    ('a' <= c <= 'z') || ('A' <= c <= 'Z') || ('0' <= c <= '9') || c == '-'
}

/// 8 to 128 characters, each one of [`is_key_char`].
pub open spec fn is_key_text(s: Seq<char>) -> bool {
    &&& 8 <= s.len() <= 128
    &&& forall|i: int| 0 <= i < s.len() ==> is_key_char(#[trigger] s[i])
}

/// Relies on `regex::Regex::new` and `regex::Regex::is_match`: the fixed
/// pattern [`KEY_PATTERN`] compiles, and without the multi-line flag its
/// anchors match only at the ends of the text, so it accepts exactly the
/// texts of 8 to 128 characters from the class `[a-zA-Z0-9-]`.
#[verifier::external_body]
fn key_pattern_matches(s: &str) -> (r: bool)
    ensures
        r == is_key_text(s@),
{
    match regex::Regex::new(KEY_PATTERN) {
        Ok(re) => re.is_match(s),
        Err(_) => false,
    }
}

/// A shared secret that proves ownership of a site.
#[derive(Debug)]
pub struct Key(String);

impl View for Key {
    type V = Seq<char>;

    closed spec fn view(&self) -> Seq<char> {
        self.0@
    }
}

impl Key {
    #[verifier::type_invariant]
    spec fn inv(self) -> bool {
        is_key_text(self.0@)
    }

    /// Accepts a key that is 8 to 128 ASCII letters, digits or hyphens.
    pub fn parse(s: &str) -> (r: Result<Key, IndexnowError>)
        ensures
            r is Ok <==> is_key_text(s@),
            r matches Ok(k) ==> k@ == s@,
            r matches Err(e) ==> e == IndexnowError::InvalidKey,
    {
        if key_pattern_matches(s) {
            Ok(Key(s.to_owned()))
        } else {
            Err(IndexnowError::InvalidKey)
        }
    }

    /// The key as text.
    pub fn as_str(&self) -> (r: &str)
        ensures
            r@ == self@,
            is_key_text(r@),
    {
        proof {
            use_type_invariant(self);
        }
        self.0.as_str()
    }
}

impl std::str::FromStr for Key {
    type Err = IndexnowError;

    fn from_str(s: &str) -> (r: Result<Key, IndexnowError>)
        ensures
            r is Ok <==> is_key_text(s@),
            r matches Ok(k) ==> k@ == s@,
            r matches Err(e) ==> e == IndexnowError::InvalidKey,
    {
        Key::parse(s)
    }
}

} // verus!
