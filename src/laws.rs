use vstd::prelude::*;
use crate::key::{is_key_char, is_key_text};
use crate::form::{form_pair, form_pairs, form_text, is_form_unreserved};
use crate::request::{single_query, single_target};
use crate::uri::{UriView, render};

verus! {

/// A key of valid characters is accepted at 8 and at 128 characters, and
/// refused at 7 and at 129.
pub proof fn lemma_key_length_boundary(s: Seq<char>)
    requires
        forall|i: int| 0 <= i < s.len() ==> is_key_char(#[trigger] s[i]),
    ensures
        s.len() == 7 ==> !is_key_text(s),
        s.len() == 129 ==> !is_key_text(s),
        s.len() == 8 ==> is_key_text(s),
        s.len() == 128 ==> is_key_text(s),
{
}

/// A single character outside `[A-Za-z0-9-]` makes a key invalid, whatever
/// its length.
pub proof fn lemma_key_foreign_char(s: Seq<char>, i: int)
    requires
        0 <= i < s.len(),
        !is_key_char(s[i]),
    ensures
        !is_key_text(s),
{
}

/// A component of unreserved characters only is form-encoded as itself.
pub proof fn lemma_form_text_unreserved(s: Seq<char>)
    requires
        forall|i: int| 0 <= i < s.len() ==> is_form_unreserved(#[trigger] s[i]),
    ensures
        form_text(s) == s,
    decreases s.len(),
{
    if s.len() > 0 {
        lemma_form_text_unreserved(s.drop_last());
        assert(s.drop_last().push(s.last()) =~= s);
    }
}

/// With an explicit key-file location, the single-URL target is the target
/// without one followed by `&keyLocation=` and the encoded location: the
/// location comes last, percent-encoded.
pub proof fn lemma_key_location_last(
    endpoint: UriView,
    key: Seq<char>,
    loc: UriView,
    url: UriView,
)
    ensures
        single_target(endpoint, key, Some(loc), url) == single_target(endpoint, key, None, url)
            + "&keyLocation="@ + form_text(render(loc)),
{
    reveal_strlit("keyLocation");
    reveal_strlit("&keyLocation=");
    let name = "keyLocation"@;
    lemma_form_text_unreserved(name);
    let with = single_query(render(url), key, Some(render(loc)));
    let without = single_query(render(url), key, None);
    assert(with.drop_last() =~= without);
    assert(with.last() == (name, render(loc)));
    assert(form_pairs(with) == form_pairs(without) + seq!['&'] + form_pair((name, render(loc))));
    assert(single_target(endpoint, key, Some(loc), url) =~= single_target(endpoint, key, None, url)
        + "&keyLocation="@ + form_text(render(loc)));
}

} // verus!
