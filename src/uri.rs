use vstd::prelude::*;

verus! {

/// The components of an absolute or relative URI, as plain strings.
#[derive(Debug)]
pub struct UriParts {
    pub scheme: Option<String>,
    pub authority: Option<String>,
    pub host: Option<String>,
    pub path: String,
    pub query: Option<String>,
}

/// The mathematical model of [`UriParts`].
pub struct UriView {
    pub scheme: Option<Seq<char>>,
    pub authority: Option<Seq<char>>,
    pub host: Option<Seq<char>>,
    pub path: Seq<char>,
    pub query: Option<Seq<char>>,
}

pub open spec fn view_opt(o: Option<String>) -> Option<Seq<char>> {
    match o {
        Some(s) => Some(s@),
        None => None,
    }
}

impl View for UriParts {
    type V = UriView;

    open spec fn view(&self) -> UriView {
        UriView {
            scheme: view_opt(self.scheme),
            authority: view_opt(self.authority),
            host: view_opt(self.host),
            path: self.path@,
            query: view_opt(self.query),
        }
    }
}

/// The components that the `http` crate reads out of a text, or `None` where
/// it refuses the text.
pub uninterp spec fn parsed_uri(s: Seq<char>) -> Option<UriView>;

/// A printable ASCII character other than space.
pub open spec fn is_visible(c: char) -> bool {
    '!' <= c <= '~'
}

pub open spec fn all_visible(s: Seq<char>) -> bool {
    forall|i: int| 0 <= i < s.len() ==> is_visible(#[trigger] s[i])
}

pub open spec fn opt_visible(o: Option<Seq<char>>) -> bool {
    o matches Some(s) ==> all_visible(s)
}

/// Every component holds visible ASCII characters only.
pub open spec fn uri_is_visible(u: UriView) -> bool {
    &&& opt_visible(u.scheme)
    &&& opt_visible(u.authority)
    &&& opt_visible(u.host)
    &&& all_visible(u.path)
    &&& opt_visible(u.query)
}

/// The longest text that the `http` crate accepts as a URI.
pub const MAX_URI_LEN: usize = 65534;

/// Relies on `http::Uri`'s `FromStr` impl and on its accessors `scheme_str`,
/// `authority`, `host`, `path` and `query`: whether a text parses, and into
/// which components, depends on the text alone; the parser keeps only bytes
/// of its URI character tables, all of them visible ASCII. Where there is a
/// scheme and an authority, the text form ([`render`], the `Display` impl)
/// is the input without its fragment, with `/` for an empty path and a
/// standard scheme in lower case: the authority ends before the first `/`,
/// `?` or `#`, the path before `?` or `#`, the query before `#`, so that
/// text, within `MAX_LEN`, parses into the same components.
#[verifier::external_body]
pub(crate) fn parse_uri(s: &str) -> (r: Option<UriParts>)
    ensures
        r is Some <==> parsed_uri(s@) is Some,
        r matches Some(p) ==> p@ == parsed_uri(s@)->Some_0 && uri_is_visible(p@),
        r matches Some(p) ==> (p@.scheme is Some && p@.authority is Some && render(p@).len()
            <= MAX_URI_LEN ==> parsed_uri(render(p@)) == Some(p@)),
{
    match s.parse::<http::Uri>() {
        Ok(u) => Some(UriParts {
            scheme: u.scheme_str().map(String::from),
            authority: u.authority().map(|a| String::from(a.as_str())),
            host: u.host().map(String::from),
            path: String::from(u.path()),
            query: u.query().map(String::from),
        }),
        Err(_) => None,
    }
}

/// The text form of a URI: `scheme://authority` then the path, then `?query`.
pub open spec fn render(u: UriView) -> Seq<char> {
    (match u.scheme {
        Some(s) => s + seq![':', '/', '/'],
        None => Seq::empty(),
    }) + (match u.authority {
        Some(a) => a,
        None => Seq::empty(),
    }) + u.path + (match u.query {
        Some(q) => seq!['?'] + q,
        None => Seq::empty(),
    })
}

pub proof fn lemma_render_visible(u: UriView)
    requires
        uri_is_visible(u),
    ensures
        all_visible(render(u)),
{
    let a = match u.scheme {
        Some(s) => s + seq![':', '/', '/'],
        None => Seq::empty(),
    };
    let b = match u.authority {
        Some(x) => x,
        None => Seq::empty(),
    };
    let c = match u.query {
        Some(q) => seq!['?'] + q,
        None => Seq::empty(),
    };
    assert(all_visible(a));
    assert(all_visible(b));
    assert(all_visible(c));
    assert(all_visible(a + b));
    assert(all_visible(a + b + u.path));
    assert(render(u) == a + b + u.path + c);
}

fn append_opt(out: &mut String, o: &Option<String>)
    ensures
        final(out)@ == old(out)@ + (match view_opt(*o) {
            Some(s) => s,
            None => Seq::empty(),
        }),
{
    match o {
        Some(s) => out.append(s.as_str()),
        None => {},
    }
}

/// Writes a URI out as text.
pub fn render_uri(u: &UriParts) -> (r: String)
    ensures
        r@ == render(u@),
{
    let mut out = String::new();
    match &u.scheme {
        Some(s) => {
            out.append(s.as_str());
            proof {
                reveal_strlit("://");
            }
            out.append("://");
        },
        None => {},
    }
    append_opt(&mut out, &u.authority);
    out.append(u.path.as_str());
    match &u.query {
        Some(q) => {
            proof {
                reveal_strlit("?");
            }
            out.append("?");
            out.append(q.as_str());
        },
        None => {},
    }
    assert(out@ =~= render(u@));
    out
}

/// The character with ASCII upper-case letters folded to lower case, as a
/// code point.
pub open spec fn fold_char(c: char) -> int {
    if 'A' <= c <= 'Z' {
        c as int + 32
    } else {
        c as int
    }
}

/// Equal texts when ASCII letter case is ignored.
pub open spec fn same_folded(a: Seq<char>, b: Seq<char>) -> bool {
    &&& a.len() == b.len()
    &&& forall|i: int| 0 <= i < a.len() ==> fold_char(#[trigger] a[i]) == fold_char(b[i])
}

fn fold_code(c: char) -> (r: u32)
    ensures
        r as int == fold_char(c),
{
    if 'A' <= c && c <= 'Z' {
        (c as u32) + 32
    } else {
        c as u32
    }
}

/// Compares two texts with ASCII letter case ignored.
pub fn eq_ignore_ascii_case(a: &str, b: &str) -> (r: bool)
    ensures
        r == same_folded(a@, b@),
{
    let n = a.unicode_len();
    if n != b.unicode_len() {
        return false;
    }
    let mut i: usize = 0;
    while i < n
        invariant
            n == a@.len(),
            n == b@.len(),
            i <= n,
            forall|j: int| 0 <= j < i ==> fold_char(#[trigger] a@[j]) == fold_char(b@[j]),
        decreases n - i,
    {
        if fold_code(a.get_char(i)) != fold_code(b.get_char(i)) {
            return false;
        }
        i = i + 1;
    }
    true
}

/// `http` or `https`, in any letter case.
pub open spec fn is_web_scheme(s: Seq<char>) -> bool {
    same_folded(s, seq!['h', 't', 't', 'p']) || same_folded(s, seq!['h', 't', 't', 'p', 's'])
}

/// An absolute URL of the web: an `http` or `https` scheme and a host.
pub open spec fn is_web_url(u: UriView) -> bool {
    &&& u.scheme matches Some(s) && is_web_scheme(s)
    &&& u.authority is Some
    &&& u.host is Some
}

pub fn check_web_url(u: &UriParts) -> (r: bool)
    ensures
        r == is_web_url(u@),
{
    let web = match &u.scheme {
        Some(s) => {
            proof {
                reveal_strlit("http");
                reveal_strlit("https");
            }
            eq_ignore_ascii_case(s.as_str(), "http") || eq_ignore_ascii_case(s.as_str(), "https")
        },
        None => false,
    };
    web && u.authority.is_some() && u.host.is_some()
}

fn eq_opt(a: &Option<String>, b: &Option<String>) -> (r: bool)
    ensures
        r == (view_opt(*a) == view_opt(*b)),
{
    match (a, b) {
        (Some(x), Some(y)) => *x == *y,
        (None, None) => true,
        _ => false,
    }
}

impl PartialEq for UriParts {
    fn eq(&self, other: &UriParts) -> (r: bool)
        ensures
            r == (self@ == other@),
    {
        eq_opt(&self.scheme, &other.scheme) && eq_opt(&self.authority, &other.authority) && eq_opt(
            &self.host,
            &other.host,
        ) && self.path == other.path && eq_opt(&self.query, &other.query)
    }
}

impl vstd::std_specs::cmp::PartialEqSpecImpl for UriParts {
    open spec fn obeys_eq_spec() -> bool {
        true
    }

    open spec fn eq_spec(&self, other: &UriParts) -> bool {
        self@ == other@
    }
}

} // verus!
