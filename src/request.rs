use vstd::prelude::*;
use vstd::utf8::is_ascii_chars;
use crate::error::IndexnowError;
use crate::form::{form_encode, form_pairs, pair_views};
use crate::json::{json_items, json_string, push_json_string};
use crate::key::{Key, is_key_text};
use crate::uri::{
    UriView, all_visible, eq_ignore_ascii_case, lemma_render_visible, parse_uri, parsed_uri,
    render, same_folded,
};
use crate::url::{ContentUrl, EndpointUrl, KeyfileLocation};

verus! {

/// The most URLs that one batch request may carry.
pub const MAX_URLS: usize = 10000;

/// The HTTP method of a submission.
#[derive(Debug, Clone, Copy, PartialEq, Eq, Structural)]
pub enum HttpMethod {
    Get,
    Post,
}

/// A request ready to be sent as it is: method, target URI, content type
/// (the one header that a submission sets) and body.
#[derive(Debug)]
pub struct SubmissionRequest {
    pub method: HttpMethod,
    pub uri: String,
    pub content_type: Option<String>,
    pub body: String,
}

/// The text form of an explicit key-file location.
pub open spec fn location_text(loc: Option<UriView>) -> Option<Seq<char>> {
    match loc {
        Some(u) => Some(render(u)),
        None => None,
    }
}

/// The query parameters of a single-URL request, in order.
pub open spec fn single_query(url: Seq<char>, key: Seq<char>, loc: Option<Seq<char>>) -> Seq<
    (Seq<char>, Seq<char>),
> {
    seq![("url"@, url), ("key"@, key)] + match loc {
        Some(l) => seq![("keyLocation"@, l)],
        None => Seq::empty(),
    }
}

/// The target of a single-URL request: the endpoint with the encoded query
/// appended.
pub open spec fn single_target(
    endpoint: UriView,
    key: Seq<char>,
    loc: Option<UriView>,
    url: UriView,
) -> Seq<char> {
    render(endpoint) + seq!['?'] + form_pairs(single_query(render(url), key, location_text(loc)))
}

/// What building a single-URL request yields: a body-less `GET` of
/// [`single_target`], unless that target is not a URI that can be sent.
pub open spec fn single_outcome(
    endpoint: UriView,
    key: Seq<char>,
    loc: Option<UriView>,
    url: UriView,
    r: Result<SubmissionRequest, IndexnowError>,
) -> bool {
    let target = single_target(endpoint, key, loc, url);
    &&& r is Ok <==> parsed_uri(target) is Some
    &&& r matches Ok(q) ==> {
        &&& q.method == HttpMethod::Get
        &&& q.uri@ == target
        &&& q.content_type is None
        &&& q.body@ == Seq::<char>::empty()
    }
    &&& r matches Err(e) ==> e == IndexnowError::RequestBuildError
}

proof fn lemma_visible_is_ascii(s: Seq<char>)
    requires
        all_visible(s),
    ensures
        is_ascii_chars(s),
{
}

proof fn lemma_key_is_visible(s: Seq<char>)
    requires
        is_key_text(s),
    ensures
        all_visible(s),
{
}

/// Builds the `GET` request that notifies one changed URL.
pub fn submit_one_request(
    endpoint: EndpointUrl,
    key: Key,
    key_location: KeyfileLocation,
    url: ContentUrl,
) -> (r: Result<SubmissionRequest, IndexnowError>)
    ensures
        single_outcome(endpoint@, key@, key_location@, url@, r),
{
    let up = url.parts();
    let key_text = key.as_str();
    proof {
        lemma_render_visible(up@);
        lemma_visible_is_ascii(render(up@));
        lemma_key_is_visible(key_text@);
        lemma_visible_is_ascii(key_text@);
        reveal_strlit("url");
        reveal_strlit("key");
        reveal_strlit("keyLocation");
    }
    let mut query: Vec<(String, String)> = Vec::new();
    query.push((String::from_str("url"), url.to_string()));
    query.push((String::from_str("key"), String::from_str(key_text)));
    match &key_location {
        KeyfileLocation::Url(k) => {
            let kp = k.parts();
            proof {
                lemma_render_visible(kp@);
                lemma_visible_is_ascii(render(kp@));
            }
            query.push((String::from_str("keyLocation"), k.to_string()));
        },
        KeyfileLocation::RootDirectory => {},
    }
    assert(pair_views(query@) =~= single_query(render(url@), key@, location_text(key_location@)));
    let encoded = match form_encode(&query) {
        Some(t) => t,
        None => {
            return Err(IndexnowError::RequestBuildError);
        },
    };
    let mut target = endpoint.to_string();
    proof {
        reveal_strlit("?");
    }
    target.append("?");
    target.append(encoded.as_str());
    assert(target@ =~= single_target(endpoint@, key@, key_location@, url@));
    match parse_uri(target.as_str()) {
        Some(_) => Ok(
            SubmissionRequest {
                method: HttpMethod::Get,
                uri: target,
                content_type: None,
                body: String::new(),
            },
        ),
        None => Err(IndexnowError::RequestBuildError),
    }
}

/// `p` stands at the start of `s`.
pub open spec fn is_prefix(p: Seq<char>, s: Seq<char>) -> bool {
    p.len() <= s.len() && s.subrange(0, p.len() as int) == p
}

/// The directory part of a path: all of it up to and including the last `/`.
pub open spec fn key_dir(p: Seq<char>) -> Seq<char>
    decreases p.len(),
{
    if p.len() == 0 {
        p
    } else if p.last() == '/' {
        p
    } else {
        key_dir(p.drop_last())
    }
}

/// Both URLs name the same host, ASCII letter case aside.
pub open spec fn same_host(a: UriView, b: UriView) -> bool {
    a.host matches Some(x) && b.host matches Some(y) && same_folded(x, y)
}

/// Every URL of a batch lies on the first URL's host and, where the key file
/// has an explicit location, on its host and under its directory.
pub open spec fn in_scope(loc: Option<UriView>, urls: Seq<UriView>) -> bool {
    &&& forall|i: int| 0 <= i < urls.len() ==> same_host(#[trigger] urls[i], urls[0])
    &&& loc matches Some(k) ==> {
        &&& same_host(k, urls[0])
        &&& forall|i: int| 0 <= i < urls.len() ==> is_prefix(key_dir(k.path), #[trigger] urls[i].path)
    }
}

/// The JSON body of a batch request.
pub open spec fn batch_body(
    host: Seq<char>,
    key: Seq<char>,
    loc: Option<Seq<char>>,
    items: Seq<Seq<char>>,
) -> Seq<char> {
    "{\"host\":"@ + json_string(host) + ",\"key\":"@ + json_string(key) + (match loc {
        Some(l) => ",\"keyLocation\":"@ + json_string(l),
        None => Seq::empty(),
    }) + ",\"urlList\":["@ + json_items(items) + "]}"@
}

pub open spec fn content_views(urls: Seq<ContentUrl>) -> Seq<UriView> {
    urls.map_values(|u: ContentUrl| u@)
}

pub open spec fn rendered(urls: Seq<UriView>) -> Seq<Seq<char>> {
    urls.map_values(|u: UriView| render(u))
}

/// What building a batch request yields: an error for an empty or oversized
/// list, another for a URL out of scope, else a JSON `POST` to the endpoint.
pub open spec fn batch_outcome(
    endpoint: UriView,
    key: Seq<char>,
    loc: Option<UriView>,
    urls: Seq<UriView>,
    r: Result<SubmissionRequest, IndexnowError>,
) -> bool {
    &&& r is Ok <==> (1 <= urls.len() <= MAX_URLS && in_scope(loc, urls))
    &&& r matches Err(e) ==> (e == IndexnowError::RequestBuildError <==> (urls.len() == 0
        || urls.len() > MAX_URLS))
    &&& r matches Err(e) ==> (e == IndexnowError::InvalidUrl <==> (1 <= urls.len() <= MAX_URLS
        && !in_scope(loc, urls)))
    &&& r matches Ok(q) ==> {
        &&& q.method == HttpMethod::Post
        &&& q.uri@ == render(endpoint)
        &&& q.content_type matches Some(c) && c@ == "application/json"@
        &&& q.body@ == batch_body(urls[0].host->Some_0, key, location_text(loc), rendered(urls))
    }
}

/// Whether `p` stands at the start of `s`.
fn has_prefix(s: &str, p: &str) -> (r: bool)
    ensures
        r == is_prefix(p@, s@),
{
    let n = p.unicode_len();
    if n > s.unicode_len() {
        return false;
    }
    let mut i: usize = 0;
    while i < n
        invariant
            n == p@.len(),
            n <= s@.len(),
            i <= n,
            forall|j: int| 0 <= j < i ==> #[trigger] s@[j] == p@[j],
        decreases n - i,
    {
        if s.get_char(i) != p.get_char(i) {
            assert(s@.subrange(0, n as int)[i as int] != p@[i as int]);
            return false;
        }
        i = i + 1;
    }
    assert(s@.subrange(0, n as int) =~= p@);
    true
}

/// The length of [`key_dir`] of a path.
fn key_dir_len(p: &str) -> (r: usize)
    ensures
        r <= p@.len(),
        key_dir(p@) == p@.subrange(0, r as int),
{
    let mut j: usize = p.unicode_len();
    assert(p@.subrange(0, j as int) =~= p@);
    while j > 0
        invariant
            j <= p@.len(),
            key_dir(p@) == key_dir(p@.subrange(0, j as int)),
        decreases j,
    {
        if p.get_char(j - 1) == '/' {
            return j;
        }
        assert(p@.subrange(0, j as int).drop_last() =~= p@.subrange(0, j - 1));
        j = j - 1;
    }
    j
}

/// Whether every URL lies in the scope that [`in_scope`] describes.
fn check_scope(loc: &KeyfileLocation, urls: &Vec<ContentUrl>) -> (r: bool)
    requires
        urls@.len() >= 1,
    ensures
        r == in_scope(loc@, content_views(urls@)),
{
    let ghost views = content_views(urls@);
    let first = urls[0].parts();
    let first_host = match &first.host {
        Some(h) => h,
        None => {
            return false;
        },
    };
    let n = urls.len();
    let mut i: usize = 0;
    while i < n
        invariant
            n == urls@.len(),
            i <= n,
            views == content_views(urls@),
            views[0].host == Some(first_host@),
            forall|j: int| 0 <= j < i ==> same_host(#[trigger] views[j], views[0]),
        decreases n - i,
    {
        let p = urls[i].parts();
        match &p.host {
            Some(h) => {
                if !eq_ignore_ascii_case(h.as_str(), first_host.as_str()) {
                    assert(!same_host(views[i as int], views[0]));
                    return false;
                }
            },
            None => {
                return false;
            },
        }
        assert(same_host(views[i as int], views[0]));
        i = i + 1;
    }
    match loc {
        KeyfileLocation::RootDirectory => true,
        KeyfileLocation::Url(k) => {
            let kp = k.parts();
            let same = match &kp.host {
                Some(h) => eq_ignore_ascii_case(h.as_str(), first_host.as_str()),
                None => false,
            };
            if !same {
                return false;
            }
            let d = key_dir_len(kp.path.as_str());
            let dir = kp.path.as_str().substring_char(0, d);
            let mut i: usize = 0;
            while i < n
                invariant
                    n == urls@.len(),
                    i <= n,
                    views == content_views(urls@),
                    dir@ == key_dir(k@.path),
                    loc@ == Some(k@),
                    forall|j: int| 0 <= j < i ==> is_prefix(dir@, #[trigger] views[j].path),
                decreases n - i,
            {
                let p = urls[i].parts();
                if !has_prefix(p.path.as_str(), dir) {
                    assert(views[i as int] == p@);
                    assert(!is_prefix(key_dir(k@.path), views[i as int].path));
                    assert(!in_scope(loc@, views));
                    return false;
                }
                i = i + 1;
            }
            true
        },
    }
}

/// Builds the `POST` request that notifies a batch of changed URLs, all on
/// one host.
pub fn submit_batch_request(
    endpoint: EndpointUrl,
    key: Key,
    key_location: KeyfileLocation,
    urls: Vec<ContentUrl>,
) -> (r: Result<SubmissionRequest, IndexnowError>)
    ensures
        batch_outcome(endpoint@, key@, key_location@, content_views(urls@), r),
{
    let ghost views = content_views(urls@);
    let n = urls.len();
    if n == 0 || n > MAX_URLS {
        return Err(IndexnowError::RequestBuildError);
    }
    if !check_scope(&key_location, &urls) {
        return Err(IndexnowError::InvalidUrl);
    }
    let first = urls[0].parts();
    let host = match &first.host {
        Some(h) => h,
        None => {
            return Err(IndexnowError::InvalidUrl);
        },
    };
    let key_text = key.as_str();
    proof {
        lemma_key_is_visible(key_text@);
    }
    let mut body = String::new();
    body.append("{\"host\":");
    push_json_string(&mut body, host.as_str());
    body.append(",\"key\":");
    push_json_string(&mut body, key_text);
    match &key_location {
        KeyfileLocation::Url(k) => {
            let kp = k.parts();
            proof {
                lemma_render_visible(kp@);
            }
            body.append(",\"keyLocation\":");
            push_json_string(&mut body, k.to_string().as_str());
        },
        KeyfileLocation::RootDirectory => {},
    }
    body.append(",\"urlList\":[");
    let ghost head = body@;
    let ghost texts = rendered(views);
    let mut i: usize = 0;
    while i < n
        invariant
            n == urls@.len(),
            i <= n,
            views == content_views(urls@),
            texts == rendered(views),
            body@ == head + json_items(texts.subrange(0, i as int)),
        decreases n - i,
    {
        let ghost before = body@;
        if i > 0 {
            proof {
                reveal_strlit(",");
            }
            body.append(",");
        }
        let up = urls[i].parts();
        proof {
            lemma_render_visible(up@);
        }
        push_json_string(&mut body, urls[i].to_string().as_str());
        proof {
            let next = texts.subrange(0, i + 1);
            assert(next.drop_last() =~= texts.subrange(0, i as int));
            assert(next.last() == render(views[i as int]));
            assert(body@ =~= head + json_items(next));
        }
        i = i + 1;
    }
    body.append("]}");
    proof {
        assert(texts.subrange(0, n as int) =~= texts);
        assert(body@ =~= batch_body(
            views[0].host->Some_0,
            key@,
            location_text(key_location@),
            texts,
        ));
    }
    Ok(
        SubmissionRequest {
            method: HttpMethod::Post,
            uri: endpoint.to_string(),
            content_type: Some(String::from_str("application/json")),
            body,
        },
    )
}

/// Builds the request for a submission. The choice of form is this library's
/// policy: exactly one URL goes out as the single-URL `GET`, any other count
/// as the batch `POST` (which refuses an empty or oversized list).
pub fn build_submission(
    endpoint: EndpointUrl,
    key: Key,
    key_location: KeyfileLocation,
    urls: Vec<ContentUrl>,
) -> (r: Result<SubmissionRequest, IndexnowError>)
    ensures
        urls@.len() == 1 ==> single_outcome(endpoint@, key@, key_location@, urls@[0]@, r),
        urls@.len() != 1 ==> batch_outcome(
            endpoint@,
            key@,
            key_location@,
            content_views(urls@),
            r,
        ),
{
    if urls.len() == 1 {
        let mut urls = urls;
        match urls.pop() {
            Some(u) => submit_one_request(endpoint, key, key_location, u),
            None => Err(IndexnowError::RequestBuildError),
        }
    } else {
        submit_batch_request(endpoint, key, key_location, urls)
    }
}

} // verus!
