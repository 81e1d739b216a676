use vstd::prelude::*;
use crate::error::IndexnowError;
use crate::uri::{
    MAX_URI_LEN, UriParts, UriView, check_web_url, is_web_url, parse_uri, parsed_uri, render,
    render_uri, same_folded, uri_is_visible,
};

verus! {

/// A valid endpoint: a web URL without a query.
pub open spec fn is_endpoint(u: UriView) -> bool {
    is_web_url(u) && u.query is None
}

/// Parses a text into the components of a web URL.
fn parse_web(s: &str) -> (r: Option<UriParts>)
    ensures
        r is Some <==> (parsed_uri(s@) matches Some(u) && is_web_url(u)),
        r matches Some(p) ==> p@ == parsed_uri(s@)->Some_0 && uri_is_visible(p@),
        r matches Some(p) ==> (render(p@).len() <= MAX_URI_LEN ==> parsed_uri(render(p@))
            == parsed_uri(s@)),
{
    match parse_uri(s) {
        Some(p) => {
            if check_web_url(&p) {
                Some(p)
            } else {
                None
            }
        },
        None => None,
    }
}

/// The IndexNow API endpoint that requests go to.
#[derive(Debug)]
pub struct EndpointUrl {
    uri: UriParts,
}

impl View for EndpointUrl {
    type V = UriView;

    closed spec fn view(&self) -> UriView {
        self.uri@
    }
}

impl EndpointUrl {
    #[verifier::type_invariant]
    spec fn inv(self) -> bool {
        is_endpoint(self.uri@) && uri_is_visible(self.uri@)
    }

    /// Accepts an `http` or `https` URL with a host and without a query.
    pub fn parse(s: &str) -> (r: Result<EndpointUrl, IndexnowError>)
        ensures
            r is Ok <==> (parsed_uri(s@) matches Some(u) && is_endpoint(u)),
            r matches Ok(e) ==> e@ == parsed_uri(s@)->Some_0,
            r matches Ok(e) ==> (render(e@).len() <= MAX_URI_LEN ==> parsed_uri(render(e@))
                == parsed_uri(s@)),
            r matches Err(e) ==> e == IndexnowError::InvalidUrl,
    {
        match parse_web(s) {
            Some(p) => {
                if p.query.is_none() {
                    Ok(EndpointUrl { uri: p })
                } else {
                    Err(IndexnowError::InvalidUrl)
                }
            },
            None => Err(IndexnowError::InvalidUrl),
        }
    }

    /// The well-known endpoint `https://api.indexnow.org/indexnow`.
    pub fn default_endpoint() -> (r: EndpointUrl)
        ensures
            r@ == default_endpoint_view(),
            render(r@) == "https://api.indexnow.org/indexnow"@,
    {
        proof {
            reveal_strlit("https");
            reveal_strlit("api.indexnow.org");
            reveal_strlit("/indexnow");
            reveal_strlit("https://api.indexnow.org/indexnow");
        }
        let uri = UriParts {
            scheme: Some(String::from_str("https")),
            authority: Some(String::from_str("api.indexnow.org")),
            host: Some(String::from_str("api.indexnow.org")),
            path: String::from_str("/indexnow"),
            query: None,
        };
        assert(same_folded(uri.scheme->Some_0@, seq!['h', 't', 't', 'p', 's']));
        assert(render(uri@) =~= "https://api.indexnow.org/indexnow"@);
        EndpointUrl { uri }
    }

    /// The components, with the facts that every endpoint holds.
    pub fn parts(&self) -> (r: &UriParts)
        ensures
            r@ == self@,
            is_endpoint(r@),
            uri_is_visible(r@),
    {
        proof {
            use_type_invariant(self);
        }
        &self.uri
    }

    /// The endpoint as text.
    pub fn to_string(&self) -> (r: String)
        ensures
            r@ == render(self@),
    {
        render_uri(&self.uri)
    }
}

/// The components of `https://api.indexnow.org/indexnow`.
pub open spec fn default_endpoint_view() -> UriView {
    UriView {
        scheme: Some("https"@),
        authority: Some("api.indexnow.org"@),
        host: Some("api.indexnow.org"@),
        path: "/indexnow"@,
        query: None,
    }
}

impl Default for EndpointUrl {
    fn default() -> (r: EndpointUrl)
        ensures
            r@ == default_endpoint_view(),
    {
        EndpointUrl::default_endpoint()
    }
}

/// Where the file that proves the key lies: an `http` or `https` URL.
#[derive(Debug)]
pub struct KeyfileUrl {
    uri: UriParts,
}

impl View for KeyfileUrl {
    type V = UriView;

    closed spec fn view(&self) -> UriView {
        self.uri@
    }
}

impl KeyfileUrl {
    #[verifier::type_invariant]
    spec fn inv(self) -> bool {
        is_web_url(self.uri@) && uri_is_visible(self.uri@)
    }

    /// Accepts an `http` or `https` URL with a host.
    pub fn parse(s: &str) -> (r: Result<KeyfileUrl, IndexnowError>)
        ensures
            r is Ok <==> (parsed_uri(s@) matches Some(u) && is_web_url(u)),
            r matches Ok(k) ==> k@ == parsed_uri(s@)->Some_0,
            r matches Ok(k) ==> (render(k@).len() <= MAX_URI_LEN ==> parsed_uri(render(k@))
                == parsed_uri(s@)),
            r matches Err(e) ==> e == IndexnowError::InvalidUrl,
    {
        match parse_web(s) {
            Some(p) => Ok(KeyfileUrl { uri: p }),
            None => Err(IndexnowError::InvalidUrl),
        }
    }

    /// The components, with the facts that every key-file URL holds.
    pub fn parts(&self) -> (r: &UriParts)
        ensures
            r@ == self@,
            is_web_url(r@),
            uri_is_visible(r@),
    {
        proof {
            use_type_invariant(self);
        }
        &self.uri
    }

    /// The key-file URL as text.
    pub fn to_string(&self) -> (r: String)
        ensures
            r@ == render(self@),
    {
        render_uri(&self.uri)
    }
}

/// A URL whose content has changed: an `http` or `https` URL.
#[derive(Debug)]
pub struct ContentUrl {
    uri: UriParts,
}

impl View for ContentUrl {
    type V = UriView;

    closed spec fn view(&self) -> UriView {
        self.uri@
    }
}

impl ContentUrl {
    #[verifier::type_invariant]
    spec fn inv(self) -> bool {
        is_web_url(self.uri@) && uri_is_visible(self.uri@)
    }

    /// Accepts an `http` or `https` URL with a host.
    pub fn parse(s: &str) -> (r: Result<ContentUrl, IndexnowError>)
        ensures
            r is Ok <==> (parsed_uri(s@) matches Some(u) && is_web_url(u)),
            r matches Ok(c) ==> c@ == parsed_uri(s@)->Some_0,
            r matches Ok(c) ==> (render(c@).len() <= MAX_URI_LEN ==> parsed_uri(render(c@))
                == parsed_uri(s@)),
            r matches Err(e) ==> e == IndexnowError::InvalidUrl,
    {
        match parse_web(s) {
            Some(p) => Ok(ContentUrl { uri: p }),
            None => Err(IndexnowError::InvalidUrl),
        }
    }

    /// The components, with the facts that every content URL holds.
    pub fn parts(&self) -> (r: &UriParts)
        ensures
            r@ == self@,
            is_web_url(r@),
            uri_is_visible(r@),
    {
        proof {
            use_type_invariant(self);
        }
        &self.uri
    }

    /// The content URL as text.
    pub fn to_string(&self) -> (r: String)
        ensures
            r@ == render(self@),
    {
        render_uri(&self.uri)
    }
}

/// Where the key file lies: in the root directory of the submitted URLs'
/// host, or at an explicit URL.
#[derive(Debug)]
pub enum KeyfileLocation {
    RootDirectory,
    Url(KeyfileUrl),
}

impl View for KeyfileLocation {
    type V = Option<UriView>;

    open spec fn view(&self) -> Option<UriView> {
        match self {
            KeyfileLocation::RootDirectory => None,
            KeyfileLocation::Url(k) => Some(k@),
        }
    }
}

impl KeyfileLocation {
    /// The explicit location where one is given, else the root directory.
    pub fn from_option(k: Option<KeyfileUrl>) -> (r: KeyfileLocation)
        ensures
            r@ == (match k {
                Some(u) => Some(u@),
                None => None::<UriView>,
            }),
    {
        match k {
            Some(u) => KeyfileLocation::Url(u),
            None => KeyfileLocation::RootDirectory,
        }
    }
}

impl Default for KeyfileLocation {
    fn default() -> (r: KeyfileLocation)
        ensures
            r@ is None,
    {
        KeyfileLocation::RootDirectory
    }
}

impl PartialEq for EndpointUrl {
    /// Equal components, hence equal text forms.
    fn eq(&self, other: &EndpointUrl) -> (r: bool)
        ensures
            r == (self@ == other@),
    {
        self.uri == other.uri
    }
}

impl vstd::std_specs::cmp::PartialEqSpecImpl for EndpointUrl {
    open spec fn obeys_eq_spec() -> bool {
        true
    }

    open spec fn eq_spec(&self, other: &EndpointUrl) -> bool {
        self@ == other@
    }
}

impl PartialEq for KeyfileUrl {
    /// Equal components, hence equal text forms.
    fn eq(&self, other: &KeyfileUrl) -> (r: bool)
        ensures
            r == (self@ == other@),
    {
        self.uri == other.uri
    }
}

impl vstd::std_specs::cmp::PartialEqSpecImpl for KeyfileUrl {
    open spec fn obeys_eq_spec() -> bool {
        true
    }

    open spec fn eq_spec(&self, other: &KeyfileUrl) -> bool {
        self@ == other@
    }
}

impl PartialEq for ContentUrl {
    /// Equal components, hence equal text forms.
    fn eq(&self, other: &ContentUrl) -> (r: bool)
        ensures
            r == (self@ == other@),
    {
        self.uri == other.uri
    }
}

impl vstd::std_specs::cmp::PartialEqSpecImpl for ContentUrl {
    open spec fn obeys_eq_spec() -> bool {
        true
    }

    open spec fn eq_spec(&self, other: &ContentUrl) -> bool {
        self@ == other@
    }
}

} // verus!
