//! The Matrix server that a sync session talks to, as the host and port that
//! the transport connects to.

use vstd::prelude::*;
use crate::sync::opt_view;

verus! {

#[verifier::external_type_specification]
#[verifier::external_body]
pub struct ExUrlParseError(url::ParseError);

/// Whether url parses a text as an absolute URL.
pub uninterp spec fn url_accepts(s: Seq<char>) -> bool;

/// The host of the URL that url parses out of a text, if it has one.
pub uninterp spec fn url_host_of(s: Seq<char>) -> Option<Seq<char>>;

/// The explicit port of that URL, else the default port of its scheme.
pub uninterp spec fn url_port_of(s: Seq<char>) -> Option<u16>;

/// Relies on url::Url::parse, then on Url::host_str and
/// Url::port_or_known_default of the parsed URL. Each depends on the text
/// alone.
#[verifier::external_body]
fn parse_url(s: &str) -> (r: Result<(Option<String>, Option<u16>), url::ParseError>)
    ensures
        r is Ok <==> url_accepts(s@),
        r is Ok ==> opt_view(r->Ok_0.0) == url_host_of(s@) && r->Ok_0.1 == url_port_of(s@),
{
    let u = url::Url::parse(s)?;
    Ok((u.host_str().map(String::from), u.port_or_known_default()))
}

/// Why a base URL cannot serve as a sync endpoint.
#[derive(Clone, Copy, Debug, PartialEq, Eq, Structural)]
pub enum BaseUrlError {
    /// The text is not an absolute URL.
    Malformed,
    /// The URL names no host.
    MissingHost,
    /// The URL names no port and its scheme has no default one.
    MissingPort,
}

/// Host and port of a Matrix server.
#[derive(Clone, Debug)]
pub struct BaseUrl {
    host: String,
    port: u16,
}

impl View for BaseUrl {
    type V = (Seq<char>, u16);

    closed spec fn view(&self) -> (Seq<char>, u16) {
        (self.host@, self.port)
    }
}

impl BaseUrl {
    pub fn new(host: String, port: u16) -> (r: BaseUrl)
        ensures
            r@ == (host@, port),
    {
        BaseUrl { host, port }
    }

    /// Reads host and port out of a URL text; the URL's path plays no part,
    /// since sync requests go to a fixed absolute path.
    pub fn parse(s: &str) -> (r: Result<BaseUrl, BaseUrlError>)
        ensures
            !url_accepts(s@) ==> r == Err::<BaseUrl, BaseUrlError>(BaseUrlError::Malformed),
            url_accepts(s@) && url_host_of(s@) is None ==> r == Err::<BaseUrl, BaseUrlError>(
                BaseUrlError::MissingHost,
            ),
            url_accepts(s@) && url_host_of(s@) is Some && url_port_of(s@) is None ==> r == Err::<
                BaseUrl,
                BaseUrlError,
            >(BaseUrlError::MissingPort),
            url_accepts(s@) && url_host_of(s@) is Some && url_port_of(s@) is Some ==> r is Ok
                && r->Ok_0@ == (url_host_of(s@)->Some_0, url_port_of(s@)->Some_0),
    {
        match parse_url(s) {
            Err(_) => Err(BaseUrlError::Malformed),
            Ok((None, _)) => Err(BaseUrlError::MissingHost),
            Ok((Some(_), None)) => Err(BaseUrlError::MissingPort),
            Ok((Some(host), Some(port))) => Ok(BaseUrl { host, port }),
        }
    }

    pub fn host(&self) -> (r: &str)
        ensures
            r@ == self@.0,
    {
        self.host.as_str()
    }

    pub fn port(&self) -> (r: u16)
        ensures
            r == self@.1,
    {
        self.port
    }
}

} // verus!
