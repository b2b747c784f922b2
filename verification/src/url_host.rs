//! The host part of a URL, as the `url` crate parses it.
use vstd::prelude::*;
use vstd::string::*;

verus! {

/// What parsing a URL says of its host: the URL does not parse, or it parses
/// without a host, or it parses with one.
pub enum UrlHost {
    Invalid,
    NoHost,
    Host(String),
}

/// The host that `url::Url::parse` followed by `Url::host_str` finds in a
/// string: none when the string does not parse, `Some(None)` when it parses
/// without a host.
pub uninterp spec fn url_host(s: Seq<char>) -> Option<Option<Seq<char>>>;

pub open spec fn url_host_view(h: UrlHost) -> Option<Option<Seq<char>>> {
    match h {
        UrlHost::Invalid => None,
        UrlHost::NoHost => Some(None),
        UrlHost::Host(s) => Some(Some(s@)),
    }
}

/// `url::Url::parse` and then `Url::host_str`: the result is the named
/// function `url_host` of the input; nothing more of it is stated.
#[verifier::external_body]
pub(crate) fn parse_url_host(s: &str) -> (h: UrlHost)
    ensures
        url_host_view(h) == url_host(s@),
{
    match url::Url::parse(s) {
        Ok(u) => match u.host_str() {
            Some(host) => UrlHost::Host(host.to_string()),
            None => UrlHost::NoHost,
        },
        Err(_) => UrlHost::Invalid,
    }
}

} // verus!
