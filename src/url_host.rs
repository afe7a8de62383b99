//! The host of a URL, as the `url` crate parses it.

use vstd::prelude::*;

verus! {

/// What `url::Url::parse` makes of a string with a `:` in it, reduced to what
/// the guard reads: `None` when no absolute URL can be parsed from it, else
/// the host of the parsed URL as `Url::host_str` gives it (`None` for a URL
/// without a host, such as a `data:` URL).
pub uninterp spec fn parsed_host(s: Seq<char>) -> Option<Option<Seq<char>>>;

/// The host of the absolute URL written in `s`: `None` when `s` is no absolute
/// URL, `Some(None)` when it is one without a host. A string without a `:`
/// names no scheme, and so is no absolute URL.
pub open spec fn url_host(s: Seq<char>) -> Option<Option<Seq<char>>> {
    if s.contains(':') {
        parsed_host(s)
    } else {
        None
    }
}

/// Relies on `url::Url::parse` to parse `s` as an absolute URL, which fails
/// on any string without a `:` since there is then no scheme to read; the host
/// of the result is read with `Url::host_str`.
#[verifier::external_body]
pub(crate) fn parse_host(s: &str) -> (r: Option<Option<String>>)
    ensures
        !s@.contains(':') ==> r is None,
        s@.contains(':') ==> match r {
            None => parsed_host(s@) is None,
            Some(None) => parsed_host(s@) == Some(None::<Seq<char>>),
            Some(Some(h)) => parsed_host(s@) == Some(Some(h@)),
        },
{
    match url::Url::parse(s) {
        Ok(u) => Some(u.host_str().map(|h| h.to_string())),
        Err(_) => None,
    }
}

} // verus!
