//! The navigation guard: which URLs the embedded webview may load.

use vstd::prelude::*;

use crate::text::{ends_with, starts_with, str_ends_with, str_starts_with};
use crate::url_host::{parse_host, url_host};

verus! {

/// The canonical origin of the application.
pub const APP_ORIGIN: &'static str = "https://app.bowsapp.com";

/// The scheme under which the host runtime serves the application shell.
pub const SHELL_SCHEME_PREFIX: &'static str = "tauri://";

/// The scheme under which the host runtime serves packaged assets.
pub const ASSET_SCHEME_PREFIX: &'static str = "asset://";

/// The browser's internal pseudo-scheme (`about:blank` and the like).
pub const ABOUT_PREFIX: &'static str = "about:";

/// The fixed allowlist: the application's own domains and the identity
/// providers that federated sign-in redirects pass through.
pub open spec fn default_policy() -> Seq<Seq<char>> {
    seq![
        "app.bowsapp.com"@,
        "bowsapp.com"@,
        "accounts.google.com"@,
        "appleid.apple.com"@,
        "github.com"@,
        "login.microsoftonline.com"@,
        "auth0.com"@,
    ]
}

/// `c` is served by the host runtime itself, from one of its two internal schemes.
pub open spec fn internal_resource(c: Seq<char>) -> bool {
    starts_with(c, SHELL_SCHEME_PREFIX@) || starts_with(c, ASSET_SCHEME_PREFIX@)
}

/// `c` begins with one of the prefixes that the guard admits before any parsing.
pub open spec fn trusted_prefix(c: Seq<char>) -> bool {
    starts_with(c, APP_ORIGIN@) || internal_resource(c) || starts_with(c, ABOUT_PREFIX@)
}

/// `host` is the allowlist entry `entry` or one of its subdomains, direct or nested.
pub open spec fn host_matches_entry(host: Seq<char>, entry: Seq<char>) -> bool {
    host == entry || ends_with(host, seq!['.'] + entry)
}

/// `host` matches some entry of the allowlist `hosts`.
pub open spec fn host_allowed(host: Seq<char>, hosts: Seq<Seq<char>>) -> bool {
    exists|i: int| 0 <= i < hosts.len() && host_matches_entry(host, #[trigger] hosts[i])
}

/// `c` is an absolute URL whose host is on the allowlist `hosts`.
pub open spec fn url_host_allowed(c: Seq<char>, hosts: Seq<Seq<char>>) -> bool {
    match url_host(c) {
        Some(Some(h)) => host_allowed(h, hosts),
        _ => false,
    }
}

/// The guard with allowlist `hosts` lets the webview load `c`.
pub open spec fn guard_allows(c: Seq<char>, hosts: Seq<Seq<char>>) -> bool {
    trusted_prefix(c) || url_host_allowed(c, hosts)
}

/// The outcome of a navigation check, as a mathematical value.
pub enum Verdict {
    Allow,
    Block(Seq<char>),
}

/// The verdict of the guard with allowlist `hosts` on the candidate `c`.
pub open spec fn verdict(c: Seq<char>, hosts: Seq<Seq<char>>) -> Verdict {
    if guard_allows(c, hosts) {
        Verdict::Allow
    } else {
        Verdict::Block(c)
    }
}

/// The general URL check: an internal resource, or a URL whose host is on the
/// fixed allowlist.
pub open spec fn url_allowed(c: Seq<char>) -> bool {
    internal_resource(c) || url_host_allowed(c, default_policy())
}

/// Result of navigation validation.
#[derive(Debug, PartialEq, Eq)]
pub enum NavigationResult {
    /// Navigation is allowed.
    Allow,
    /// Navigation is blocked; holds the blocked URL as it was given.
    Block(String),
}

impl View for NavigationResult {
    type V = Verdict;

    open spec fn view(&self) -> Verdict {
        match self {
            NavigationResult::Allow => Verdict::Allow,
            NavigationResult::Block(u) => Verdict::Block(u@),
        }
    }
}

/// The hosts of the fixed allowlist, in order.
fn default_allowed_hosts() -> (r: Vec<String>)
    ensures
        r@.map_values(|h: String| h@) == default_policy(),
{
    let mut hosts: Vec<String> = Vec::new();
    hosts.push("app.bowsapp.com".to_owned());
    hosts.push("bowsapp.com".to_owned());
    hosts.push("accounts.google.com".to_owned());
    hosts.push("appleid.apple.com".to_owned());
    hosts.push("github.com".to_owned());
    hosts.push("login.microsoftonline.com".to_owned());
    hosts.push("auth0.com".to_owned());
    assert(hosts@.map_values(|h: String| h@) =~= default_policy());
    hosts
}

/// Whether `host` is `entry` or ends with `.` followed by `entry`.
fn matches_entry(host: &str, entry: &str) -> (r: bool)
    ensures
        r == host_matches_entry(host@, entry@),
{
    let hl = host.unicode_len();
    let el = entry.unicode_len();
    let tail = str_ends_with(host, entry);
    let ghost dotted = seq!['.'] + entry@;
    if hl == el {
        proof {
            assert(host@ =~= host@.subrange(0, hl as int));
            assert(!ends_with(host@, dotted));
        }
        tail
    } else if hl > el {
        let dot = host.get_char(hl - el - 1) == '.';
        proof {
            let sub = host@.subrange(hl - el - 1, hl as int);
            assert(host@.subrange(hl - el, hl as int) =~= sub.subrange(1, el + 1));
            assert(dotted.subrange(1, el + 1) =~= entry@);
            if dot && tail {
                assert(sub =~= dotted);
            }
            if ends_with(host@, dotted) {
                assert(sub[0] == dotted[0]);
                assert(sub.subrange(1, el + 1) =~= dotted.subrange(1, el + 1));
            }
            assert(host@.len() != entry@.len());
        }
        dot && tail
    } else {
        proof {
            assert(host@.len() != entry@.len());
        }
        false
    }
}

/// Whether `url` is served from one of the host runtime's internal schemes.
fn is_internal_resource(url: &str) -> (r: bool)
    ensures
        r == internal_resource(url@),
{
    str_starts_with(url, SHELL_SCHEME_PREFIX) || str_starts_with(url, ASSET_SCHEME_PREFIX)
}

/// Whether `url` begins with one of the prefixes admitted before parsing.
fn has_trusted_prefix(url: &str) -> (r: bool)
    ensures
        r == trusted_prefix(url@),
{
    str_starts_with(url, APP_ORIGIN) || is_internal_resource(url) || str_starts_with(
        url,
        ABOUT_PREFIX,
    )
}

/// Decides which URLs may be loaded, against an ordered allowlist of host
/// suffixes that it is given once and never changes.
pub struct NavigationGuard {
    allowed_hosts: Vec<String>,
}

impl View for NavigationGuard {
    type V = Seq<Seq<char>>;

    closed spec fn view(&self) -> Seq<Seq<char>> {
        self.allowed_hosts@.map_values(|h: String| h@)
    }
}

impl NavigationGuard {
    /// A guard over the allowlist `allowed_hosts`.
    pub fn new(allowed_hosts: Vec<String>) -> (r: Self)
        ensures
            r@ == allowed_hosts@.map_values(|h: String| h@),
    {
        NavigationGuard { allowed_hosts }
    }

    /// A guard over the fixed allowlist.
    pub fn with_default_policy() -> (r: Self)
        ensures
            r@ == default_policy(),
    {
        NavigationGuard { allowed_hosts: default_allowed_hosts() }
    }

    /// Whether `host` equals an allowlist entry or is a subdomain of one.
    pub fn allows_host(&self, host: &str) -> (r: bool)
        ensures
            r == host_allowed(host@, self@),
    {
        let n = self.allowed_hosts.len();
        let mut i: usize = 0;
        while i < n
            invariant
                n == self.allowed_hosts@.len(),
                n == self@.len(),
                i <= n,
                forall|j: int| 0 <= j < i ==> !host_matches_entry(host@, #[trigger] self@[j]),
            decreases n - i,
        {
            if matches_entry(host, self.allowed_hosts[i].as_str()) {
                assert(host_matches_entry(host@, self@[i as int]));
                return true;
            }
            i = i + 1;
        }
        false
    }

    /// Whether `url` parses as an absolute URL whose host is allowed.
    fn allows_url_host(&self, url: &str) -> (r: bool)
        ensures
            r == url_host_allowed(url@, self@),
    {
        match parse_host(url) {
            Some(Some(host)) => self.allows_host(host.as_str()),
            _ => false,
        }
    }

    /// The verdict on loading `candidate`: the trusted prefixes first, then
    /// the host of the parsed URL against the allowlist. Anything that does
    /// not parse, or has no host, is blocked.
    pub fn evaluate(&self, candidate: &str) -> (r: NavigationResult)
        ensures
            r@ == verdict(candidate@, self@),
    {
        if has_trusted_prefix(candidate) || self.allows_url_host(candidate) {
            NavigationResult::Allow
        } else {
            NavigationResult::Block(candidate.to_owned())
        }
    }
}

/// Validate if a navigation target is permitted, against the fixed allowlist.
pub fn validate_navigation(url: &str) -> (r: NavigationResult)
    ensures
        r@ == verdict(url@, default_policy()),
{
    NavigationGuard::with_default_policy().evaluate(url)
}

/// Check if a URL is allowed: an internal resource, or a URL whose host is on
/// the fixed allowlist.
pub fn is_allowed_url(url: &str) -> (r: bool)
    ensures
        r == url_allowed(url@),
{
    let guard = NavigationGuard::with_default_policy();
    guard.allows_url_host(url) || is_internal_resource(url)
}

} // verus!
