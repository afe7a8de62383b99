//! What the guard's verdict guarantees, stated over all candidates.

use vstd::prelude::*;

use crate::navigation::{
    default_policy, host_matches_entry, trusted_prefix, verdict, NavigationResult, Verdict,
    ABOUT_PREFIX, APP_ORIGIN, ASSET_SCHEME_PREFIX, SHELL_SCHEME_PREFIX,
};
use crate::text::{ends_with, starts_with};
use crate::url_host::url_host;

verus! {

/// Every candidate that begins with the application origin is allowed, whatever
/// path or query follows it and whatever the allowlist.
pub proof fn lemma_app_origin_allowed(c: Seq<char>, hosts: Seq<Seq<char>>)
    requires
        starts_with(c, APP_ORIGIN@),
    ensures
        verdict(c, hosts) == Verdict::Allow,
{
}

/// A URL whose host is one of the fixed allowlist's domains, or a direct or
/// nested subdomain of one, is allowed by the fixed allowlist.
pub proof fn lemma_listed_domain_allowed(c: Seq<char>, host: Seq<char>, i: int)
    requires
        0 <= i < default_policy().len(),
        url_host(c) == Some(Some(host)),
        host == default_policy()[i] || ends_with(host, seq!['.'] + default_policy()[i]),
    ensures
        verdict(c, default_policy()) == Verdict::Allow,
{
    assert(host_matches_entry(host, default_policy()[i]));
}

/// A host matches an allowlist entry only if it ends with the entry, and,
/// when longer, has a `.` just before it: appending a domain after the entry
/// (`accounts.google.com.evil.net`) or prepending letters to it
/// (`notgithub.com`) gives no match.
pub proof fn lemma_match_on_label_boundary(host: Seq<char>, entry: Seq<char>)
    requires
        host_matches_entry(host, entry),
    ensures
        ends_with(host, entry),
        host.len() > entry.len() ==> host[host.len() - entry.len() - 1] == '.',
{
    let hl = host.len() as int;
    let el = entry.len() as int;
    if host == entry {
        assert(host.subrange(0, hl) =~= host);
    } else {
        let dotted = seq!['.'] + entry;
        let sub = host.subrange(hl - el - 1, hl);
        assert(sub == dotted);
        assert(host.subrange(hl - el, hl) =~= sub.subrange(1, el + 1));
        assert(dotted.subrange(1, el + 1) =~= entry);
        assert(host[hl - el - 1] == sub[0]);
    }
}

/// A URL whose host matches no allowlist entry, and that begins with none of
/// the trusted prefixes, is blocked, and the verdict carries it unchanged.
pub proof fn lemma_unlisted_host_blocked(c: Seq<char>, host: Seq<char>, hosts: Seq<Seq<char>>)
    requires
        url_host(c) == Some(Some(host)),
        forall|i: int| 0 <= i < hosts.len() ==> !host_matches_entry(host, #[trigger] hosts[i]),
        !trusted_prefix(c),
    ensures
        verdict(c, hosts) == Verdict::Block(c),
{
}

/// A candidate that is no absolute URL is blocked unless it begins with a
/// trusted prefix.
pub proof fn lemma_unparsable_blocked(c: Seq<char>, hosts: Seq<Seq<char>>)
    requires
        url_host(c) is None,
        !trusted_prefix(c),
    ensures
        verdict(c, hosts) == Verdict::Block(c),
{
}

/// A candidate without a `:` (the empty string, plain words, a bare path) is
/// always blocked: it names no scheme, and every trusted prefix holds a `:`.
pub proof fn lemma_schemeless_blocked(c: Seq<char>, hosts: Seq<Seq<char>>)
    requires
        !c.contains(':'),
    ensures
        verdict(c, hosts) == Verdict::Block(c),
{
    reveal_strlit("https://app.bowsapp.com");
    reveal_strlit("tauri://");
    reveal_strlit("asset://");
    reveal_strlit("about:");
    if starts_with(c, APP_ORIGIN@) {
        assert(c[5] == APP_ORIGIN@[5]);
    }
    if starts_with(c, SHELL_SCHEME_PREFIX@) {
        assert(c[5] == SHELL_SCHEME_PREFIX@[5]);
    }
    if starts_with(c, ASSET_SCHEME_PREFIX@) {
        assert(c[5] == ASSET_SCHEME_PREFIX@[5]);
    }
    if starts_with(c, ABOUT_PREFIX@) {
        assert(c[5] == ABOUT_PREFIX@[5]);
    }
}

/// A URL that has a scheme but no host (a `data:` URL, say) is blocked unless
/// it begins with a trusted prefix (`about:blank` does).
pub proof fn lemma_hostless_blocked(c: Seq<char>, hosts: Seq<Seq<char>>)
    requires
        url_host(c) == Some(None::<Seq<char>>),
        !trusted_prefix(c),
    ensures
        verdict(c, hosts) == Verdict::Block(c),
{
}

/// The verdict depends on the candidate and the allowlist alone: two checks
/// of the same candidate against the same allowlist agree.
pub proof fn lemma_verdict_repeatable(
    c: Seq<char>,
    hosts: Seq<Seq<char>>,
    first: NavigationResult,
    second: NavigationResult,
)
    requires
        first@ == verdict(c, hosts),
        second@ == verdict(c, hosts),
    ensures
        first@ == second@,
{
}

} // verus!
