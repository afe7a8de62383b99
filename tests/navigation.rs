use bow_desktop::{is_allowed_url, validate_navigation, NavigationGuard, NavigationResult};

#[test]
fn test_main_app_allowed() {
    assert!(matches!(
        validate_navigation("https://app.bowsapp.com/my-bow"),
        NavigationResult::Allow
    ));
}

#[test]
fn test_google_auth_allowed() {
    assert!(matches!(
        validate_navigation("https://accounts.google.com/oauth"),
        NavigationResult::Allow
    ));
}

#[test]
fn test_external_blocked() {
    assert!(matches!(
        validate_navigation("https://example.com"),
        NavigationResult::Block(_)
    ));
}

#[test]
fn test_tauri_protocol_allowed() {
    assert!(matches!(
        validate_navigation("tauri://localhost"),
        NavigationResult::Allow
    ));
}

#[test]
fn app_page_allowed() {
    assert_eq!(
        validate_navigation("https://app.bowsapp.com/my-page"),
        NavigationResult::Allow
    );
}

#[test]
fn app_origin_with_query_and_fragment_allowed() {
    assert_eq!(
        validate_navigation("https://app.bowsapp.com?tab=2#top"),
        NavigationResult::Allow
    );
    assert_eq!(validate_navigation("https://app.bowsapp.com"), NavigationResult::Allow);
}

#[test]
fn google_oauth_path_allowed() {
    assert_eq!(
        validate_navigation("https://accounts.google.com/o/oauth2/auth"),
        NavigationResult::Allow
    );
}

#[test]
fn external_site_blocked_with_its_url() {
    assert_eq!(
        validate_navigation("https://example.com"),
        NavigationResult::Block("https://example.com".to_string())
    );
}

#[test]
fn about_blank_allowed() {
    assert_eq!(validate_navigation("about:blank"), NavigationResult::Allow);
}

#[test]
fn asset_scheme_allowed() {
    assert_eq!(
        validate_navigation("asset://localhost/icons/app.png"),
        NavigationResult::Allow
    );
}

#[test]
fn apex_with_attacker_suffix_blocked() {
    assert_eq!(
        validate_navigation("https://bowsapp.com.attacker.net"),
        NavigationResult::Block("https://bowsapp.com.attacker.net".to_string())
    );
}

#[test]
fn identity_providers_and_subdomains_allowed() {
    for url in [
        "https://bowsapp.com/",
        "https://www.bowsapp.com/pricing",
        "https://accounts.google.com/signin",
        "https://eu.accounts.google.com/signin",
        "https://appleid.apple.com/auth/authorize",
        "https://github.com/login/oauth/authorize",
        "https://api.github.com/user",
        "https://deep.nested.api.github.com/",
        "https://login.microsoftonline.com/common/oauth2/v2.0/authorize",
        "https://bows.eu.auth0.com/authorize",
        "https://auth0.com/",
    ] {
        assert_eq!(validate_navigation(url), NavigationResult::Allow, "{}", url);
    }
}

#[test]
fn lookalike_hosts_blocked() {
    for url in [
        "https://accounts.google.com.evil.net/oauth",
        "https://evilaccounts.google.com/",
        "https://notgithub.com/",
        "https://github.com.evil.net/",
        "https://google.com/",
        "https://mail.google.com/",
        "https://myauth0.com/",
        "https://apple.com/",
    ] {
        assert_eq!(
            validate_navigation(url),
            NavigationResult::Block(url.to_string()),
            "{}",
            url
        );
    }
}

#[test]
fn invalid_strings_blocked() {
    for url in ["", "not a url", "/bare/path", "relative/page.html", "//github.com/x"] {
        assert_eq!(
            validate_navigation(url),
            NavigationResult::Block(url.to_string()),
            "{}",
            url
        );
    }
}

#[test]
fn hostless_urls_blocked() {
    for url in ["data:text/html,<h1>hi</h1>", "mailto:someone@github.com", "unix:/run/foo.socket"] {
        assert_eq!(
            validate_navigation(url),
            NavigationResult::Block(url.to_string()),
            "{}",
            url
        );
    }
}

#[test]
fn evaluation_is_repeatable() {
    for url in ["https://github.com/x", "https://example.com", "about:blank", ""] {
        assert_eq!(validate_navigation(url), validate_navigation(url));
    }
}

#[test]
fn host_case_is_normalised_by_parser() {
    assert_eq!(
        validate_navigation("https://ACCOUNTS.Google.COM/oauth"),
        NavigationResult::Allow
    );
}

#[test]
fn custom_allowlist_guard() {
    let guard = NavigationGuard::new(vec!["example.com".to_string()]);
    assert_eq!(guard.evaluate("https://example.com/x"), NavigationResult::Allow);
    assert_eq!(guard.evaluate("https://www.example.com/"), NavigationResult::Allow);
    assert_eq!(
        guard.evaluate("https://github.com/"),
        NavigationResult::Block("https://github.com/".to_string())
    );
    assert_eq!(guard.evaluate("tauri://localhost"), NavigationResult::Allow);
}

#[test]
fn empty_allowlist_blocks_every_host() {
    let guard = NavigationGuard::new(Vec::new());
    assert_eq!(
        guard.evaluate("https://github.com/"),
        NavigationResult::Block("https://github.com/".to_string())
    );
    assert_eq!(guard.evaluate("about:blank"), NavigationResult::Allow);
}

#[test]
fn host_rule_exact_or_dotted_suffix() {
    let guard = NavigationGuard::with_default_policy();
    assert!(guard.allows_host("github.com"));
    assert!(guard.allows_host("gist.github.com"));
    assert!(guard.allows_host("a.b.auth0.com"));
    assert!(!guard.allows_host("evilgithub.com"));
    assert!(!guard.allows_host("github.com.evil.net"));
    assert!(!guard.allows_host("ithub.com"));
    assert!(!guard.allows_host(""));
    assert!(!guard.allows_host(".com"));
}

#[test]
fn general_check_accepts_listed_hosts_and_internal_schemes() {
    assert!(is_allowed_url("https://github.com/login"));
    assert!(is_allowed_url("https://app.bowsapp.com/my-bow"));
    assert!(is_allowed_url("tauri://localhost"));
    assert!(is_allowed_url("asset://localhost/a.png"));
}

#[test]
fn general_check_rejects_others() {
    assert!(!is_allowed_url("https://example.com"));
    assert!(!is_allowed_url("about:blank"));
    assert!(!is_allowed_url(""));
    assert!(!is_allowed_url("https://bowsapp.com.attacker.net"));
}
