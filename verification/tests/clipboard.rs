use fix_x::clipboard::{is_post_url, rewrite_url, ClipboardWatcher, UrlParts};
use fix_x::config::{AppConfig, RewriteTarget};

#[test]
fn rewrites_to_fx_domain() {
    let output = rewrite_url("https://x.com/example/status/123", RewriteTarget::Fx).unwrap();
    assert_eq!(output, "https://fxtwitter.com/example/status/123");
}

#[test]
fn rewrites_to_vx_domain() {
    let output = rewrite_url("http://x.com/example/status/123", RewriteTarget::Vx).unwrap();
    assert_eq!(output, "http://vxtwitter.com/example/status/123");
}

#[test]
fn preserves_query_and_fragment() {
    let output = rewrite_url(
        "https://x.com/example/status/123?ref=abc#section",
        RewriteTarget::Fx,
    )
    .unwrap();
    assert_eq!(
        output,
        "https://fxtwitter.com/example/status/123?ref=abc#section"
    );
}

#[test]
fn ignores_non_status_urls() {
    assert!(rewrite_url("https://x.com/example", RewriteTarget::Fx).is_none());
}

#[test]
fn ignores_non_urls() {
    assert!(rewrite_url("not a url", RewriteTarget::Fx).is_none());
}

#[test]
fn ignores_text_containing_url() {
    assert!(rewrite_url("see https://x.com/example/status/123", RewriteTarget::Fx).is_none());
}

#[test]
fn ignores_already_rewritten_urls() {
    assert!(
        rewrite_url(
            "https://fxtwitter.com/example/status/123",
            RewriteTarget::Fx
        )
        .is_none()
    );
    assert!(
        rewrite_url(
            "https://vxtwitter.com/example/status/123",
            RewriteTarget::Vx
        )
        .is_none()
    );
}

#[test]
fn surrounding_white_space_is_ignored() {
    let padded = rewrite_url(" \t\nhttps://x.com/example/status/123\u{3000}\r\n", RewriteTarget::Fx);
    let bare = rewrite_url("https://x.com/example/status/123", RewriteTarget::Fx);
    assert_eq!(padded, bare);
    assert_eq!(padded.unwrap(), "https://fxtwitter.com/example/status/123");
}

#[test]
fn ignores_blank_and_multi_token_text() {
    assert!(rewrite_url("", RewriteTarget::Fx).is_none());
    assert!(rewrite_url(" \t \n", RewriteTarget::Fx).is_none());
    assert!(rewrite_url(
        "https://x.com/a/status/1 https://x.com/b/status/2",
        RewriteTarget::Fx
    )
    .is_none());
    assert!(rewrite_url("https://x.com/a/status/1\u{00a0}x", RewriteTarget::Fx).is_none());
}

#[test]
fn ignores_other_schemes_and_hosts() {
    assert!(rewrite_url("ftp://x.com/example/status/123", RewriteTarget::Fx).is_none());
    assert!(rewrite_url("https://twitter.com/example/status/123", RewriteTarget::Fx).is_none());
    assert!(rewrite_url("https://www.x.com/example/status/123", RewriteTarget::Fx).is_none());
    assert!(rewrite_url("x.com/example/status/123", RewriteTarget::Fx).is_none());
}

#[test]
fn ignores_incomplete_post_paths() {
    assert!(rewrite_url("https://x.com//status/123", RewriteTarget::Fx).is_none());
    assert!(rewrite_url("https://x.com/example/status/", RewriteTarget::Fx).is_none());
    assert!(rewrite_url("https://x.com/example/statuses/123", RewriteTarget::Fx).is_none());
    assert!(rewrite_url("https://x.com/example/status", RewriteTarget::Fx).is_none());
}

#[test]
fn rewrite_keeps_port_user_and_longer_paths() {
    assert_eq!(
        rewrite_url("https://x.com:8443/example/status/123", RewriteTarget::Vx).unwrap(),
        "https://vxtwitter.com:8443/example/status/123"
    );
    assert_eq!(
        rewrite_url("https://user@x.com/example/status/123", RewriteTarget::Fx).unwrap(),
        "https://user@fxtwitter.com/example/status/123"
    );
    assert_eq!(
        rewrite_url("https://x.com/example/status/123/photo/1", RewriteTarget::Fx).unwrap(),
        "https://fxtwitter.com/example/status/123/photo/1"
    );
}

#[test]
fn rewrite_follows_url_normalisation() {
    assert_eq!(
        rewrite_url("HTTPS://X.COM/example/status/123", RewriteTarget::Fx).unwrap(),
        "https://fxtwitter.com/example/status/123"
    );
}

fn parts(scheme: &str, host: Option<&str>, segments: Option<&[&str]>) -> UrlParts {
    UrlParts {
        scheme: scheme.to_string(),
        host: host.map(|h| h.to_string()),
        path_segments: segments.map(|s| s.iter().map(|x| x.to_string()).collect()),
    }
}

#[test]
fn post_url_recognition() {
    assert!(is_post_url(&parts("https", Some("x.com"), Some(&["a", "status", "1"]))));
    assert!(is_post_url(&parts("http", Some("x.com"), Some(&["a", "status", "1", "x"]))));
    assert!(!is_post_url(&parts("ftp", Some("x.com"), Some(&["a", "status", "1"]))));
    assert!(!is_post_url(&parts("https", None, Some(&["a", "status", "1"]))));
    assert!(!is_post_url(&parts("https", Some("x.com"), None)));
    assert!(!is_post_url(&parts("https", Some("x.com"), Some(&["a", "status"]))));
    assert!(!is_post_url(&parts("https", Some("x.com"), Some(&["", "status", "1"]))));
    assert!(!is_post_url(&parts("https", Some("x.com"), Some(&["a", "Status", "1"]))));
    assert!(!is_post_url(&parts("https", Some("x.com"), Some(&["a", "status", ""]))));
    assert!(!is_post_url(&parts("https", Some("x.co"), Some(&["a", "status", "1"]))));
}

fn enabled(target: RewriteTarget) -> AppConfig {
    AppConfig { enabled: true, target, launch_on_startup: false }
}

#[test]
fn watcher_rewrites_a_copied_post_link() {
    let mut watcher = ClipboardWatcher::new();
    let config = enabled(RewriteTarget::Vx);
    assert!(watcher.wants_clipboard(&config));
    let write = watcher.on_clipboard_text(&config, "https://x.com/a/status/9");
    assert_eq!(write.as_deref(), Some("https://vxtwitter.com/a/status/9"));
}

#[test]
fn watcher_skips_its_own_write() {
    let mut watcher = ClipboardWatcher::new();
    let config = enabled(RewriteTarget::Fx);
    let write = watcher.on_clipboard_text(&config, "https://x.com/a/status/9").unwrap();
    watcher.on_write_finished(write.clone(), true);
    assert_eq!(watcher.on_clipboard_text(&config, &write), None);
    // Once seen, the memory is cleared: the same link copied again by the
    // user is still left alone, because it is not an x.com link.
    assert_eq!(watcher.on_clipboard_text(&config, &write), None);
    // A new copy of the original link is rewritten again.
    assert_eq!(
        watcher.on_clipboard_text(&config, "https://x.com/a/status/9").as_deref(),
        Some("https://fxtwitter.com/a/status/9")
    );
}

#[test]
fn watcher_forgets_nothing_after_failed_write() {
    let mut watcher = ClipboardWatcher::new();
    let config = enabled(RewriteTarget::Fx);
    let write = watcher.on_clipboard_text(&config, "https://x.com/a/status/9").unwrap();
    watcher.on_write_finished(write.clone(), false);
    // No write happened, so the next change is treated as a fresh copy.
    assert_eq!(watcher.on_clipboard_text(&config, "https://x.com/a/status/9"), Some(write));
}

#[test]
fn disabled_watcher_does_nothing() {
    let mut watcher = ClipboardWatcher::new();
    let config = AppConfig { enabled: false, target: RewriteTarget::Fx, launch_on_startup: true };
    assert!(!watcher.wants_clipboard(&config));
    assert_eq!(watcher.on_clipboard_text(&config, "https://x.com/a/status/9"), None);
}

#[test]
fn watcher_ignores_plain_text() {
    let mut watcher = ClipboardWatcher::new();
    let config = enabled(RewriteTarget::Fx);
    assert_eq!(watcher.on_clipboard_text(&config, "hello"), None);
    assert_eq!(watcher.on_clipboard_text(&config, "https://x.com/home"), None);
}
