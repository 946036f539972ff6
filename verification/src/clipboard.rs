//! Recognising a copied `x.com` post link and rewriting it to a mirror host,
//! and the decisions taken on each change of the clipboard.

use url::Url;
use vstd::prelude::*;

use crate::config::{target_host, AppConfig, RewriteTarget};
use crate::text::{
    any_whitespace, chars_of, has_white_space, is_white_space, lemma_trim_white_padding, text_eq,
    trim, trimmed_bounds,
};

verus! {

/// Whether `url::Url::parse` accepts `input` as an absolute URL.
pub uninterp spec fn url_parses(input: Seq<char>) -> bool;

/// `Url::scheme` of the URL that `Url::parse` makes of `input`.
pub uninterp spec fn url_scheme(input: Seq<char>) -> Seq<char>;

/// `Url::host_str` of the URL that `Url::parse` makes of `input`.
pub uninterp spec fn url_host_str(input: Seq<char>) -> Option<Seq<char>>;

/// The items of `Url::path_segments` of the URL that `Url::parse` makes of
/// `input`.
pub uninterp spec fn url_path_segments(input: Seq<char>) -> Option<Seq<Seq<char>>>;

/// The serialization of the URL that `Url::parse` makes of `input`, after
/// `Url::set_host(Some(host))`; `None` where either call fails.
pub uninterp spec fn url_with_host(input: Seq<char>, host: Seq<char>) -> Option<Seq<char>>;

/// The view of an optional string.
pub open spec fn opt_text(o: Option<String>) -> Option<Seq<char>> {
    match o {
        Some(s) => Some(s@),
        None => None,
    }
}

/// The view of optional path segments.
pub open spec fn opt_segments(o: Option<Vec<String>>) -> Option<Seq<Seq<char>>> {
    match o {
        Some(v) => Some(v@.map_values(|s: String| s@)),
        None => None,
    }
}

/// The parts of a parsed URL that decide whether it is a post link.
pub struct UrlParts {
    /// The scheme, lower case, without the `:`.
    pub scheme: String,
    /// The host, where the URL has one.
    pub host: Option<String>,
    /// The `/`-separated segments of the path, where the URL has a
    /// hierarchical path.
    pub path_segments: Option<Vec<String>>,
}

/// Parses `input` with `url::Url::parse` and reads `Url::scheme`,
/// `Url::host_str` and `Url::path_segments` of the result.  The contract
/// claims that the result is `None` exactly when the parse fails, and that
/// the parts read are those that the named results give for `input`.
#[verifier::external_body]
fn parse_url(input: &str) -> (res: Option<UrlParts>)
    ensures
        res is Some <==> url_parses(input@),
        res matches Some(p) ==> {
            &&& p.scheme@ == url_scheme(input@)
            &&& opt_text(p.host) == url_host_str(input@)
            &&& opt_segments(p.path_segments) == url_path_segments(input@)
        },
{
    let url = Url::parse(input).ok()?;
    Some(UrlParts {
        scheme: url.scheme().to_string(),
        host: url.host_str().map(str::to_string),
        path_segments: url.path_segments().map(|segments| segments.map(str::to_string).collect()),
    })
}

/// Parses `input` with `url::Url::parse`, replaces its host with
/// `Url::set_host(Some(host))` and returns the serialization
/// (`From<Url> for String`).  The contract claims only that the result is the
/// named result for these two arguments; which strings that is, is left to
/// the `url` crate.
#[verifier::external_body]
fn serialize_with_host(input: &str, host: &str) -> (res: Option<String>)
    ensures
        opt_text(res) == url_with_host(input@, host@),
{
    let mut url = Url::parse(input).ok()?;
    url.set_host(Some(host)).ok()?;
    Some(url.into())
}

/// A post link: `http` or `https`, host `x.com`, and a path that starts
/// with `<user>/status/<id>`, user and id not empty.
pub open spec fn is_post_link(
    scheme: Seq<char>,
    host: Option<Seq<char>>,
    segments: Option<Seq<Seq<char>>>,
) -> bool {
    &&& (scheme == "http"@ || scheme == "https"@)
    &&& host == Some("x.com"@)
    &&& segments matches Some(s) && {
        &&& s.len() >= 3
        &&& s[0].len() > 0
        &&& s[1] == "status"@
        &&& s[2].len() > 0
    }
}

/// Whether the parsed URL is a post link.
pub fn is_post_url(parts: &UrlParts) -> (res: bool)
    ensures
        res == is_post_link(parts.scheme@, opt_text(parts.host), opt_segments(parts.path_segments)),
{
    let scheme_ok = text_eq(parts.scheme.as_str(), "http") || text_eq(parts.scheme.as_str(), "https");
    let host_ok = match &parts.host {
        Some(h) => text_eq(h.as_str(), "x.com"),
        None => false,
    };
    let path_ok = match &parts.path_segments {
        Some(segments) => {
            let ghost sv = segments@.map_values(|s: String| s@);
            if segments.len() >= 3 {
                assert(sv[0] == segments@[0]@ && sv[1] == segments@[1]@ && sv[2] == segments@[2]@);
                let user_ok = segments[0].as_str().unicode_len() > 0;
                let status_ok = text_eq(segments[1].as_str(), "status");
                let id_ok = segments[2].as_str().unicode_len() > 0;
                user_ok && status_ok && id_ok
            } else {
                false
            }
        },
        None => false,
    };
    scheme_ok && host_ok && path_ok
}

/// What `rewrite_url` gives for `input`: the trimmed input must be one token
/// without white space that parses as a post link; it is then rewritten to
/// the target's host.
pub open spec fn rewritten_link(input: Seq<char>, target: RewriteTarget) -> Option<Seq<char>> {
    let t = trim(input);
    if t.len() == 0 || has_white_space(t) {
        None
    } else if !url_parses(t) {
        None
    } else if !is_post_link(url_scheme(t), url_host_str(t), url_path_segments(t)) {
        None
    } else {
        url_with_host(t, target_host(target))
    }
}

/// Rewrites a copied `x.com` post link to the host of `target`, keeping
/// scheme, path, query and fragment; `None` for anything else.
pub fn rewrite_url(input: &str, target: RewriteTarget) -> (res: Option<String>)
    ensures
        opt_text(res) == rewritten_link(input@, target),
{
    let cs = chars_of(input);
    let (i, j) = trimmed_bounds(&cs);
    if i == j || any_whitespace(&cs, i, j) {
        return None;
    }
    let trimmed = input.substring_char(i, j);
    let parts = match parse_url(trimmed) {
        Some(p) => p,
        None => return None,
    };
    if !is_post_url(&parts) {
        return None;
    }
    serialize_with_host(trimmed, target.host())
}


/// What one change of the clipboard leads to: the new memory of the last
/// text that the program wrote itself, and the text to write, if any.
///
/// Rewriting off: nothing happens.  The clipboard holds what the program
/// wrote last: that is forgotten and nothing is written.  Otherwise the
/// rewritten link is written where there is one and it differs from the text.
pub open spec fn clipboard_step(
    last_write: Option<Seq<char>>,
    config: AppConfig,
    text: Seq<char>,
) -> (Option<Seq<char>>, Option<Seq<char>>) {
    if !config.enabled {
        (last_write, None)
    } else if last_write == Some(text) {
        (None, None)
    } else {
        match rewritten_link(text, config.target) {
            Some(r) => if r == text {
                (last_write, None)
            } else {
                (last_write, Some(r))
            },
            None => (last_write, None),
        }
    }
}

/// The clipboard watcher's memory of what it wrote itself, so that its own
/// write, which shows up as one more change of the clipboard, is not taken
/// for a new copy.
pub struct ClipboardWatcher {
    last_clipboard_write: Option<String>,
}

impl ClipboardWatcher {
    /// The text that the watcher wrote last and has not seen come back yet.
    pub closed spec fn last_write(&self) -> Option<Seq<char>> {
        opt_text(self.last_clipboard_write)
    }

    /// A watcher that has written nothing.
    pub fn new() -> (res: ClipboardWatcher)
        ensures
            res.last_write() is None,
    {
        ClipboardWatcher { last_clipboard_write: None }
    }

    /// Whether the clipboard needs reading at all.
    pub fn wants_clipboard(&self, config: &AppConfig) -> (res: bool)
        ensures
            res == config.enabled,
    {
        config.enabled
    }

    /// Takes the text that the clipboard now holds and returns the text to
    /// write back, if any.
    pub fn on_clipboard_text(&mut self, config: &AppConfig, text: &str) -> (res: Option<String>)
        ensures
            (final(self).last_write(), opt_text(res)) == clipboard_step(
                old(self).last_write(),
                *config,
                text@,
            ),
    {
        if !config.enabled {
            return None;
        }
        let seen_own_write = match &self.last_clipboard_write {
            Some(last) => text_eq(last.as_str(), text),
            None => false,
        };
        if seen_own_write {
            self.last_clipboard_write = None;
            return None;
        }
        match rewrite_url(text, config.target) {
            Some(rewritten) => {
                if text_eq(rewritten.as_str(), text) {
                    None
                } else {
                    Some(rewritten)
                }
            },
            None => None,
        }
    }

    /// Records the outcome of writing `written` to the clipboard.
    pub fn on_write_finished(&mut self, written: String, succeeded: bool)
        ensures
            final(self).last_write() == (if succeeded {
                Some(written@)
            } else {
                old(self).last_write()
            }),
    {
        if succeeded {
            self.last_clipboard_write = Some(written);
        }
    }
}


/// Copying a link with white space before or after it rewrites it just as
/// copying the bare link does.
pub proof fn law_surrounding_white_space_ignored(
    before: Seq<char>,
    link: Seq<char>,
    after: Seq<char>,
    target: RewriteTarget,
)
    requires
        forall|k: int| 0 <= k < before.len() ==> is_white_space(#[trigger] before[k]),
        forall|k: int| 0 <= k < after.len() ==> is_white_space(#[trigger] after[k]),
    ensures
        rewritten_link(before + link + after, target) == rewritten_link(link, target),
{
    lemma_trim_white_padding(before, link, after);
}

/// Text that holds white space between its first and last visible
/// characters, such as a sentence around a link, is never rewritten.
pub proof fn law_text_around_link_ignored(input: Seq<char>, target: RewriteTarget)
    requires
        has_white_space(trim(input)),
    ensures
        rewritten_link(input, target) is None,
{
}

/// Only `http` or `https` links to `x.com` of the form
/// `<user>/status/<id>` are rewritten, and then to the target's host.
pub proof fn law_only_post_links_rewritten(input: Seq<char>, target: RewriteTarget)
    requires
        rewritten_link(input, target) is Some,
    ensures
        trim(input).len() > 0,
        !has_white_space(trim(input)),
        url_parses(trim(input)),
        url_scheme(trim(input)) == "http"@ || url_scheme(trim(input)) == "https"@,
        url_host_str(trim(input)) == Some("x.com"@),
        url_path_segments(trim(input)) matches Some(s) && {
            &&& s.len() >= 3
            &&& s[0].len() > 0
            &&& s[1] == "status"@
            &&& s[2].len() > 0
        },
        rewritten_link(input, target) == url_with_host(trim(input), target_host(target)),
{
}

/// Every copied post link is rewritten, whatever the length of the user
/// name, of the post id and of any later path segments: a single token that
/// parses as an `http` or `https` URL on `x.com` whose path starts with a
/// non-empty user, `status` and a non-empty id gets the target's host.
pub proof fn law_post_links_rewritten(input: Seq<char>, target: RewriteTarget)
    requires
        trim(input).len() > 0,
        !has_white_space(trim(input)),
        url_parses(trim(input)),
        url_scheme(trim(input)) == "http"@ || url_scheme(trim(input)) == "https"@,
        url_host_str(trim(input)) == Some("x.com"@),
        url_path_segments(trim(input)) matches Some(s) && {
            &&& s.len() >= 3
            &&& s[0].len() > 0
            &&& s[1] == "status"@
            &&& s[2].len() > 0
        },
    ensures
        rewritten_link(input, target) == url_with_host(trim(input), target_host(target)),
{
}

/// The two targets rewrite to `fxtwitter.com` and `vxtwitter.com`.
pub proof fn law_target_hosts(target: RewriteTarget)
    ensures
        target == RewriteTarget::Fx ==> target_host(target) == "fxtwitter.com"@,
        target == RewriteTarget::Vx ==> target_host(target) == "vxtwitter.com"@,
        target_host(RewriteTarget::Fx) != target_host(RewriteTarget::Vx),
{
    reveal_strlit("fxtwitter.com");
    reveal_strlit("vxtwitter.com");
    assert("fxtwitter.com"@[0] != "vxtwitter.com"@[0]);
}

/// Links that already point at a mirror host are left alone.
pub proof fn law_mirror_links_ignored(input: Seq<char>, target: RewriteTarget, mirror: RewriteTarget)
    requires
        url_host_str(trim(input)) == Some(target_host(mirror)),
    ensures
        rewritten_link(input, target) is None,
{
    reveal_strlit("x.com");
    reveal_strlit("fxtwitter.com");
    reveal_strlit("vxtwitter.com");
    assert(target_host(mirror).len() != "x.com"@.len());
}

/// When the program's own write comes back as a change of the clipboard, it
/// is not rewritten again, and the memory of it is cleared.
pub proof fn law_own_write_not_rewritten(written: Seq<char>, config: AppConfig)
    requires
        config.enabled,
    ensures
        clipboard_step(Some(written), config, written) == (None::<Seq<char>>, None::<Seq<char>>),
{
}

/// With rewriting off, a change of the clipboard writes nothing and leaves
/// the watcher as it was.
pub proof fn law_disabled_watcher_inert(
    last_write: Option<Seq<char>>,
    config: AppConfig,
    text: Seq<char>,
)
    requires
        !config.enabled,
    ensures
        clipboard_step(last_write, config, text) == (last_write, None::<Seq<char>>),
{
}

/// With rewriting on, a copied link that rewrites to something new is
/// written back, and the memory of the last write is kept as it was.
pub proof fn law_rewrites_written(
    last_write: Option<Seq<char>>,
    config: AppConfig,
    text: Seq<char>,
    rewritten: Seq<char>,
)
    requires
        config.enabled,
        last_write != Some(text),
        rewritten_link(text, config.target) == Some(rewritten),
        rewritten != text,
    ensures
        clipboard_step(last_write, config, text) == (last_write, Some(rewritten)),
{
}

/// Text that does not rewrite leaves the clipboard alone and the watcher's
/// memory as it was, unless it is the program's own last write.
pub proof fn law_unrewritable_text_left_alone(
    last_write: Option<Seq<char>>,
    config: AppConfig,
    text: Seq<char>,
)
    requires
        last_write != Some(text),
        rewritten_link(text, config.target) is None,
    ensures
        clipboard_step(last_write, config, text) == (last_write, None::<Seq<char>>),
{
}

/// The watcher writes only a rewritten link, and never the text that the
/// clipboard already holds.
pub proof fn law_writes_are_rewrites(
    last_write: Option<Seq<char>>,
    config: AppConfig,
    text: Seq<char>,
)
    requires
        clipboard_step(last_write, config, text).1 is Some,
    ensures
        config.enabled,
        rewritten_link(text, config.target) == clipboard_step(last_write, config, text).1,
        clipboard_step(last_write, config, text).1 != Some(text),
{
}

} // verus!
