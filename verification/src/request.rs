//! Building request URLs, judging response statuses, and keeping the HTTP
//! client's proxy in step with a proxy provider.

use vstd::prelude::*;
use crate::builder::opt_text;
use crate::download::opt_str;
use crate::error::Error;
use crate::text::{nat_text, push_nat_text, trim_end_char, trim_end_matches_char, trim_start_char, trim_start_matches_char};

verus! {

/// The URL of a request: `base` and `path` joined by exactly one `/` (every
/// `/` at the end of `base` and at the start of `path` is dropped), or
/// `base` alone without a path.
pub open spec fn spec_request_url(base: Seq<char>, path: Option<Seq<char>>) -> Seq<char> {
    match path {
        Some(p) => trim_end_char(base, '/') + seq!['/'] + trim_start_char(p, '/'),
        None => base,
    }
}

/// The URL of a request for `path` under `base_url`.
pub fn request_url(base_url: &str, path: Option<&str>) -> (u: String)
    ensures
        u@ == spec_request_url(base_url@, opt_str(path)),
        path is None ==> u@ == base_url@,
{
    match path {
        Some(p) => {
            let mut u = trim_end_matches_char(base_url, '/').to_string();
            u.append("/");
            u.append(trim_start_matches_char(p, '/'));
            proof {
                reveal_strlit("/");
                assert(u@ =~= spec_request_url(base_url@, opt_str(path)));
            }
            u
        },
        None => base_url.to_string(),
    }
}

proof fn lemma_trim_end_push(s: Seq<char>, c: char)
    ensures
        trim_end_char(s.push(c), c) == trim_end_char(s, c),
{
    assert(s.push(c).drop_last() =~= s);
}

proof fn lemma_trim_start_prepend(s: Seq<char>, c: char)
    ensures
        trim_start_char(seq![c] + s, c) == trim_start_char(s, c),
{
    assert((seq![c] + s).drop_first() =~= s);
}

/// Without a path the request URL is the base URL exactly; with a path
/// where neither side brings a slash to the seam, it is the base URL, one
/// `/` and the path.
pub proof fn lemma_request_url_plain_join(base: Seq<char>, path: Seq<char>)
    ensures
        spec_request_url(base, None) == base,
        (base.len() == 0 || base.last() != '/') && (path.len() == 0 || path[0] != '/')
            ==> spec_request_url(base, Some(path)) == base + seq!['/'] + path,
{
}

/// Slashes at the seam do not matter: a `/` more at the end of the base URL
/// or at the start of the path gives the same request URL.
pub proof fn lemma_request_url_ignores_seam_slashes(base: Seq<char>, path: Seq<char>)
    ensures
        spec_request_url(base.push('/'), Some(path)) == spec_request_url(base, Some(path)),
        spec_request_url(base, Some(seq!['/'] + path)) == spec_request_url(base, Some(path)),
{
    lemma_trim_end_push(base, '/');
    lemma_trim_start_prepend(path, '/');
}

proof fn lemma_trim_end_leaves_no_c(s: Seq<char>, c: char)
    ensures
        trim_end_char(s, c).len() == 0 || trim_end_char(s, c).last() != c,
    decreases s.len(),
{
    if s.len() > 0 && s.last() == c {
        lemma_trim_end_leaves_no_c(s.drop_last(), c);
    }
}

proof fn lemma_trim_start_leaves_no_c(s: Seq<char>, c: char)
    ensures
        trim_start_char(s, c).len() == 0 || trim_start_char(s, c)[0] != c,
    decreases s.len(),
{
    if s.len() > 0 && s[0] == c {
        lemma_trim_start_leaves_no_c(s.drop_first(), c);
    }
}

/// Exactly one `/` stands at the seam of a request URL with a path: the
/// base part before it does not end with `/` and the path part after it does
/// not start with one.
pub proof fn lemma_request_url_single_seam_slash(base: Seq<char>, path: Seq<char>)
    ensures
        ({
            let head = trim_end_char(base, '/');
            let tail = trim_start_char(path, '/');
            &&& spec_request_url(base, Some(path)) == head + seq!['/'] + tail
            &&& head.len() == 0 || head.last() != '/'
            &&& tail.len() == 0 || tail[0] != '/'
        }),
{
    lemma_trim_end_leaves_no_c(base, '/');
    lemma_trim_start_leaves_no_c(path, '/');
}

/// Whether a response with this status code succeeded (2xx).
pub fn is_success_status(status: u16) -> (r: bool)
    ensures
        r == (200 <= status && status <= 299),
{
    200 <= status && status <= 299
}

/// The error for a response that did not succeed: `HTTP {status}: {body}`,
/// carrying the status code.
pub fn http_error(status: u16, body: &str) -> (e: Error)
    ensures
        e.status == Some(status),
        e.message@ == "HTTP "@ + nat_text(status as nat) + ": "@ + body@,
{
    let mut message = String::new();
    message.append("HTTP ");
    push_nat_text(&mut message, status as u64);
    message.append(": ");
    message.append(body);
    proof {
        assert(message@ =~= "HTTP "@ + nat_text(status as nat) + ": "@ + body@);
    }
    Error::with_status(status, message)
}

/// Whether the HTTP client is to be rebuilt for the proxy `desired` when it
/// was built for `active`.
pub open spec fn rebuild_needed(active: Option<Seq<char>>, desired: Option<Seq<char>>) -> bool {
    active != desired
}

/// The proxy the HTTP client uses after an attempt to rebuild it for `desired`.
pub open spec fn active_after(active: Option<Seq<char>>, desired: Option<Seq<char>>, rebuilt: bool) -> Option<Seq<char>> {
    if rebuilt {
        desired
    } else {
        active
    }
}

/// The proxy that the HTTP client was built with.
#[derive(Debug)]
pub struct ProxyState {
    /// The proxy URL of the current HTTP client, if any.
    pub active: Option<String>,
}

fn same_text(a: &Option<String>, b: &Option<String>) -> (r: bool)
    ensures
        r == (opt_text(*a) == opt_text(*b)),
{
    match a {
        Some(x) => match b {
            Some(y) => x.eq(y),
            None => false,
        },
        None => b.is_none(),
    }
}

impl ProxyState {
    /// The state of a client built with `proxy_url`.
    pub fn new(proxy_url: &Option<String>) -> (s: Self)
        ensures
            opt_text(s.active) == opt_text(*proxy_url),
    {
        ProxyState { active: crate::response::clone_opt_string(proxy_url) }
    }

    /// Whether the HTTP client is to be rebuilt because the provider now
    /// asks for `desired`.
    pub fn needs_rebuild(&self, desired: &Option<String>) -> (r: bool)
        ensures
            r == rebuild_needed(opt_text(self.active), opt_text(*desired)),
            r == (opt_text(self.active) != opt_text(*desired)),
    {
        !same_text(&self.active, desired)
    }

    /// Records the outcome of rebuilding the HTTP client for `desired`: on
    /// success it uses `desired`, on failure it keeps its proxy.
    pub fn record_rebuild(&mut self, desired: Option<String>, rebuilt: bool)
        ensures
            opt_text(final(self).active) == active_after(opt_text(old(self).active), opt_text(desired), rebuilt),
    {
        if rebuilt {
            self.active = desired;
        }
    }
}

/// The client is rebuilt exactly when the wanted proxy differs from the
/// active one, also when going from no proxy to one or from one to none;
/// and a client rebuilt whenever that is needed ends up on the wanted proxy.
pub proof fn lemma_rebuild_follows_provider(active: Option<Seq<char>>, desired: Option<Seq<char>>)
    ensures
        rebuild_needed(active, desired) <==> active != desired,
        active is None && desired is Some ==> rebuild_needed(active, desired),
        active is Some && desired is None ==> rebuild_needed(active, desired),
        active_after(active, desired, rebuild_needed(active, desired)) == desired,
{
}

/// Refreshing settles: once the client was rebuilt for the proxy that the
/// provider asks for, asking again for that proxy rebuilds nothing; a failed
/// rebuild leaves the proxy as it was, so the next request tries again.
pub proof fn lemma_proxy_refresh_settles(active: Option<Seq<char>>, desired: Option<Seq<char>>)
    ensures
        !rebuild_needed(active_after(active, desired, true), desired),
        active_after(active, desired, false) == active,
        rebuild_needed(active, desired) ==> rebuild_needed(active_after(active, desired, false), desired),
{
}

} // verus!
