//! Discovering a client id: the script URLs of the SoundCloud page, the
//! client id in a script, and the first id found among the scripts.

use vstd::prelude::*;
use crate::builder::opt_text;
use crate::download::is_error;
use crate::error::Error;
use crate::text::{contains_text, has_infix};

verus! {

/// The pattern of the script URLs in the SoundCloud page.
pub const SCRIPT_URL_PATTERN: &'static str = "https?://[^\\s\"]+\\.js";

/// The pattern of a client id in a script; group 1 is the id.
pub const CLIENT_ID_PATTERN: &'static str = "client_id[:=]\"?(\\w{32})";

/// The host that serves SoundCloud's own scripts.
pub const SCRIPT_HOST: &'static str = "sndcdn.com";

/// The texts of the matches of the regular expression `pattern` in
/// `haystack`, in order (successive non-overlapping leftmost-first matches),
/// or `None` when `pattern` is not a valid regular expression.
pub uninterp spec fn regex_find_all(pattern: Seq<char>, haystack: Seq<char>) -> Option<Seq<Seq<char>>>;

/// For the first match of `pattern` in `haystack`, the text of capture group
/// `group` (`None` when nothing matches or the group took no part); `None`
/// at the outer level when `pattern` is not a valid regular expression.
pub uninterp spec fn regex_first_capture(pattern: Seq<char>, haystack: Seq<char>, group: nat) -> Option<Option<Seq<char>>>;

/// The texts of a sequence of strings.
pub open spec fn texts(v: Seq<String>) -> Seq<Seq<char>> {
    v.map_values(|s: String| s@)
}

/// Calls `regex::Regex::new` and then `Regex::find_iter`: claims that the
/// result is `None` exactly when the pattern does not compile, and
/// otherwise the texts of the matches, which are what `regex_find_all` names.
#[verifier::external_body]
fn find_all_matches(pattern: &str, haystack: &str) -> (r: Option<Vec<String>>)
    ensures
        match regex_find_all(pattern@, haystack@) {
            None => r is None,
            Some(ms) => match r {
                Some(v) => texts(v@) == ms,
                None => false,
            },
        },
{
    match regex::Regex::new(pattern) {
        Ok(re) => Some(re.find_iter(haystack).map(|m| m.as_str().to_string()).collect()),
        Err(_) => None,
    }
}

/// Calls `regex::Regex::new`, then `Regex::captures_iter` and takes the
/// first captures, then `Captures::get` of `group`: claims that the result
/// is what `regex_first_capture` names.
#[verifier::external_body]
fn first_capture(pattern: &str, haystack: &str, group: usize) -> (r: Option<Option<String>>)
    ensures
        match regex_first_capture(pattern@, haystack@, group as nat) {
            None => r is None,
            Some(None) => r == Some(None::<String>),
            Some(Some(c)) => match r {
                Some(Some(s)) => s@ == c,
                _ => false,
            },
        },
{
    match regex::Regex::new(pattern) {
        Ok(re) => Some(re.captures_iter(haystack).next().and_then(|c| c.get(group)).map(|m| m.as_str().to_string())),
        Err(_) => None,
    }
}

/// A script URL that SoundCloud serves itself.
pub open spec fn is_own_script(url: Seq<char>) -> bool {
    has_infix(url, SCRIPT_HOST@)
}

/// The test that keeps a script URL.
pub open spec fn own_script_filter() -> spec_fn(Seq<char>) -> bool {
    |u: Seq<char>| is_own_script(u)
}

/// The script URLs found in the SoundCloud page: the matches of
/// [`SCRIPT_URL_PATTERN`] that contain `sndcdn.com`, in order.
pub open spec fn spec_script_urls(page: Seq<char>) -> Seq<Seq<char>> {
    match regex_find_all(SCRIPT_URL_PATTERN@, page) {
        Some(ms) => ms.filter(own_script_filter()),
        None => Seq::empty(),
    }
}

/// The candidates of `candidates` that contain `sndcdn.com`, in order.
pub fn own_scripts(candidates: Vec<String>) -> (urls: Vec<String>)
    ensures
        texts(urls@) == texts(candidates@).filter(own_script_filter()),
{
    let ghost pred = own_script_filter();
    let mut urls: Vec<String> = Vec::new();
    let n = candidates.len();
    let mut i: usize = 0;
    while i < n
        invariant
            n == candidates@.len(),
            i <= n,
            pred == own_script_filter(),
            texts(urls@) == texts(candidates@).take(i as int).filter(pred),
        decreases n - i,
    {
        let u = &candidates[i];
        let keep = contains_text(u.as_str(), SCRIPT_HOST);
        let ghost before = urls@;
        proof {
            let all = texts(candidates@);
            assert(all.take(i + 1) =~= all.take(i as int).push(u@));
            all.take(i as int).lemma_filter_push(u@, pred);
            assert(keep == pred(u@));
        }
        if keep {
            urls.push(u.clone());
            proof {
                assert(texts(urls@) =~= texts(before).push(u@));
            }
        }
        i = i + 1;
    }
    assert(texts(candidates@).take(n as int) =~= texts(candidates@));
    urls
}

/// The script URLs found in the text of the SoundCloud page.
pub fn script_urls(page: &str) -> (urls: Vec<String>)
    ensures
        texts(urls@) == spec_script_urls(page@),
{
    match find_all_matches(SCRIPT_URL_PATTERN, page) {
        Some(candidates) => own_scripts(candidates),
        None => {
            let none: Vec<String> = Vec::new();
            assert(texts(none@) =~= Seq::<Seq<char>>::empty());
            none
        },
    }
}

/// The client id in a script: group 1 of the first match of
/// [`CLIENT_ID_PATTERN`].
pub open spec fn spec_client_id_in(script: Seq<char>) -> Option<Seq<char>> {
    match regex_first_capture(CLIENT_ID_PATTERN@, script, 1) {
        Some(c) => c,
        None => None,
    }
}

/// The client id in the text of a script, if it holds one.
pub fn find_client_id(script: &str) -> (id: Option<String>)
    ensures
        opt_text(id) == spec_client_id_in(script@),
{
    match first_capture(CLIENT_ID_PATTERN, script, 1) {
        Some(found) => found,
        None => None,
    }
}

/// The first client id in `found`, which holds what each script yielded in
/// the order the scripts were searched; fails with "Client ID not found".
pub fn first_client_id(found: Vec<Option<String>>) -> (r: Result<String, Error>)
    ensures
        match r {
            Ok(id) => exists|i: int|
                0 <= i < found@.len() && #[trigger] found@[i] == Some(id)
                    && forall|j: int| 0 <= j < i ==> (#[trigger] found@[j]) is None,
            Err(e) => {
                &&& forall|i: int| 0 <= i < found@.len() ==> (#[trigger] found@[i]) is None
                &&& is_error(e, "Client ID not found"@)
            },
        },
{
    let n = found.len();
    let mut i: usize = 0;
    while i < n
        invariant
            n == found@.len(),
            i <= n,
            forall|j: int| 0 <= j < i ==> (#[trigger] found@[j]) is None,
        decreases n - i,
    {
        match &found[i] {
            Some(id) => {
                let r = id.clone();
                assert(found@[i as int] == Some(r));
                return Ok(r);
            },
            None => {},
        }
        i = i + 1;
    }
    Err(Error::new("Client ID not found"))
}

} // verus!
