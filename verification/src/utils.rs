//! Locator handling: the host of a repository URL, the owner/name path, the
//! repository name, the ssh clone URL, and the run manifest (a JSON list of
//! locator strings).

use crate::strutil::{after_last, after_nth, after_last_str, after_nth_str, concat5, ends_with};
use vstd::prelude::*;

verus! {

/// The registrable domain of `s` when it parses as a URL with a domain host,
/// and nothing otherwise. A function of the string alone.
pub uninterp spec fn url_host(s: Seq<char>) -> Option<Seq<char>>;

/// Relies on `reqwest::Url::parse` (the `url` crate's parser) and
/// `Url::domain`: both are deterministic functions of the input string.
#[verifier::external_body]
pub fn get_url_host(url: &str) -> (r: Option<String>)
    ensures
        r is Some <==> url_host(url@) is Some,
        r is Some ==> r.unwrap()@ == url_host(url@).unwrap(),
{
    match reqwest::Url::parse(url) {
        Ok(val) => val.domain().map(|d| d.to_string()),
        Err(_) => None,
    }
}

/// The list of strings held by `s` when it parses as a JSON array of strings;
/// nothing when it does not parse or some element is not a string. A function
/// of the text alone.
pub uninterp spec fn locator_list(s: Seq<char>) -> Option<Seq<Seq<char>>>;

/// Relies on `serde_json::from_str::<Value>` and `Value::{as_array, as_str}`:
/// parsing is a deterministic function of the text, and the element accessors
/// only read the parsed value.
#[verifier::external_body]
fn parse_string_array(data: &str) -> (r: Option<Vec<String>>)
    ensures
        r is Some <==> locator_list(data@) is Some,
        r is Some ==> r.unwrap().deep_view() == locator_list(data@).unwrap(),
{
    let value: serde_json::Value = serde_json::from_str(data).ok()?;
    let arr = value.as_array()?;
    arr.iter().map(|v| v.as_str().map(|s| s.to_string())).collect()
}

/// The locator strings of the run manifest text: the parsed JSON array when
/// there is one, and no locators at all when the text is not an array of
/// strings.
pub fn parse_json(data: &str) -> (r: Vec<String>)
    ensures
        locator_list(data@) is Some ==> r.deep_view() == locator_list(data@).unwrap(),
        locator_list(data@) is None ==> r.deep_view() == Seq::<Seq<char>>::empty(),
{
    match parse_string_array(data) {
        Some(list) => list,
        None => {
            let r: Vec<String> = Vec::new();
            assert(r.deep_view() =~= Seq::<Seq<char>>::empty());
            r
        },
    }
}

/// Whether the run manifest text parses as a JSON array of strings, so that
/// a caller can report a manifest it had to discard instead of passing over
/// it in silence.
pub fn manifest_parses(data: &str) -> (r: bool)
    ensures
        r == (locator_list(data@) is Some),
{
    parse_string_array(data).is_some()
}

/// The first `max_chars` characters of `s`; all of `s` when it is shorter.
pub fn truncate<'a>(s: &'a str, max_chars: usize) -> (r: &'a str)
    ensures
        r@ == if s@.len() <= max_chars {
            s@
        } else {
            s@.take(max_chars as int)
        },
{
    let n = s.unicode_len();
    if n <= max_chars {
        s
    } else {
        let r = s.substring_char(0, max_chars);
        proof {
            assert(s@.subrange(0, max_chars as int) =~= s@.take(max_chars as int));
        }
        r
    }
}

/// `s` with a trailing `.git` removed, when it has one.
pub open spec fn strip_dot_git(s: Seq<char>) -> Seq<char> {
    if ".git"@.is_suffix_of(s) {
        s.take(s.len() - ".git"@.len())
    } else {
        s
    }
}

/// The owner/name path of a repository URL: everything after the third `/`
/// (that is, after the scheme and the host), with a trailing `.git` removed.
pub open spec fn repo_path_spec(url: Seq<char>) -> Seq<char> {
    strip_dot_git(after_nth(url, '/', 3))
}

/// The owner/name path of the locator `git_url`.
pub fn get_git_repo_path(git_url: &str) -> (r: String)
    ensures
        r@ == repo_path_spec(git_url@),
{
    let path = after_nth_str(git_url, '/', 3);
    proof {
        reveal_strlit(".git");
    }
    if ends_with(path, ".git") {
        let n = path.unicode_len();
        let head = path.substring_char(0, n - 4);
        proof {
            assert(path@.subrange(0, n - 4) =~= path@.take(path@.len() - ".git"@.len()));
        }
        String::from_str(head)
    } else {
        String::from_str(path)
    }
}

/// The repository name of a URL: the last segment of its owner/name path.
pub open spec fn repo_name_spec(url: Seq<char>) -> Seq<char> {
    after_last(repo_path_spec(url), '/')
}

/// The repository name of the locator `git_url`.
pub fn get_repo_name(git_url: &str) -> (r: String)
    ensures
        r@ == repo_name_spec(git_url@),
{
    let repo_path = get_git_repo_path(git_url);
    let name = after_last_str(repo_path.as_str(), '/');
    String::from_str(name)
}

/// The ssh clone URL of a locator: `git@{host}:{owner/name}.git`, with an
/// empty host part when the locator has no parseable domain.
pub open spec fn ssh_url_spec(url: Seq<char>) -> Seq<char> {
    "git@"@ + (match url_host(url) {
        Some(h) => h,
        None => Seq::<char>::empty(),
    }) + ":"@ + repo_path_spec(url) + ".git"@
}

/// The ssh clone URL of the locator `git_url`.
pub fn get_git_ssh_url(git_url: &str) -> (r: String)
    ensures
        r@ == ssh_url_spec(git_url@),
{
    let host = match get_url_host(git_url) {
        Some(h) => h,
        None => String::new(),
    };
    let repo_path = get_git_repo_path(git_url);
    concat5("git@", host.as_str(), ":", repo_path.as_str(), ".git")
}

} // verus!
