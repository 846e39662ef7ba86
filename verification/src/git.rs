//! Repository acquisition logic: which host a locator belongs to, how the
//! clone subprocess is invoked, and which branch a working copy has checked
//! out.

pub mod github;

use crate::strutil::{after_last, after_last_str, concat2};
use crate::utils::{get_url_host, url_host};
use vstd::prelude::*;

verus! {

/// `s` with every trailing newline removed.
pub open spec fn trim_newlines(s: Seq<char>) -> Seq<char>
    decreases s.len(),
{
    if s.len() > 0 && s.last() == '\n' {
        trim_newlines(s.drop_last())
    } else {
        s
    }
}

/// The branch named by the content of a head-reference file: the final
/// `/`-separated segment, without trailing newlines. A missing or unreadable
/// file yields the default branch name.
pub open spec fn branch_of(head: Option<Seq<char>>) -> Seq<char> {
    match head {
        Some(content) => trim_newlines(after_last(content, '/')),
        None => "master"@,
    }
}

/// The checked-out branch, from the content of the working copy's
/// head-reference file; `master` when that file could not be read.
pub fn get_branch_name(head: Option<&str>) -> (r: String)
    ensures
        r@ == branch_of(match head {
            Some(h) => Some(h@),
            None => None,
        }),
{
    match head {
        Some(content) => {
            let seg = after_last_str(content, '/');
            let mut n = seg.unicode_len();
            proof {
                assert(seg@.take(n as int) =~= seg@);
            }
            while n > 0 && seg.get_char(n - 1) == '\n'
                invariant
                    n <= seg@.len(),
                    trim_newlines(seg@) == trim_newlines(seg@.take(n as int)),
                decreases n,
            {
                proof {
                    assert(seg@.take(n as int).last() == '\n');
                    assert(seg@.take(n as int).drop_last() =~= seg@.take(n - 1));
                }
                n = n - 1;
            }
            proof {
                if n > 0 {
                    assert(seg@.take(n as int).last() != '\n');
                }
                assert(trim_newlines(seg@.take(n as int)) == seg@.take(n as int));
            }
            let out = seg.substring_char(0, n);
            proof {
                assert(seg@.subrange(0, n as int) =~= seg@.take(n as int));
                assert(seg@.take(seg@.len() as int) =~= seg@);
            }
            String::from_str(out)
        },
        None => String::from_str("master"),
    }
}

/// The hosting providers the pipeline knows how to resolve.
#[derive(PartialEq, Eq, Structural, Clone, Copy, Debug)]
pub enum HostKind {
    Github,
    Gitlab,
}

/// Which provider a locator belongs to: `github.com` and `gitlab.com` are
/// recognized; a locator without a parseable domain, or with any other
/// domain, is rejected with the exact error message.
pub fn get_repo(git_url: &str) -> (r: Result<HostKind, String>)
    ensures
        match r {
            Ok(kind) => {
                &&& url_host(git_url@) is Some
                &&& (kind == HostKind::Github <==> url_host(git_url@).unwrap() == "github.com"@)
                &&& (kind == HostKind::Gitlab <==> url_host(git_url@).unwrap() == "gitlab.com"@)
            },
            Err(msg) => match url_host(git_url@) {
                None => msg@ == "Invalid git url "@ + git_url@,
                Some(h) => h != "github.com"@ && h != "gitlab.com"@ && msg@
                    == "Unsupported git host: "@ + h,
            },
        },
{
    proof {
        reveal_strlit("github.com");
        reveal_strlit("gitlab.com");
        assert(("github.com")@[3] == 'h');
        assert(("gitlab.com")@[3] == 'l');
    }
    match get_url_host(git_url) {
        None => Err(concat2("Invalid git url ", git_url)),
        Some(host) => {
            if crate::strutil::str_eq(host.as_str(), "github.com") {
                Ok(HostKind::Github)
            } else if crate::strutil::str_eq(host.as_str(), "gitlab.com") {
                Ok(HostKind::Gitlab)
            } else {
                Err(concat2("Unsupported git host: ", host.as_str()))
            }
        },
    }
}

/// The clone step for a destination that may already hold the working copy:
/// nothing to run when it does (an idempotent success), and otherwise the
/// argument list of the clone subprocess, run with the destination root as
/// working directory.
pub fn clone_repo(already_cloned: bool, ssh_url: &str, repo_name: &str) -> (r: Option<Vec<String>>)
    ensures
        r is None <==> already_cloned,
        r is Some ==> r.unwrap().deep_view() =~= seq!["clone"@, ssh_url@, repo_name@],
{
    if already_cloned {
        None
    } else {
        let mut args: Vec<String> = Vec::new();
        args.push(String::from_str("clone"));
        args.push(String::from_str(ssh_url));
        args.push(String::from_str(repo_name));
        Some(args)
    }
}

/// The working-copy path of a repository inside the destination root.
pub fn cloned_dir(repo_dir: &str, repo_name: &str) -> (r: String)
    ensures
        r@ == repo_dir@ + "/"@ + repo_name@,
{
    crate::strutil::concat3(repo_dir, "/", repo_name)
}

/// The path of the head-reference file inside a working copy.
pub fn head_file_path(dir: &str) -> (r: String)
    ensures
        r@ == dir@ + "/.git/HEAD"@,
{
    concat2(dir, "/.git/HEAD")
}

} // verus!
