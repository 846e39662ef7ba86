//! The indexing pipeline's core: per-repository metadata, path-derived
//! document identifiers, the highlight batcher that groups rendered rows
//! into size-bounded chunks, and the insert-vs-append write plan.

use crate::parser::{classify_spec, is_denylisted, file_name_of, newline_terminated, read_file, render_guard, render_html, render_ready, rendered_html, renderer_tag};
use crate::solr::client::{AddString, GitFile, GithubFileUpdate};
use crate::strutil::{before_first, before_first_str, before_last, before_last_str, concat2, concat3, concat5, starts_with, str_eq};
use crate::utils::{get_repo_name, get_url_host, repo_name_spec, url_host};
use vstd::prelude::*;

verus! {

/// Everything the pipeline knows about one file while it is indexed.
pub struct MetaIndexFile {
    /// The file's path, below the working-copy root.
    pub path: String,
    /// The working-copy root the file lies under.
    pub root: String,
    /// The repository's owner/name path.
    pub git_repo: String,
    /// The resolved owner id, or its sentinel.
    pub user_id: String,
    /// The checked-out branch.
    pub branch: String,
    /// The search backend's base URL.
    pub base_url: String,
    /// The repository's host.
    pub git_host: String,
}

/// One repository's indexing run: where its working copy lives, where its
/// chunks are written, and what it is called.
pub struct Indexer {
    pub repo_dir: String,
    pub git_url: String,
    pub base_url: String,
    pub with_delete_dir: bool,
    pub git_host: String,
    pub repo_name: String,
}

impl Indexer {
    /// A run over one locator: the host defaults to `github.com` when the
    /// locator has no parseable domain, and the repository name is the last
    /// segment of its owner/name path.
    pub fn new(repo_dir: String, git_url: &str, base_url: &str, with_delete_dir: bool) -> (r: Self)
        ensures
            r.repo_dir == repo_dir,
            r.git_url@ == git_url@,
            r.base_url@ == base_url@,
            r.with_delete_dir == with_delete_dir,
            r.git_host@ == match url_host(git_url@) {
                Some(h) => h,
                None => "github.com"@,
            },
            r.repo_name@ == repo_name_spec(git_url@),
    {
        let git_host = match get_url_host(git_url) {
            Some(h) => h,
            None => String::from_str("github.com"),
        };
        let repo_name = get_repo_name(git_url);
        Indexer {
            repo_dir,
            git_url: String::from_str(git_url),
            base_url: String::from_str(base_url),
            with_delete_dir,
            git_host,
            repo_name,
        }
    }

    /// Where the working copy is removed after indexing: only when the
    /// delete flag was set, and then exactly the working copy's directory.
    pub fn after_index_action(&self) -> (r: Option<String>)
        ensures
            r is Some <==> self.with_delete_dir,
            r is Some ==> r.unwrap()@ == self.repo_dir@ + "/"@ + self.repo_name@,
    {
        if self.with_delete_dir {
            Some(concat3(self.repo_dir.as_str(), "/", self.repo_name.as_str()))
        } else {
            None
        }
    }
}

/// The owner id used for a repository: the host-specific constant for a host
/// without an owner-id API, the resolved id when the lookup succeeded, and
/// the sentinel when it failed.
pub fn resolve_owner_id(git_host: &str, fetched: Option<String>) -> (r: String)
    ensures
        git_host@ == "gitlab.com"@ ==> r@ == "0000"@,
        git_host@ != "gitlab.com"@ ==> match fetched {
            Some(id) => r@ == id@,
            None => r@ == "00000"@,
        },
{
    if str_eq(git_host, "gitlab.com") {
        String::from_str("0000")
    } else {
        match fetched {
            Some(id) => id,
            None => String::from_str("00000"),
        }
    }
}

/// The user name of an owner/name path: its first segment.
pub fn username_of(git_repo: &str) -> (r: String)
    ensures
        r@ == before_first(git_repo@, '/'),
{
    String::from_str(before_first_str(git_repo, '/'))
}

/// A document id: the owner/name path and the file's working-copy-relative
/// path.
pub open spec fn document_id_spec(git_repo: Seq<char>, rel_path: Seq<char>) -> Seq<char> {
    git_repo + "/"@ + rel_path
}

/// The document id of a file.
pub fn document_id(git_repo: &str, rel_path: &str) -> (r: String)
    ensures
        r@ == document_id_spec(git_repo@, rel_path@),
{
    concat3(git_repo, "/", rel_path)
}

/// A file id: the host, the owner/name path and the file's
/// working-copy-relative path.
pub open spec fn file_id_spec(git_host: Seq<char>, git_repo: Seq<char>, rel_path: Seq<char>) -> Seq<
    char,
> {
    git_host + "/"@ + git_repo + "/"@ + rel_path
}

/// The file id of a file.
pub fn file_id(git_host: &str, git_repo: &str, rel_path: &str) -> (r: String)
    ensures
        r@ == file_id_spec(git_host@, git_repo@, rel_path@),
{
    concat5(git_host, "/", git_repo, "/", rel_path)
}

/// Law: the document and file identifiers are functions of the host, the
/// owner/name path and the relative path alone, so an unchanged file keeps
/// its identifiers across runs.
pub proof fn lemma_ids_deterministic(
    host_a: Seq<char>,
    repo_a: Seq<char>,
    rel_a: Seq<char>,
    host_b: Seq<char>,
    repo_b: Seq<char>,
    rel_b: Seq<char>,
)
    requires
        host_a == host_b,
        repo_a == repo_b,
        rel_a == rel_b,
    ensures
        document_id_spec(repo_a, rel_a) == document_id_spec(repo_b, rel_b),
        file_id_spec(host_a, repo_a, rel_a) == file_id_spec(host_b, repo_b, rel_b),
{
}

/// The file's path relative to the working-copy root, when the path lies
/// below it.
pub open spec fn rel_path_spec(path: Seq<char>, root: Seq<char>) -> Seq<char> {
    path.skip(root.len() as int + 1)
}

/// The path of `abs` relative to the root directory `root`: defined exactly
/// when `abs` lies below it.
pub fn relative_path(abs: &str, root: &str) -> (r: Option<String>)
    ensures
        match r {
            Some(p) => (root@ + "/"@).is_prefix_of(abs@) && p@ == rel_path_spec(abs@, root@)
                && abs@ == root@ + "/"@ + p@,
            None => !(root@ + "/"@).is_prefix_of(abs@),
        },
{
    let pre = concat2(root, "/");
    if starts_with(abs, pre.as_str()) {
        let n = abs.unicode_len();
        let k = pre.as_str().unicode_len();
        let rest = abs.substring_char(k, n);
        proof {
            reveal_strlit("/");
            assert(abs@.subrange(k as int, n as int) =~= rel_path_spec(abs@, root@));
            assert(abs@ =~= root@ + "/"@ + abs@.subrange(k as int, n as int));
        }
        Some(String::from_str(rest))
    } else {
        None
    }
}

/// The directory part of a working-copy-relative path: everything before
/// its last separator.
pub open spec fn relative_dir_spec(rel_path: Seq<char>) -> Seq<char> {
    before_last(rel_path, '/')
}

/// The directory part of a working-copy-relative path.
pub fn relative_dir(rel_path: &str) -> (r: String)
    ensures
        r@ == relative_dir_spec(rel_path@),
{
    String::from_str(before_last_str(rel_path, '/'))
}

/// The per-line row fragments of a rendered highlight table: the rows of the
/// last `highlight-table` element, in source order; nothing when the markup
/// has no such table. A function of the markup alone.
pub uninterp spec fn highlight_rows(html: Seq<char>) -> Option<Seq<Seq<char>>>;

/// Relies on `select::document::Document` and its `Class`/`Name` queries:
/// parsing the markup and listing the `tr` elements of the last
/// `highlight-table` is a deterministic function of the markup.
#[verifier::external_body]
fn extract_rows(html: &str) -> (r: Option<Vec<String>>)
    ensures
        r is Some <==> highlight_rows(html@) is Some,
        r is Some ==> r.unwrap().deep_view() == highlight_rows(html@).unwrap(),
{
    let document = select::document::Document::from(html);
    let table = document.find(select::predicate::Class("highlight-table")).last()?;
    Some(table.find(select::predicate::Name("tr")).map(|tr| tr.html()).collect())
}

/// The row window a chunk starts from.
pub const BASE_WINDOW: usize = 3;

/// The character budget under which a chunk's window may still widen.
pub const MAX_CHARS: usize = 2000;

/// How many of the remaining rows the pending chunk takes before it is
/// flushed, from a mid-chunk state: `c` rows already taken, window `w`, and
/// `l` characters accumulated. Taking a row widens the window by one when it
/// fills the window while the text is still under the budget; the chunk is
/// flushed when the row count reaches the (possibly widened) window, and a
/// trailing partial chunk takes whatever rows remain.
pub open spec fn chunk_take(rows: Seq<Seq<char>>, c: nat, w: nat, l: nat) -> nat
    decreases rows.len(),
{
    if rows.len() == 0 {
        0
    } else {
        let c2 = c + 1;
        let l2 = l + rows[0].len() + 1;
        let w2 = if c2 == w && l2 < MAX_CHARS as nat {
            w + 1
        } else {
            w
        };
        if c2 >= w2 {
            1
        } else {
            (1 + chunk_take(rows.drop_first(), c2, w2, l2)) as nat
        }
    }
}

proof fn lemma_chunk_take_bounds(rows: Seq<Seq<char>>, c: nat, w: nat, l: nat)
    ensures
        rows.len() > 0 ==> 1 <= chunk_take(rows, c, w, l) <= rows.len(),
    decreases rows.len(),
{
    if rows.len() > 0 {
        let c2 = c + 1;
        let l2 = l + rows[0].len() + 1;
        let w2 = if c2 == w && l2 < MAX_CHARS as nat {
            w + 1
        } else {
            w
        };
        if c2 >= w2 {
            assert(chunk_take(rows, c, w, l) == 1);
        } else {
            lemma_chunk_take_bounds(rows.drop_first(), c2, w2, l2);
            assert(chunk_take(rows, c, w, l) == 1 + chunk_take(rows.drop_first(), c2, w2, l2));
        }
    }
}

/// The partition of the rendered rows into chunks: each chunk takes rows
/// until its window is full, and the window state resets between chunks.
pub open spec fn chunk_groups(rows: Seq<Seq<char>>) -> Seq<Seq<Seq<char>>>
    decreases rows.len(),
    via chunk_groups_decreases
{
    if rows.len() == 0 {
        Seq::empty()
    } else {
        let n = chunk_take(rows, 0, BASE_WINDOW as nat, 0) as int;
        seq![rows.take(n)] + chunk_groups(rows.skip(n))
    }
}

#[via_fn]
proof fn chunk_groups_decreases(rows: Seq<Seq<char>>) {
    if rows.len() > 0 {
        lemma_chunk_take_bounds(rows, 0, BASE_WINDOW as nat, 0);
    }
}

proof fn lemma_chunk_groups_unfold(rows: Seq<Seq<char>>)
    requires
        rows.len() > 0,
    ensures
        chunk_groups(rows) == seq![
            rows.take(chunk_take(rows, 0, BASE_WINDOW as nat, 0) as int),
        ] + chunk_groups(rows.skip(chunk_take(rows, 0, BASE_WINDOW as nat, 0) as int)),
{
}

/// The text of one chunk: its rows in order, each followed by a newline.
pub open spec fn rows_text(g: Seq<Seq<char>>) -> Seq<char>
    decreases g.len(),
{
    if g.len() == 0 {
        Seq::empty()
    } else {
        g[0] + seq!['\n'] + rows_text(g.drop_first())
    }
}

/// The chunk texts of a row sequence.
pub open spec fn chunk_contents(rows: Seq<Seq<char>>) -> Seq<Seq<char>> {
    chunk_groups(rows).map_values(|g: Seq<Seq<char>>| rows_text(g))
}

proof fn lemma_rows_text_push(g: Seq<Seq<char>>, x: Seq<char>)
    ensures
        rows_text(g.push(x)) == rows_text(g) + x + seq!['\n'],
    decreases g.len(),
{
    if g.len() == 0 {
        assert(g.push(x)[0] == x);
        assert(g.push(x).drop_first() =~= Seq::<Seq<char>>::empty());
        assert(rows_text(Seq::<Seq<char>>::empty()) =~= Seq::<char>::empty());
        assert(rows_text(g.push(x)) =~= rows_text(g) + x + seq!['\n']);
    } else {
        assert(g.push(x)[0] == g[0]);
        assert(g.push(x).drop_first() =~= g.drop_first().push(x));
        lemma_rows_text_push(g.drop_first(), x);
        assert(rows_text(g.push(x)) =~= rows_text(g) + x + seq!['\n']);
    }
}

proof fn lemma_rows_text_len(g: Seq<Seq<char>>)
    ensures
        rows_text(g).len() >= g.len(),
    decreases g.len(),
{
    if g.len() > 0 {
        lemma_rows_text_len(g.drop_first());
    }
}

/// `x`, cut off at the character budget: the batcher only ever asks whether
/// the accumulated length is still under the budget, so larger values need
/// not be tracked exactly.
pub open spec fn capped(x: nat) -> nat {
    if x < MAX_CHARS as nat {
        x
    } else {
        MAX_CHARS as nat
    }
}

/// The chunk texts of the rendered rows, grouped by the adaptive window: a
/// chunk's window starts at `BASE_WINDOW` rows and widens by one each time
/// the window fills while the chunk text is still under `MAX_CHARS`
/// characters; the chunk is emitted when its row count reaches the window,
/// and the rows left over at the end are emitted as a final partial chunk.
pub fn chunk_rows(rows: &Vec<String>) -> (chunks: Vec<String>)
    ensures
        chunks.deep_view() == chunk_contents(rows.deep_view()),
{
    let ghost grows = rows.deep_view();
    let rows_len: usize = rows.len();
    let mut chunks: Vec<String> = Vec::new();
    let mut i: usize = 0;
    proof {
        assert(grows.skip(0) =~= grows);
        assert(chunks.deep_view() =~= Seq::<Seq<char>>::empty());
    }
    while i < rows_len
        invariant
            i <= rows@.len(),
            grows == rows.deep_view(),
            grows.len() == rows@.len(),
            rows_len == rows@.len(),
            chunk_contents(grows) =~= chunks.deep_view() + chunk_contents(grows.skip(i as int)),
        decreases rows@.len() - i,
    {
        let ghost gstart = i as int;
        let ghost n = chunk_take(grows.skip(gstart), 0, BASE_WINDOW as nat, 0);
        proof {
            lemma_chunk_take_bounds(grows.skip(gstart), 0, BASE_WINDOW as nat, 0);
            assert(grows.subrange(gstart, gstart) =~= Seq::<Seq<char>>::empty());
            assert(rows_text(Seq::<Seq<char>>::empty()) =~= Seq::<char>::empty());
        }
        let mut c: usize = 0;
        let mut w: usize = BASE_WINDOW;
        let mut l: usize = 0;
        let mut child = String::new();
        loop
            invariant_except_break
                grows == rows.deep_view(),
                grows.len() == rows@.len(),
                rows_len == rows@.len(),
                0 <= gstart <= i <= grows.len(),
                gstart + n <= grows.len(),
                n == chunk_take(grows.skip(gstart), 0, BASE_WINDOW as nat, 0),
                i - gstart < n,
                n == (i - gstart) + chunk_take(
                    grows.skip(i as int),
                    c as nat,
                    w as nat,
                    child@.len(),
                ),
                c == i - gstart,
                child@ == rows_text(grows.subrange(gstart, i as int)),
                child@.len() >= c,
                l as nat == capped(child@.len()),
                3 <= w <= 2001,
                c < w,
                chunk_contents(grows) =~= chunks.deep_view() + chunk_contents(
                    grows.skip(gstart),
                ),
            ensures
                grows == rows.deep_view(),
                grows.len() == rows@.len(),
                gstart < i <= grows.len(),
                chunk_contents(grows) =~= chunks.deep_view() + chunk_contents(
                    grows.skip(i as int),
                ),
            decreases grows.len() - i,
        {
            proof {
                if grows.skip(i as int).len() == 0 {
                    assert(chunk_take(grows.skip(i as int), c as nat, w as nat, child@.len())
                        == 0);
                }
                assert(i < grows.len());
            }
            let row: &String = &rows[i];
            let rl = row.as_str().unicode_len();
            let ghost old_child = child@;
            child.append(row.as_str());
            child.append("\n");
            proof {
                reveal_strlit("\n");
                assert(("\n")@ =~= seq!['\n']);
                assert(child@ == old_child + grows[i as int] + seq!['\n']);
                assert(grows.subrange(gstart, i + 1) =~= grows.subrange(gstart, i as int).push(
                    grows[i as int],
                ));
                lemma_rows_text_push(grows.subrange(gstart, i as int), grows[i as int]);
            }
            let rlc: usize = if rl > MAX_CHARS {
                MAX_CHARS
            } else {
                rl
            };
            let lsum: usize = l + rlc + 1;
            let l2: usize = if lsum > MAX_CHARS {
                MAX_CHARS
            } else {
                lsum
            };
            proof {
                assert(rl as nat == grows[i as int].len());
                assert(child@.len() == old_child.len() + grows[i as int].len() + 1);
                assert(l2 as nat == capped(child@.len()));
            }
            let ghost old_w = w as nat;
            let c2 = c + 1;
            if c2 == w && l2 < MAX_CHARS {
                w = w + 1;
            }
            proof {
                lemma_rows_text_len(grows.subrange(gstart, i + 1));
                assert(child@.len() >= i + 1 - gstart);
                assert(grows.skip(i as int)[0] == grows[i as int]);
                assert(grows.skip(i as int).drop_first() =~= grows.skip(i + 1));
                // the exec window matches the specification's widened window
                assert(w as nat == (if c as nat + 1 == old_w && child@.len() < MAX_CHARS as nat {
                    old_w + 1
                } else {
                    old_w
                }));
                // one unfolding of the take count at the row just consumed
                if c2 >= w {
                    assert(chunk_take(grows.skip(i as int), c as nat, old_w, old_child.len())
                        == 1);
                } else {
                    assert(chunk_take(grows.skip(i as int), c as nat, old_w, old_child.len()) == 1
                        + chunk_take(grows.skip(i + 1), c2 as nat, w as nat, child@.len()));
                }
            }
            i = i + 1;
            if c2 >= w || i == rows_len {
                proof {
                    if c2 < w {
                        assert(grows.skip(i as int).len() == 0);
                        assert(chunk_take(grows.skip(i as int), c2 as nat, w as nat, child@.len())
                            == 0);
                    }
                    assert(n == i - gstart);
                    assert(grows.skip(gstart).take(n as int) =~= grows.subrange(gstart, i as int));
                    assert(grows.skip(gstart).skip(n as int) =~= grows.skip(i as int));
                    lemma_chunk_groups_unfold(grows.skip(gstart));
                    assert(chunk_groups(grows.skip(gstart)) == seq![grows.skip(gstart).take(
                        n as int,
                    )] + chunk_groups(grows.skip(gstart).skip(n as int)));
                    assert(chunk_contents(grows.skip(gstart)) =~= seq![child@] + chunk_contents(
                        grows.skip(i as int),
                    ));
                    let ghost pre = chunks.deep_view();
                    assert(chunk_contents(grows) =~= pre.push(child@) + chunk_contents(
                        grows.skip(i as int),
                    ));
                }
                let ghost pre = chunks.deep_view();
                chunks.push(child);
                proof {
                    assert(chunks.deep_view() =~= pre.push(child@));
                }
                break ;
            } else {
                c = c2;
                l = l2;
            }
        }
    }
    proof {
        assert(grows.skip(grows.len() as int) =~= Seq::<Seq<char>>::empty());
        assert(chunk_contents(Seq::<Seq<char>>::empty()) =~= Seq::<Seq<char>>::empty());
        assert(chunks.deep_view() + Seq::<Seq<char>>::empty() =~= chunks.deep_view());
    }
    chunks
}

/// Law: the batcher drops and duplicates no row — the groups it cuts,
/// concatenated in order, are exactly the row sequence.
pub proof fn lemma_chunks_cover_rows(rows: Seq<Seq<char>>)
    ensures
        chunk_groups(rows).flatten() == rows,
    decreases rows.len(),
{
    if rows.len() == 0 {
        assert(chunk_groups(rows).flatten() =~= rows);
    } else {
        let n = chunk_take(rows, 0, BASE_WINDOW as nat, 0) as int;
        lemma_chunk_take_bounds(rows, 0, BASE_WINDOW as nat, 0);
        lemma_chunk_groups_unfold(rows);
        lemma_chunks_cover_rows(rows.skip(n));
        let gs = chunk_groups(rows);
        assert(gs[0] == rows.take(n));
        assert(gs.drop_first() =~= chunk_groups(rows.skip(n)));
        assert(gs.flatten() == gs[0] + gs.drop_first().flatten());
        assert(rows.take(n) + rows.skip(n) =~= rows);
    }
}

proof fn lemma_rows_text_concat(a: Seq<Seq<char>>, b: Seq<Seq<char>>)
    ensures
        rows_text(a + b) == rows_text(a) + rows_text(b),
    decreases a.len(),
{
    if a.len() == 0 {
        assert(a + b =~= b);
        assert(rows_text(a) + rows_text(b) =~= rows_text(b));
    } else {
        assert((a + b)[0] == a[0]);
        assert((a + b).drop_first() =~= a.drop_first() + b);
        lemma_rows_text_concat(a.drop_first(), b);
        assert(rows_text(a + b) =~= rows_text(a) + rows_text(b));
    }
}

/// Law: the chunk texts, concatenated in emission order, are exactly the
/// rendered rows in source order, each followed by its newline — no row is
/// dropped or duplicated.
pub proof fn lemma_chunk_texts_cover_rows(rows: Seq<Seq<char>>)
    ensures
        chunk_contents(rows).flatten() == rows_text(rows),
    decreases rows.len(),
{
    if rows.len() == 0 {
        assert(chunk_contents(rows).flatten() =~= rows_text(rows));
    } else {
        let n = chunk_take(rows, 0, BASE_WINDOW as nat, 0) as int;
        lemma_chunk_take_bounds(rows, 0, BASE_WINDOW as nat, 0);
        lemma_chunk_groups_unfold(rows);
        lemma_chunk_texts_cover_rows(rows.skip(n));
        let cs = chunk_contents(rows);
        assert(cs[0] == rows_text(rows.take(n)));
        assert(cs.drop_first() =~= chunk_contents(rows.skip(n)));
        assert(cs.flatten() == cs[0] + cs.drop_first().flatten());
        lemma_rows_text_concat(rows.take(n), rows.skip(n));
        assert(rows.take(n) + rows.skip(n) =~= rows);
    }
}

proof fn lemma_chunk_take_flush_min(rows: Seq<Seq<char>>, c: nat, w: nat, l: nat)
    requires
        chunk_take(rows, c, w, l) < rows.len(),
    ensures
        chunk_take(rows, c, w, l) + c >= w,
    decreases rows.len(),
{
    if rows.len() > 0 {
        let c2 = c + 1;
        let l2 = l + rows[0].len() + 1;
        let w2 = if c2 == w && l2 < MAX_CHARS as nat {
            w + 1
        } else {
            w
        };
        if c2 >= w2 {
            assert(chunk_take(rows, c, w, l) == 1);
        } else {
            assert(chunk_take(rows, c, w, l) == 1 + chunk_take(rows.drop_first(), c2, w2, l2));
            lemma_chunk_take_flush_min(rows.drop_first(), c2, w2, l2);
        }
    }
}

/// Law: every chunk except possibly the final partial one covers at least
/// the base window of rows.
pub proof fn lemma_chunk_min_rows(rows: Seq<Seq<char>>, i: int)
    requires
        0 <= i < chunk_groups(rows).len() - 1,
    ensures
        chunk_groups(rows)[i].len() >= BASE_WINDOW as nat,
    decreases rows.len(),
{
    assert(rows.len() > 0) by {
        if rows.len() == 0 {
            assert(chunk_groups(rows).len() == 0);
        }
    }
    let n = chunk_take(rows, 0, BASE_WINDOW as nat, 0) as int;
    lemma_chunk_take_bounds(rows, 0, BASE_WINDOW as nat, 0);
    lemma_chunk_groups_unfold(rows);
    if i == 0 {
        assert(chunk_groups(rows.skip(n)).len() >= 1);
        assert(rows.skip(n).len() > 0) by {
            if rows.skip(n).len() == 0 {
                assert(chunk_groups(rows.skip(n)).len() == 0);
            }
        }
        lemma_chunk_take_flush_min(rows, 0, BASE_WINDOW as nat, 0);
        assert(chunk_groups(rows)[0] == rows.take(n));
    } else {
        lemma_chunk_min_rows(rows.skip(n), i - 1);
        assert(chunk_groups(rows)[i] == chunk_groups(rows.skip(n))[i - 1]);
    }
}

/// One write against the search backend: the first chunk of a file is
/// inserted as a whole document, every later chunk is appended to it.
#[derive(Debug)]
pub enum WriteOp {
    Insert(GitFile),
    Update(GithubFileUpdate),
}

/// How a write plan realizes a chunk sequence: one write per chunk; the
/// first write inserts a document carrying the file's identifiers and the
/// first chunk; every later write appends its chunk to the same document id,
/// and no other write inserts.
pub open spec fn ops_match(
    ops: Seq<WriteOp>,
    chunks: Seq<Seq<char>>,
    id: Seq<char>,
    fid: Seq<char>,
    owner: Seq<char>,
    dir: Seq<char>,
    repo: Seq<char>,
    branch: Seq<char>,
    lang: Seq<char>,
) -> bool {
    &&& ops.len() == chunks.len()
    &&& ops.len() > 0 ==> (ops[0] matches WriteOp::Insert(d) && d.id@ == id && d.file_id@ == fid
        && d.owner_id@ == owner && d.path@ == dir && d.repo@ == repo && d.branch@ == branch
        && d.lang@ == lang && d.content.deep_view() == seq![chunks[0]])
    &&& forall|i: int|
        1 <= i < ops.len() ==> (#[trigger] ops[i] matches WriteOp::Update(u) && u.id@ == id
            && u.content.add.deep_view() == seq![chunks[i]])
}

impl Indexer {
    /// The write for one chunk, tracking the file's per-run upsert state:
    /// an insert while nothing was written yet, an append to the same
    /// document id afterwards; either way the state is `written` from here
    /// on.
    pub fn create_or_update(&self, update: &mut bool, data: &GitFile) -> (op: WriteOp)
        ensures
            *final(update),
            !*old(update) ==> (op matches WriteOp::Insert(d) && d.id == data.id && d.file_id
                == data.file_id && d.owner_id == data.owner_id && d.path == data.path && d.repo
                == data.repo && d.branch == data.branch && d.lang == data.lang && d.content@
                == data.content@),
            *old(update) ==> (op matches WriteOp::Update(u) && u.id == data.id && u.content.add@
                == data.content@),
    {
        if !*update {
            let op = WriteOp::Insert(data.clone());
            *update = true;
            op
        } else {
            WriteOp::Update(
                GithubFileUpdate {
                    id: data.id.clone(),
                    content: (AddString { add: data.content.clone() }),
                },
            )
        }
    }

    /// The write plan for one file's rendered markup: its rows are cut into
    /// chunks, the first chunk becomes an insert carrying the file's
    /// identifiers, and every later chunk an append to the same document. A
    /// markup without a highlight table plans no writes.
    pub fn store(&self, data: &GitFile, html: &str) -> (ops: Vec<WriteOp>)
        ensures
            match highlight_rows(html@) {
                Some(rows) => ops_match(
                    ops@,
                    chunk_contents(rows),
                    data.id@,
                    data.file_id@,
                    data.owner_id@,
                    data.path@,
                    data.repo@,
                    data.branch@,
                    data.lang@,
                ),
                None => ops@.len() == 0,
            },
    {
        let mut ops: Vec<WriteOp> = Vec::new();
        match extract_rows(html) {
            Some(rows) => {
                let chunks = chunk_rows(&rows);
                let ghost gchunks = chunk_contents(rows.deep_view());
                let mut update = false;
                let mut j: usize = 0;
                proof {
                    assert(gchunks.take(0) =~= Seq::<Seq<char>>::empty());
                }
                while j < chunks.len()
                    invariant
                        j <= chunks@.len(),
                        chunks.deep_view() == gchunks,
                        chunks@.len() == gchunks.len(),
                        update == (j > 0),
                        ops@.len() == j,
                        ops_match(
                            ops@,
                            gchunks.take(j as int),
                            data.id@,
                            data.file_id@,
                            data.owner_id@,
                            data.path@,
                            data.repo@,
                            data.branch@,
                            data.lang@,
                        ),
                    decreases chunks@.len() - j,
                {
                    let chunk: &String = &chunks[j];
                    let mut content: Vec<String> = Vec::new();
                    content.push(chunk.clone());
                    proof {
                        assert(content.deep_view() =~= seq![gchunks[j as int]]);
                    }
                    let data2 = GitFile {
                        id: data.id.clone(),
                        file_id: data.file_id.clone(),
                        owner_id: data.owner_id.clone(),
                        path: data.path.clone(),
                        repo: data.repo.clone(),
                        branch: data.branch.clone(),
                        lang: data.lang.clone(),
                        content,
                    };
                    let op = self.create_or_update(&mut update, &data2);
                    let ghost pre_ops = ops@;
                    ops.push(op);
                    proof {
                        assert(gchunks.take(j + 1) =~= gchunks.take(j as int).push(
                            gchunks[j as int],
                        ));
                        assert(ops@ =~= pre_ops.push(op));
                        if j > 0 {
                            assert(op matches WriteOp::Update(u) && u.content.add@
                                == data2.content@);
                            assert(data2.content.deep_view() == seq![gchunks[j as int]]);
                        }
                    }
                    j = j + 1;
                }
                proof {
                    assert(gchunks.take(j as int) =~= gchunks);
                }
            },
            None => {},
        }
        ops
    }

    /// The full plan for one file: classify it, render it, derive its
    /// identifiers from the owner/name path and its working-copy-relative
    /// path, and cut the rendered rows into writes. A file that is
    /// denylisted, unreadable, empty, too short, unrenderable, or outside
    /// the working copy is skipped with the exact message.
    pub fn process_file(&self, meta: &MetaIndexFile, source: Option<String>) -> (r: Result<
        Vec<WriteOp>,
        String,
    >)
        ensures
            match r {
                Ok(ops) => {
                    &&& source is Some
                    &&& !is_denylisted(file_name_of(meta.path@))
                    &&& source.unwrap()@.len() > 12
                    &&& render_ready(source.unwrap()@, classify_spec(meta.path@, source.unwrap()@))
                    &&& (meta.root@ + "/"@).is_prefix_of(meta.path@)
                    &&& ({
                        let rel = rel_path_spec(meta.path@, meta.root@);
                        let src = source.unwrap()@;
                        let lang = classify_spec(meta.path@, src);
                        match file_chunks_spec(src, lang) {
                            Some(chunks) => ops_match(
                                ops@,
                                chunks,
                                document_id_spec(meta.git_repo@, rel),
                                file_id_spec(meta.git_host@, meta.git_repo@, rel),
                                meta.user_id@,
                                relative_dir_spec(rel),
                                meta.git_repo@,
                                meta.branch@,
                                lang,
                            ),
                            None => ops@.len() == 0,
                        }
                    })
                },
                Err(msg) => if is_denylisted(file_name_of(meta.path@)) {
                    msg@ == "Ignore file: '"@ + meta.path@ + "'!"@
                } else if source is None || source.unwrap()@.len() == 0 {
                    msg@ == "Failed to read file: '"@ + meta.path@ + "'!"@
                } else if source.unwrap()@.len() <= 12 {
                    msg@ == "Source code to short: "@ + source.unwrap()@
                } else if !render_ready(
                    source.unwrap()@,
                    classify_spec(meta.path@, source.unwrap()@),
                ) {
                    msg@ == "Failed to render file: '"@ + meta.path@ + "'!"@
                } else {
                    &&& !(meta.root@ + "/"@).is_prefix_of(meta.path@)
                    &&& msg@ == "File outside working copy: "@ + meta.path@
                },
            },
    {
        match read_file(meta.path.as_str(), source) {
            Ok((input, lang)) => {
                if !render_guard(&input, lang.as_str()) {
                    return Err(concat3("Failed to render file: '", meta.path.as_str(), "'!"));
                }
                match relative_path(meta.path.as_str(), meta.root.as_str()) {
                    Some(rel) => {
                        let html = render_html(input, lang.as_str());
                        let id = document_id(meta.git_repo.as_str(), rel.as_str());
                        let fid = file_id(
                            meta.git_host.as_str(),
                            meta.git_repo.as_str(),
                            rel.as_str(),
                        );
                        let dir = relative_dir(rel.as_str());
                        let data = GitFile {
                            id,
                            file_id: fid,
                            owner_id: meta.user_id.clone(),
                            path: dir,
                            repo: meta.git_repo.clone(),
                            branch: meta.branch.clone(),
                            lang,
                            content: Vec::new(),
                        };
                        Ok(self.store(&data, html.as_str()))
                    },
                    None => Err(concat2("File outside working copy: ", meta.path.as_str())),
                }
            },
            Err(msg) => Err(msg),
        }
    }
}

/// The chunk texts of one file, as a function of its text and language
/// alone: the renderer's rows for the chosen tag, cut by the batcher;
/// nothing when the rendered markup has no highlight table.
pub open spec fn file_chunks_spec(input: Seq<char>, lang: Seq<char>) -> Option<Seq<Seq<char>>> {
    let norm = newline_terminated(input);
    match highlight_rows(rendered_html(norm, renderer_tag(lang, norm))) {
        Some(rows) => Some(chunk_contents(rows)),
        None => None,
    }
}

/// Law: chunk content is a function of the file's text and language alone,
/// so re-running the pipeline over an unchanged file produces identical
/// chunks.
pub proof fn lemma_chunks_deterministic(
    input_a: Seq<char>,
    lang_a: Seq<char>,
    input_b: Seq<char>,
    lang_b: Seq<char>,
)
    requires
        input_a == input_b,
        lang_a == lang_b,
    ensures
        file_chunks_spec(input_a, lang_a) == file_chunks_spec(input_b, lang_b),
{
}

} // verus!

