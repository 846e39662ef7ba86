//! Wire-level document shapes for the search backend and the builders for
//! its two write operations: a full-document insert and an atomic
//! field-append update.

use crate::strutil::concat2;
use vstd::prelude::*;

verus! {

/// One index document for a file's first chunk: full metadata and the chunk
/// text as the initial value of the content field.
#[derive(Debug)]
pub struct GitFile {
    pub id: String,
    pub file_id: String,
    pub owner_id: String,
    pub path: String,
    pub repo: String,
    pub branch: String,
    pub lang: String,
    pub content: Vec<String>,
}

impl Clone for GitFile {
    /// A clone keeps every field.
    fn clone(&self) -> (r: Self)
        ensures
            r.id == self.id,
            r.file_id == self.file_id,
            r.owner_id == self.owner_id,
            r.path == self.path,
            r.repo == self.repo,
            r.branch == self.branch,
            r.lang == self.lang,
            r.content@ == self.content@,
    {
        let content = self.content.clone();
        proof {
            assert(content@ =~= self.content@);
        }
        GitFile {
            id: self.id.clone(),
            file_id: self.file_id.clone(),
            owner_id: self.owner_id.clone(),
            path: self.path.clone(),
            repo: self.repo.clone(),
            branch: self.branch.clone(),
            lang: self.lang.clone(),
            content,
        }
    }
}

/// The body of an append write: the document id and the lines to add.
#[derive(Debug)]
pub struct GithubFileUpdate {
    pub id: String,
    pub content: AddString,
}

/// An atomic field-append instruction: the values are added to the existing
/// content field, never replacing it.
#[derive(Debug)]
pub struct AddString {
    pub add: Vec<String>,
}

/// The URL of an insert write: overwrite semantics, so re-running the
/// pipeline on an unchanged file replaces its first-chunk document.
pub open spec fn insert_url_spec(base: Seq<char>) -> Seq<char> {
    base + "/index/update?commitWithin=1000&overwrite=true&wt=json"@
}

/// The URL of an append write.
pub open spec fn update_url_spec(base: Seq<char>) -> Seq<char> {
    base + "/index/update"@
}

/// The URL an append write is posted to.
pub fn update_url(base_url: &str) -> (r: String)
    ensures
        r@ == update_url_spec(base_url@),
{
    concat2(base_url, "/index/update")
}

/// The insert request for a file's first chunk: its URL and its body, a
/// one-document array carrying every field of `data`.
pub fn insert(data: &GitFile, base_url: &str) -> (r: (String, Vec<GitFile>))
    ensures
        r.0@ == insert_url_spec(base_url@),
        r.1@.len() == 1,
        r.1@[0].id == data.id,
        r.1@[0].file_id == data.file_id,
        r.1@[0].owner_id == data.owner_id,
        r.1@[0].path == data.path,
        r.1@[0].repo == data.repo,
        r.1@[0].branch == data.branch,
        r.1@[0].lang == data.lang,
        r.1@[0].content@ == data.content@,
{
    let mut body: Vec<GitFile> = Vec::new();
    body.push(data.clone());
    let url = concat2(base_url, "/index/update?commitWithin=1000&overwrite=true&wt=json");
    (url, body)
}

/// The append request for a later chunk of the same file: its URL and its
/// body, a one-element array targeting the same document id and adding the
/// chunk's lines to the content field.
pub fn update(data: &GitFile, base_url: &str) -> (r: (String, Vec<GithubFileUpdate>))
    ensures
        r.0@ == update_url_spec(base_url@),
        r.1@.len() == 1,
        r.1@[0].id == data.id,
        r.1@[0].content.add@ == data.content@,
{
    let data = data.clone();
    let mut body: Vec<GithubFileUpdate> = Vec::new();
    let upd = GithubFileUpdate { id: data.id, content: (AddString { add: data.content }) };
    body.push(upd);
    let url = concat2(base_url, "/index/update");
    (url, body)
}

} // verus!
