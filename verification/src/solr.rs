//! The search backend's document type for a whole-file insert, and the
//! builder for that write.

pub mod client;

use crate::solr::client::insert_url_spec;
use crate::strutil::concat2;
use vstd::prelude::*;

verus! {

/// One index document carrying a file's metadata and content lines.
pub struct GithubFile {
    pub id: String,
    pub file_id: String,
    pub owner_id: String,
    pub path: String,
    pub repo: String,
    pub branch: String,
    pub lang: String,
    pub content: Vec<String>,
}

impl Clone for GithubFile {
    /// A clone keeps every field.
    fn clone(&self) -> (r: Self)
        ensures
            r.id == self.id,
            r.file_id == self.file_id,
            r.owner_id == self.owner_id,
            r.path == self.path,
            r.repo == self.repo,
            r.branch == self.branch,
            r.lang == self.lang,
            r.content@ == self.content@,
    {
        let content = self.content.clone();
        proof {
            assert(content@ =~= self.content@);
        }
        GithubFile {
            id: self.id.clone(),
            file_id: self.file_id.clone(),
            owner_id: self.owner_id.clone(),
            path: self.path.clone(),
            repo: self.repo.clone(),
            branch: self.branch.clone(),
            lang: self.lang.clone(),
            content,
        }
    }
}

/// The insert request for one document: its URL (overwrite semantics) and
/// its body, a one-document array carrying every field of `data`.
pub fn insert(data: &GithubFile, base_url: &str) -> (r: (String, Vec<GithubFile>))
    ensures
        r.0@ == insert_url_spec(base_url@),
        r.1@.len() == 1,
        r.1@[0].id == data.id,
        r.1@[0].file_id == data.file_id,
        r.1@[0].owner_id == data.owner_id,
        r.1@[0].path == data.path,
        r.1@[0].repo == data.repo,
        r.1@[0].branch == data.branch,
        r.1@[0].lang == data.lang,
        r.1@[0].content@ == data.content@,
{
    let mut body: Vec<GithubFile> = Vec::new();
    body.push(data.clone());
    let url = concat2(base_url, "/index/update?commitWithin=1000&overwrite=true&wt=json");
    (url, body)
}

} // verus!
