//! The run's arguments: the manifest path, the destination folder, the
//! backend base URL, and the flags — computed from the raw argument list and
//! environment values the caller gathered.

use crate::strutil::{concat2, str_eq};
use vstd::prelude::*;

verus! {

/// The configuration of one run.
#[derive(Debug)]
pub struct Arg {
    pub index_file: String,
    pub folder: String,
    pub solr_url: String,
    pub is_index_folder: bool,
    pub with_delete_folder: bool,
}

impl Arg {
    /// An empty configuration, to be filled by `parse`.
    pub fn new() -> (r: Self)
        ensures
            r.index_file@ == Seq::<char>::empty(),
            r.folder@ == Seq::<char>::empty(),
            r.solr_url@ == Seq::<char>::empty(),
            !r.is_index_folder,
            !r.with_delete_folder,
    {
        Arg {
            index_file: String::new(),
            folder: String::new(),
            solr_url: String::new(),
            is_index_folder: false,
            with_delete_folder: false,
        }
    }

    /// The configuration read from the raw argument list: the first argument
    /// is the manifest path and must name an existing file; `--folder` as the
    /// second argument selects indexing an already-present folder, with the
    /// third argument (default `repos`) as the destination; `--delete-dir`
    /// anywhere removes working copies after indexing. The backend base URL
    /// comes from the caller's environment, with a local default.
    pub fn parse(self, args: &Vec<String>, base_url: Option<String>, index_file_exists: bool) -> (r:
        Result<Self, String>)
        ensures
            match r {
                Ok(a) => {
                    &&& args@.len() >= 2
                    &&& index_file_exists
                    &&& a.index_file@ == args@[1]@
                    &&& a.solr_url@ == match base_url {
                        Some(u) => u@,
                        None => "http://localhost:8984"@,
                    }
                    &&& a.with_delete_folder == exists|i: int|
                        0 <= i < args@.len() && args@[i]@ == "--delete-dir"@
                    &&& a.is_index_folder == (args@.len() >= 3 && args@[2]@ == "--folder"@)
                    &&& a.folder@ == if args@.len() >= 4 {
                        args@[3]@
                    } else {
                        "repos"@
                    }
                },
                Err(msg) => {
                    &&& args@.len() < 2 || !index_file_exists
                    &&& if args@.len() < 2 {
                        msg@ == "Index file path is required!"@
                    } else {
                        msg@ == "Please input the correct index file! Current file is not exists: "@
                            + args@[1]@
                    }
                },
            },
    {
        let mut with_delete = false;
        let mut i: usize = 0;
        let args_len = args.len();
        while i < args_len
            invariant
                i <= args@.len(),
                args_len == args@.len(),
                with_delete == exists|j: int| 0 <= j < i && args@[j]@ == "--delete-dir"@,
            decreases args@.len() - i,
        {
            let a: &String = &args[i];
            if str_eq(a.as_str(), "--delete-dir") {
                with_delete = true;
            }
            i = i + 1;
        }
        if args_len < 2 {
            return Err(String::from_str("Index file path is required!"));
        }
        let index_file: &String = &args[1];
        if !index_file_exists {
            return Err(
                concat2(
                    "Please input the correct index file! Current file is not exists: ",
                    index_file.as_str(),
                ),
            );
        }
        let solr_url = match base_url {
            Some(u) => u,
            None => String::from_str("http://localhost:8984"),
        };
        let is_index_folder = if args_len >= 3 {
            let opt: &String = &args[2];
            str_eq(opt.as_str(), "--folder")
        } else {
            false
        };
        let folder = if args_len >= 4 {
            let f: &String = &args[3];
            f.clone()
        } else {
            String::from_str("repos")
        };
        Ok(
            Arg {
                index_file: index_file.clone(),
                folder,
                solr_url,
                is_index_folder,
                with_delete_folder: with_delete,
            },
        )
    }

    /// Whether the raw argument list asks for the help text.
    pub fn wants_help(args: &Vec<String>) -> (r: bool)
        ensures
            r == exists|i: int|
                0 <= i < args@.len() && (args@[i]@ == "-h"@ || args@[i]@ == "--help"@),
    {
        let mut i: usize = 0;
        let args_len = args.len();
        while i < args_len
            invariant
                i <= args@.len(),
                args_len == args@.len(),
                forall|j: int| 0 <= j < i ==> args@[j]@ != "-h"@ && args@[j]@ != "--help"@,
            decreases args@.len() - i,
        {
            let a: &String = &args[i];
            if str_eq(a.as_str(), "-h") || str_eq(a.as_str(), "--help") {
                return true;
            }
            i = i + 1;
        }
        false
    }

    /// The lines of the help text.
    pub fn help_lines() -> (r: Vec<&'static str>)
        ensures
            r@.len() == 14,
            r@[0]@ == "hli 0.1.0"@,
    {
        let mut v: Vec<&'static str> = Vec::new();
        v.push("hli 0.1.0");
        v.push("Ahmad Rosid <alahmadrosid@gmail.com>");
        v.push("");
        v.push("Heline.dev indexer, turn source code to github like html syntax highlighted!");
        v.push("");
        v.push("Usage :");
        v.push("    hli data.json --folder some/folder");
        v.push("");
        v.push("Options :");
        v.push("    <INDEX_FILE>    Index file with json format");
        v.push("    --folder        Custom folder to source code");
        v.push("    -h --help       Print help text");
        v.push("    --delete-dir    Delete directory after indexing.");
        v.push("");
        v
    }
}

} // verus!
