//! The pipeline around the batcher: locator handling, identifiers, the
//! upsert write plan, branch detection, owner resolution, and the manifest.

use hli::git::{clone_repo, get_branch_name, get_repo, HostKind};
use hli::git::github::{extract_id, repo_api_url, user_api_url};
use hli::indexer::{
    document_id, file_id, relative_dir, relative_path, resolve_owner_id, username_of, Indexer,
    MetaIndexFile, WriteOp,
};
use hli::parser::string_to_chars;
use hli::solr::client::{insert, update, GitFile};
use hli::utils::{get_git_repo_path, get_git_ssh_url, get_repo_name, get_url_host, manifest_parses, parse_json, truncate};

const LOCATOR: &str = "https://github.com/ahmadrosid/heline.git";

#[test]
fn locator_resolves_to_its_parts() {
    assert_eq!(get_url_host(LOCATOR), Some("github.com".to_string()));
    assert_eq!(get_git_repo_path(LOCATOR), "ahmadrosid/heline");
    assert_eq!(get_repo_name(LOCATOR), "heline");
    assert_eq!(get_git_ssh_url(LOCATOR), "git@github.com:ahmadrosid/heline.git");
}

#[test]
fn locator_without_git_suffix_keeps_its_path() {
    assert_eq!(get_git_repo_path("https://github.com/owner/name"), "owner/name");
    assert_eq!(get_repo_name("https://github.com/owner/name"), "name");
}

#[test]
fn host_dispatch_recognizes_the_two_providers() {
    assert!(matches!(get_repo("https://github.com/a/b"), Ok(HostKind::Github)));
    assert!(matches!(get_repo("https://gitlab.com/a/b"), Ok(HostKind::Gitlab)));
    assert_eq!(
        get_repo("https://example.com/a/b").unwrap_err(),
        "Unsupported git host: example.com"
    );
    assert_eq!(get_repo("not a url").unwrap_err(), "Invalid git url not a url");
}

#[test]
fn clone_plan_is_idempotent() {
    assert!(clone_repo(true, "git@github.com:a/b.git", "b").is_none());
    let args = clone_repo(false, "git@github.com:a/b.git", "b").unwrap();
    assert_eq!(args, vec!["clone", "git@github.com:a/b.git", "b"]);
}

#[test]
fn branch_detection_defaults_to_master() {
    assert_eq!(get_branch_name(None), "master");
}

#[test]
fn branch_detection_takes_the_final_ref_segment() {
    assert_eq!(get_branch_name(Some("ref: refs/heads/feature-x\n")), "feature-x");
    assert_eq!(get_branch_name(Some("ref: refs/heads/main")), "main");
}

#[test]
fn owner_id_resolution_and_fallbacks() {
    assert_eq!(resolve_owner_id("gitlab.com", None), "0000");
    assert_eq!(resolve_owner_id("gitlab.com", Some("77".to_string())), "0000");
    assert_eq!(resolve_owner_id("github.com", Some("12345".to_string())), "12345");
    assert_eq!(resolve_owner_id("github.com", None), "00000");
}

#[test]
fn owner_api_urls() {
    assert_eq!(user_api_url("ahmadrosid"), "https://api.github.com/users/ahmadrosid");
    assert_eq!(repo_api_url("ahmadrosid/heline"), "https://api.github.com/repos/ahmadrosid/heline");
}

#[test]
fn extract_id_reads_the_id_field() {
    assert_eq!(extract_id(Some("42".to_string())), Ok("42".to_string()));
    assert_eq!(extract_id(None), Err("Not found!".to_string()));
}

#[test]
fn identifiers_are_stable_across_runs() {
    let a = document_id("owner/name", "src/main.go");
    let b = document_id("owner/name", "src/main.go");
    assert_eq!(a, "owner/name/src/main.go");
    assert_eq!(a, b);
    let fa = file_id("github.com", "owner/name", "src/main.go");
    let fb = file_id("github.com", "owner/name", "src/main.go");
    assert_eq!(fa, "github.com/owner/name/src/main.go");
    assert_eq!(fa, fb);
}

#[test]
fn relative_paths_are_root_relative() {
    // paths resolve against the working-copy root, however deep it lives
    assert_eq!(
        relative_path("repos/heline/src/main.rs", "repos/heline"),
        Some("src/main.rs".to_string())
    );
    assert_eq!(
        relative_path("deep/nested/root/heline/a.rs", "deep/nested/root/heline"),
        Some("a.rs".to_string())
    );
    assert_eq!(relative_path("elsewhere/file.rs", "repos/heline"), None);
    assert_eq!(relative_dir("src/main.rs"), "src");
    assert_eq!(relative_dir("main.rs"), "");
}

#[test]
fn username_is_the_first_path_segment() {
    assert_eq!(username_of("ahmadrosid/heline"), "ahmadrosid");
    assert_eq!(username_of("justowner"), "justowner");
}

#[test]
fn indexer_derives_host_and_name() {
    let ix = Indexer::new("repos".to_string(), LOCATOR, "http://localhost:8984", false);
    assert_eq!(ix.git_host, "github.com");
    assert_eq!(ix.repo_name, "heline");
    assert_eq!(ix.base_url, "http://localhost:8984");
    assert!(!ix.with_delete_dir);
}

#[test]
fn deletion_happens_only_when_asked() {
    let keep = Indexer::new("repos".to_string(), LOCATOR, "http://localhost:8984", false);
    assert_eq!(keep.after_index_action(), None);
    let del = Indexer::new("repos".to_string(), LOCATOR, "http://localhost:8984", true);
    assert_eq!(del.after_index_action(), Some("repos/heline".to_string()));
}

fn meta_for(path: &str) -> MetaIndexFile {
    MetaIndexFile {
        path: path.to_string(),
        root: "repos/heline".to_string(),
        git_repo: "ahmadrosid/heline".to_string(),
        user_id: "12345".to_string(),
        branch: "main".to_string(),
        base_url: "http://localhost:8984".to_string(),
        git_host: "github.com".to_string(),
    }
}

fn long_go_source() -> String {
    let mut s = String::from("package main\n\n");
    for i in 0..40 {
        s.push_str(&format!(
            "// line {} pads this file with enough text that the renderer emits rows whose accumulated length crosses the chunk budget boundary {}\n",
            i,
            "x".repeat(60)
        ));
    }
    s.push_str("func main() {}\n");
    s
}

#[test]
fn first_chunk_inserts_and_later_chunks_append() {
    let ix = Indexer::new("repos".to_string(), LOCATOR, "http://localhost:8984", false);
    let meta = meta_for("repos/heline/cmd/main.go");
    let ops = ix.process_file(&meta, Some(long_go_source())).unwrap();
    assert!(ops.len() > 1, "expected several chunks, got {}", ops.len());
    let expected_id = "ahmadrosid/heline/cmd/main.go";
    let mut inserts = 0;
    for (i, op) in ops.iter().enumerate() {
        match op {
            WriteOp::Insert(doc) => {
                inserts += 1;
                assert_eq!(i, 0, "only the first write may insert");
                assert_eq!(doc.id, expected_id);
                assert_eq!(doc.file_id, "github.com/ahmadrosid/heline/cmd/main.go");
                assert_eq!(doc.owner_id, "12345");
                assert_eq!(doc.path, "cmd");
                assert_eq!(doc.repo, "ahmadrosid/heline");
                assert_eq!(doc.branch, "main");
                assert_eq!(doc.lang, "Go");
                assert_eq!(doc.content.len(), 1);
            }
            WriteOp::Update(upd) => {
                assert!(i > 0, "the first write must insert");
                assert_eq!(upd.id, expected_id);
                assert_eq!(upd.content.add.len(), 1);
            }
        }
    }
    assert_eq!(inserts, 1);
}

#[test]
fn rerun_plans_byte_identical_chunks() {
    let ix = Indexer::new("repos".to_string(), LOCATOR, "http://localhost:8984", false);
    let meta = meta_for("repos/heline/cmd/main.go");
    let source = long_go_source();
    let first = ix.process_file(&meta, Some(source.clone())).unwrap();
    let second = ix.process_file(&meta, Some(source)).unwrap();
    assert_eq!(first.len(), second.len());
    for (a, b) in first.iter().zip(second.iter()) {
        let content_a = match a {
            WriteOp::Insert(doc) => doc.content.clone(),
            WriteOp::Update(upd) => upd.content.add.clone(),
        };
        let content_b = match b {
            WriteOp::Insert(doc) => doc.content.clone(),
            WriteOp::Update(upd) => upd.content.add.clone(),
        };
        assert_eq!(content_a, content_b);
    }
}

#[test]
fn markup_without_highlight_table_plans_no_writes() {
    let ix = Indexer::new("repos".to_string(), LOCATOR, "http://localhost:8984", false);
    let data = GitFile {
        id: "a".to_string(),
        file_id: "b".to_string(),
        owner_id: "c".to_string(),
        path: "d".to_string(),
        repo: "e".to_string(),
        branch: "f".to_string(),
        lang: "g".to_string(),
        content: Vec::new(),
    };
    let ops = ix.store(&data, "<p>no table here</p>");
    assert!(ops.is_empty());
}

#[test]
fn store_extracts_rows_from_the_rendered_table() {
    // A wrapper that handed the markup back unchanged instead of extracting
    // the table rows would plan no writes here.
    let ix = Indexer::new("repos".to_string(), LOCATOR, "http://localhost:8984", false);
    let data = GitFile {
        id: "doc".to_string(),
        file_id: "f".to_string(),
        owner_id: "o".to_string(),
        path: "p".to_string(),
        repo: "r".to_string(),
        branch: "b".to_string(),
        lang: "Go".to_string(),
        content: Vec::new(),
    };
    let html = hli::parser::render_html(string_to_chars("package main\nvar x = 1\n"), "Go");
    let ops = ix.store(&data, &html);
    assert_eq!(ops.len(), 1);
    match &ops[0] {
        WriteOp::Insert(doc) => {
            assert_eq!(doc.content.len(), 1);
            assert!(doc.content[0].contains("<tr>"));
            assert!(doc.content[0].contains("package"));
        }
        WriteOp::Update(_) => panic!("the only chunk of a file must insert"),
    }
}

#[test]
fn file_outside_the_root_is_reported() {
    let ix = Indexer::new("repos".to_string(), LOCATOR, "http://localhost:8984", false);
    let meta = meta_for("elsewhere/heline/cmd/main.go");
    let err = ix.process_file(&meta, Some(long_go_source())).unwrap_err();
    assert_eq!(err, "File outside working copy: elsewhere/heline/cmd/main.go");
}

#[test]
fn manifest_parses_a_json_list_of_locators() {
    let list = parse_json("[\"https://github.com/a/b\", \"https://github.com/c/d\"]");
    assert_eq!(list, vec!["https://github.com/a/b", "https://github.com/c/d"]);
}

#[test]
fn malformed_manifests_yield_no_locators() {
    assert!(parse_json("not json at all").is_empty());
    assert!(parse_json("{\"a\": 1}").is_empty());
    assert!(parse_json("[1, 2, 3]").is_empty());
}

#[test]
fn a_discarded_manifest_is_reportable() {
    assert!(manifest_parses("[\"https://github.com/a/b\"]"));
    assert!(manifest_parses("[]"));
    assert!(!manifest_parses("not json at all"));
    assert!(!manifest_parses("{\"a\": 1}"));
    assert!(!manifest_parses("[1, 2, 3]"));
}

#[test]
fn unrenderable_files_are_skipped_with_a_message() {
    // the haskell lexer reads past the end of an unterminated block comment,
    // so such a file is not handed to it
    let ix = Indexer::new("repos".to_string(), LOCATOR, "http://localhost:8984", false);
    let meta = meta_for("repos/heline/src/Main.hs");
    let err = ix
        .process_file(&meta, Some("x = 1 {- unterminated".to_string()))
        .unwrap_err();
    assert_eq!(err, "Failed to render file: 'repos/heline/src/Main.hs'!");
}

#[test]
fn whole_file_insert_carries_the_document() {
    let data = hli::solr::GithubFile {
        id: "owner/name/name/a.go".to_string(),
        file_id: "github.com/owner/name/name/a.go".to_string(),
        owner_id: "1".to_string(),
        path: "name".to_string(),
        repo: "owner/name".to_string(),
        branch: "main".to_string(),
        lang: "Go".to_string(),
        content: vec!["<tr>row</tr>\n".to_string()],
    };
    let (url, body) = hli::solr::insert(&data, "http://localhost:8984");
    assert_eq!(
        url,
        "http://localhost:8984/index/update?commitWithin=1000&overwrite=true&wt=json"
    );
    assert_eq!(body.len(), 1);
    assert_eq!(body[0].id, data.id);
    assert_eq!(body[0].content, data.content);
}

#[test]
fn truncate_counts_characters() {
    assert_eq!(truncate("hello", 3), "hel");
    assert_eq!(truncate("hi", 10), "hi");
    assert_eq!(truncate("héllo", 2), "hé");
}

#[test]
fn write_requests_carry_the_document() {
    let data = GitFile {
        id: "owner/name/name/a.go".to_string(),
        file_id: "github.com/owner/name/name/a.go".to_string(),
        owner_id: "1".to_string(),
        path: "name".to_string(),
        repo: "owner/name".to_string(),
        branch: "main".to_string(),
        lang: "Go".to_string(),
        content: vec!["<tr>row</tr>\n".to_string()],
    };
    let (url, body) = insert(&data, "http://localhost:8984");
    assert_eq!(
        url,
        "http://localhost:8984/index/update?commitWithin=1000&overwrite=true&wt=json"
    );
    assert_eq!(body.len(), 1);
    assert_eq!(body[0].id, data.id);
    assert_eq!(body[0].content, data.content);

    let (url, body) = update(&data, "http://localhost:8984");
    assert_eq!(url, "http://localhost:8984/index/update");
    assert_eq!(body.len(), 1);
    assert_eq!(body[0].id, data.id);
    assert_eq!(body[0].content.add, data.content);
}
