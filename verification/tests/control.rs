//! Argument handling and the progress indicator's state machine.

use hli::arg::Arg;
use hli::loading::{Frames, Loading, Signal, Status};

fn args(list: &[&str]) -> Vec<String> {
    list.iter().map(|s| s.to_string()).collect()
}

#[test]
fn parse_takes_manifest_folder_and_flags() {
    let a = Arg::new()
        .parse(
            &args(&["hli", "data.json", "--folder", "some/folder", "--delete-dir"]),
            Some("http://solr:8984".to_string()),
            true,
        )
        .unwrap();
    assert_eq!(a.index_file, "data.json");
    assert!(a.is_index_folder);
    assert_eq!(a.folder, "some/folder");
    assert!(a.with_delete_folder);
    assert_eq!(a.solr_url, "http://solr:8984");
}

#[test]
fn parse_defaults_folder_and_backend() {
    let a = Arg::new().parse(&args(&["hli", "data.json"]), None, true).unwrap();
    assert_eq!(a.folder, "repos");
    assert_eq!(a.solr_url, "http://localhost:8984");
    assert!(!a.is_index_folder);
    assert!(!a.with_delete_folder);
}

#[test]
fn parse_requires_a_manifest_path() {
    let err = Arg::new().parse(&args(&["hli"]), None, true).unwrap_err();
    assert_eq!(err, "Index file path is required!");
}

#[test]
fn parse_rejects_a_missing_manifest() {
    let err = Arg::new().parse(&args(&["hli", "nope.json"]), None, false).unwrap_err();
    assert_eq!(
        err,
        "Please input the correct index file! Current file is not exists: nope.json"
    );
}

#[test]
fn help_is_recognized_anywhere() {
    assert!(Arg::wants_help(&args(&["hli", "-h"])));
    assert!(Arg::wants_help(&args(&["hli", "data.json", "--help"])));
    assert!(!Arg::wants_help(&args(&["hli", "data.json"])));
}

#[test]
fn help_text_starts_with_the_name() {
    let lines = Arg::help_lines();
    assert_eq!(lines.len(), 14);
    assert_eq!(lines[0], "hli 0.1.0");
}

#[test]
fn frames_cycle_in_order() {
    let mut f = Frames::new(vec!["a", "b", "c"]);
    assert_eq!(f.next(), "a");
    assert_eq!(f.next(), "b");
    assert_eq!(f.next(), "c");
    assert_eq!(f.next(), "a");
    assert_eq!(f.next(), "b");
}

#[test]
fn loading_signals_carry_their_text() {
    let mut l = Loading::new().interval(120);
    assert_eq!(l.interval_ms, 120);
    assert!(!l.started);
    l.start();
    assert!(l.started);
    assert!(matches!(l.text("working".to_string()), Signal::Text(t) if t == "working"));
    assert!(matches!(
        l.success("done".to_string()),
        Signal::Next(Status::Success, t) if t == "done"
    ));
    assert!(matches!(
        l.fail("broken".to_string()),
        Signal::Next(Status::Fail, t) if t == "broken"
    ));
    assert!(matches!(
        l.warn("careful".to_string()),
        Signal::Next(Status::Warn, t) if t == "careful"
    ));
    assert!(matches!(
        l.info("note".to_string()),
        Signal::Next(Status::Info, t) if t == "note"
    ));
    assert!(matches!(l.end(), Signal::Exit));
}

#[test]
fn status_marks_are_colored_glyphs() {
    assert_eq!(Status::Success.as_str(), "\x1B[32m\u{2714}\x1B[0m");
    assert_eq!(Status::Fail.as_str(), "\x1B[31m\u{2716}\x1B[0m");
    assert_eq!(Status::Warn.as_str(), "\x1B[33m\u{26a0}\x1B[0m");
    assert_eq!(Status::Info.as_str(), "\x1B[34m\u{2139}\x1B[0m");
}

#[test]
fn custom_frames_replace_the_default()
{
    let l = Loading::new().frame(vec!["-", "|"]);
    let mut f = l.frames;
    assert_eq!(f.next(), "-");
    assert_eq!(f.next(), "|");
    assert_eq!(f.next(), "-");
}
