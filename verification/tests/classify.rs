//! File classification: extension and filename tables, lockfiles, the
//! denylist, the passthrough of unknown extensions, and shebang sniffing.

use hli::parser::{denylisted, parse_file_name, read_file, render_guard, render_html, string_to_chars};

fn some_source() -> Option<String> {
    Some("a source text that is long enough".to_string())
}

fn lang_of(path: &str) -> String {
    let (_, lang) = read_file(path, some_source()).expect("file should be classified");
    lang
}

#[test]
fn extension_table_maps_known_languages() {
    assert_eq!(lang_of("repo/main.go"), "Go");
    assert_eq!(lang_of("repo/lib.rs"), "Rust");
    assert_eq!(lang_of("repo/app.py"), "Python");
    assert_eq!(lang_of("repo/x.ts"), "TypeScript");
    assert_eq!(lang_of("repo/x.tsx"), "TypeScript");
    assert_eq!(lang_of("repo/x.c"), "C");
    assert_eq!(lang_of("repo/x.h"), "C");
    assert_eq!(lang_of("repo/x.cpp"), "C++");
    assert_eq!(lang_of("repo/x.cs"), "C#");
    assert_eq!(lang_of("repo/x.sh"), "Shell");
    assert_eq!(lang_of("repo/x.zsh"), "Shell");
    assert_eq!(lang_of("repo/x.bash"), "Shell");
    assert_eq!(lang_of("repo/x.proto"), "Protocol Buffer");
    assert_eq!(lang_of("repo/x.yml"), "YAML");
    assert_eq!(lang_of("repo/x.md"), "Markdown");
    assert_eq!(lang_of("repo/x.json"), "JSON");
    assert_eq!(lang_of("repo/x.html"), "HTML");
    assert_eq!(lang_of("repo/x.toml"), "TOML");
    assert_eq!(lang_of("repo/x.rb"), "Ruby");
    assert_eq!(lang_of("repo/x.php"), "PHP");
    assert_eq!(lang_of("repo/x.java"), "Java");
    assert_eq!(lang_of("repo/x.kt"), "Kotlin");
    assert_eq!(lang_of("repo/x.lua"), "Lua");
    assert_eq!(lang_of("repo/x.hs"), "Haskell");
    assert_eq!(lang_of("repo/x.dart"), "Dart");
    assert_eq!(lang_of("repo/x.patch"), "Diff");
}

#[test]
fn unknown_extension_passes_through() {
    assert_eq!(lang_of("repo/strange.foo"), "foo");
}

#[test]
fn lockfiles_classify_by_full_name() {
    assert_eq!(lang_of("repo/Cargo.lock"), "TOML");
    assert_eq!(lang_of("repo/Gemfile.lock"), "Gemfile");
    assert_eq!(lang_of("repo/other.lock"), "Raw");
}

#[test]
fn conventional_names_classify_without_extension() {
    assert_eq!(lang_of("repo/Dockerfile"), "Dockerfile");
    assert_eq!(lang_of("repo/Makefile"), "Makefile");
    assert_eq!(lang_of("repo/Jenkinsfile"), "Groovy");
    assert_eq!(lang_of("repo/Gemfile"), "Gemfile");
    assert_eq!(lang_of("repo/Rakefile"), "Rakefile");
    assert_eq!(lang_of("repo/unknownname"), "Raw");
}

#[test]
fn a_leading_dot_is_no_extension() {
    // A name whose only dot is its first character has no extension; with
    // no conventional name and no interpreter line it stays raw.
    assert_eq!(lang_of("repo/.bashrc"), "Raw");
    // A later dot still counts, even behind a leading one.
    assert_eq!(lang_of("repo/.hidden.rs"), "Rust");
}

#[test]
fn parse_file_name_table() {
    assert_eq!(parse_file_name("Dockerfile"), "Dockerfile");
    assert_eq!(parse_file_name("Jenkinsfile"), "Groovy");
    assert_eq!(parse_file_name("anything"), "Raw");
}

#[test]
fn denylisted_lockfiles_are_skipped() {
    let err = read_file("repo/package-lock.json", some_source()).unwrap_err();
    assert_eq!(err, "Ignore file: 'repo/package-lock.json'!");
    let err = read_file("repo/yarn.lock", some_source()).unwrap_err();
    assert_eq!(err, "Ignore file: 'repo/yarn.lock'!");
}

#[test]
fn unreadable_and_empty_files_are_skipped() {
    let err = read_file("repo/a.rs", None).unwrap_err();
    assert_eq!(err, "Failed to read file: 'repo/a.rs'!");
    let err = read_file("repo/a.rs", Some(String::new())).unwrap_err();
    assert_eq!(err, "Failed to read file: 'repo/a.rs'!");
}

#[test]
fn too_short_sources_are_skipped() {
    let err = read_file("repo/a.rs", Some("tiny".to_string())).unwrap_err();
    assert_eq!(err, "Source code to short: tiny");
}

#[test]
fn read_file_hands_back_the_characters() {
    let (input, lang) = read_file("repo/main.go", Some("package main // ok".to_string())).unwrap();
    assert_eq!(input.iter().collect::<String>(), "package main // ok");
    assert_eq!(lang, "Go");
}

#[test]
fn shebang_classifies_extensionless_scripts() {
    let bash = Some("#!/usr/bin/env bash\necho hello\n".to_string());
    assert_eq!(read_file("repo/run", bash).unwrap().1, "Shell");
    let sh = Some("#!/bin/sh\necho hello\n".to_string());
    assert_eq!(read_file("repo/run", sh).unwrap().1, "Shell");
    let ruby = Some("#!/usr/bin/env ruby\nputs 'hello'\n".to_string());
    assert_eq!(read_file("repo/task", ruby).unwrap().1, "Ruby");
    let php = Some("#!/usr/bin/env php\necho 'hello';\n".to_string());
    assert_eq!(read_file("repo/task", php).unwrap().1, "PHP");
    let plain = Some("no interpreter line at all\n".to_string());
    assert_eq!(read_file("repo/task", plain).unwrap().1, "Raw");
}

#[test]
fn shebang_selects_the_shell_renderer() {
    // A file with no extension and no conventional name classifies as Raw;
    // the renderer then sniffs the interpreter line and highlights it as
    // shell, exactly as if the shell renderer had been chosen by name.
    let text = "#!/usr/bin/env bash\necho hello there\n";
    let chars = string_to_chars(text);
    let sniffed = render_html(chars.clone(), "Raw");
    let named = hl_core::render_html(chars, "bash");
    assert_eq!(sniffed, named);
}

#[test]
fn ruby_marker_selects_the_ruby_renderer() {
    let text = "#!/usr/bin/env ruby\nputs 'hello'\n";
    let chars = string_to_chars(text);
    let sniffed = render_html(chars.clone(), "Raw");
    let named = hl_core::render_html(chars, "ruby");
    assert_eq!(sniffed, named);
}

#[test]
fn renderer_guard_accepts_ordinary_sources() {
    assert!(render_guard(&string_to_chars("package main\n"), "Go"));
    assert!(render_guard(&string_to_chars("x = {- note -} 1\n"), "Haskell"));
    assert!(render_guard(&string_to_chars("echo hello\n"), "Shell"));
    assert!(render_guard(&string_to_chars("<!DOCTYPE html><p>hi</p>\n"), "HTML"));
    assert!(render_guard(&string_to_chars("<?php phpinfo(); ?>\n"), "PHP"));
    assert!(render_guard(&string_to_chars("all: build\n"), "Makefile"));
}

#[test]
fn renderer_guard_refuses_what_the_lexers_cannot_take() {
    // each of these openings makes the matching lexer read outside the text
    assert!(!render_guard(&string_to_chars("'quoted' start\n"), "Shell"));
    assert!(!render_guard(&string_to_chars("html text first\n"), "HTML"));
    assert!(!render_guard(&string_to_chars("$x = 1;\n"), "PHP"));
    assert!(!render_guard(&string_to_chars("export CC=gcc\n"), "Makefile"));
    assert!(!render_guard(&string_to_chars("x = 1 {- oops\n"), "Haskell"));
}

#[test]
fn renderer_takes_sources_without_a_final_newline() {
    // the renderer is handed a newline-terminated copy, so a source whose
    // last character is a digit (which the lexer peeks past) still renders
    let html = render_html(string_to_chars("package main // v10"), "Go");
    assert!(html.contains("highlight-table"));
}

#[test]
fn denylist_is_testable_by_name() {
    assert!(denylisted("package-lock.json"));
    assert!(denylisted("yarn.lock"));
    assert!(!denylisted("Cargo.lock"));
}

#[test]
fn no_marker_falls_back_to_raw() {
    let text = "just some words\nwith no interpreter line\n";
    let chars = string_to_chars(text);
    let sniffed = render_html(chars.clone(), "NoSuchLanguage");
    let raw = hl_core::render_html(chars, "raw");
    assert_eq!(sniffed, raw);
}
