//! File classification and highlight rendering: a denylist of lockfiles,
//! extension and filename language tables, shebang sniffing, and the call
//! into the external highlight renderer.

use crate::strutil::{after_last, after_last_str, concat2, concat3, rfind_char, str_eq};
use vstd::prelude::*;

verus! {

/// The highlighted markup the external renderer produces for a source text
/// and a renderer language tag. A function of the two arguments alone.
pub uninterp spec fn rendered_html(input: Seq<char>, tag: Seq<char>) -> Seq<char>;

/// `s`, with a newline appended when it does not already end in one. The
/// renderer is only ever handed newline-terminated text.
pub open spec fn newline_terminated(s: Seq<char>) -> Seq<char> {
    if s.len() > 0 && s.last() == '\n' {
        s
    } else {
        s.push('\n')
    }
}

/// Whether `c` is an ASCII letter.
pub open spec fn is_ascii_alpha(c: char) -> bool {
    (97 <= c as u32 && c as u32 <= 122) || (65 <= c as u32 && c as u32 <= 90)
}

/// Whether `c` can stand in an identifier of the renderer's lexers: an ASCII
/// letter or an underscore.
pub open spec fn is_ident_char(c: char) -> bool {
    is_ascii_alpha(c) || c == '_'
}

/// The identifier `s` starts with: its longest prefix of identifier
/// characters.
pub open spec fn ident_prefix(s: Seq<char>) -> Seq<char>
    decreases s.len(),
{
    if s.len() > 0 && is_ident_char(s[0]) {
        seq![s[0]] + ident_prefix(s.drop_first())
    } else {
        Seq::empty()
    }
}

/// Whether `s` begins with one of the identifiers the makefile lexer treats
/// as keywords; its keyword handling reads one character before the
/// identifier, which does not exist at the start of the text.
pub open spec fn makefile_kw_start(s: Seq<char>) -> bool {
    let id = ident_prefix(s);
    ||| id == "PHONY"@
    ||| id == "call"@
    ||| id == "cd"@
    ||| id == "command"@
    ||| id == "test"@
    ||| id == "echo"@
    ||| id == "shell"@
    ||| id == "MAKE"@
    ||| id == "export"@
    ||| id == seq!['i', 'n', 'c', 'l', 'u', 'd', 'e']
}

/// Whether the two characters `a` and `b` stand at position `i` of `s`.
pub open spec fn pair_at(s: Seq<char>, i: int, a: char, b: char) -> bool {
    0 <= i && i + 1 < s.len() && s[i] == a && s[i + 1] == b
}

/// Whether every `{-` in `s` is followed, two or more characters later, by
/// some `-}`: the haskell lexer's block-comment scan reads past the end of a
/// text in which one is left open.
pub open spec fn hs_block_safe(s: Seq<char>) -> bool {
    forall|i: int|
        #[trigger] pair_at(s, i, '{', '-') ==> exists|j: int|
            j >= i + 2 && #[trigger] pair_at(s, j, '-', '}')
}

/// The renderer tags this library ever chooses.
pub open spec fn known_tag(tag: Seq<char>) -> bool {
    ||| tag == "bash"@
    ||| tag == "c"@
    ||| tag == "cpp"@
    ||| tag == "clojure"@
    ||| tag == "css"@
    ||| tag == "cuda"@
    ||| tag == "dart"@
    ||| tag == "edn"@
    ||| tag == "go"@
    ||| tag == "groovy"@
    ||| tag == "haskell"@
    ||| tag == "html"@
    ||| tag == "ruby"@
    ||| tag == "rust"@
    ||| tag == "cs"@
    ||| tag == "java"@
    ||| tag == "javascript"@
    ||| tag == "json"@
    ||| tag == "kotlin"@
    ||| tag == "lua"@
    ||| tag == "makefile"@
    ||| tag == "markdown"@
    ||| tag == "nim"@
    ||| tag == "php"@
    ||| tag == "python"@
    ||| tag == "toml"@
    ||| tag == "typescript"@
    ||| tag == "yaml"@
    ||| tag == "proto"@
    ||| tag == "raw"@
}

/// Whether the renderer's lexer for `tag` accepts the newline-terminated
/// text `input` without reading outside it. Each condition names a place
/// where the vendored lexer indexes past an end of the text: the bash lexer
/// reads one character before a leading quote, the html and makefile lexers
/// read one character before an initial keyword, the php lexer reads one
/// character before a leading `$`, and the haskell lexer scans past the end
/// of an unterminated block comment.
pub open spec fn render_safe(input: Seq<char>, tag: Seq<char>) -> bool {
    &&& known_tag(tag)
    &&& tag == "bash"@ ==> input[0] != '\''
    &&& tag == "html"@ ==> !is_ascii_alpha(input[0])
    &&& tag == "php"@ ==> input[0] != '$'
    &&& tag == "makefile"@ ==> !makefile_kw_start(input)
    &&& tag == "haskell"@ ==> hs_block_safe(input)
}

/// Relies on `hl_core::render_html`: it renders a source text into an HTML
/// table, one row per source line, deterministically from text and tag. Its
/// lexers index one character past the current one in places, so the text
/// must be newline-terminated and must avoid the handful of openings that
/// `render_safe` names, on which they abort.
#[verifier::external_body]
fn hl_render(input: Vec<char>, tag: &str) -> (r: String)
    requires
        input@.len() > 0,
        input@.last() == '\n',
        render_safe(input@, tag@),
    ensures
        r@ == rendered_html(input@, tag@),
{
    hl_core::render_html(input, tag)
}

/// The file-name component of a `/`-separated path.
pub open spec fn file_name_of(path: Seq<char>) -> Seq<char> {
    after_last(path, '/')
}

/// The extension of a file name: the text after the last `.`, except that a
/// name whose only `.` is its leading character has no extension.
pub open spec fn extension_of(name: Seq<char>) -> Option<Seq<char>> {
    if name.len() > 0 && name.drop_first().contains('.') {
        Some(after_last(name, '.'))
    } else {
        None
    }
}

/// The extension of the file name `name`, if it has one.
pub fn extension_str<'a>(name: &'a str) -> (r: Option<&'a str>)
    ensures
        match r {
            Some(e) => extension_of(name@) == Some(e@),
            None => extension_of(name@) is None,
        },
{
    match rfind_char(name, '.') {
        Some(i) => {
            if i == 0 {
                proof {
                    if name@.drop_first().contains('.') {
                        let j = choose|j: int|
                            0 <= j < name@.drop_first().len() && name@.drop_first()[j] == '.';
                        assert(name@[j + 1] == '.');
                    }
                }
                None
            } else {
                proof {
                    assert(name@.drop_first()[i - 1] == '.');
                    assert(name@.drop_first().contains('.'));
                }
                Some(after_last_str(name, '.'))
            }
        },
        None => {
            proof {
                if name@.len() > 0 && name@.drop_first().contains('.') {
                    let j = choose|j: int|
                        0 <= j < name@.drop_first().len() && name@.drop_first()[j] == '.';
                    assert(name@[j + 1] == '.');
                }
            }
            None
        },
    }
}

/// The language of a conventionally-named file without an extension.
pub open spec fn file_name_lang(file: Seq<char>) -> Seq<char> {
    if file == "Jenkinsfile"@ {
        "Groovy"@
    } else if file == "Dockerfile"@ {
        "Dockerfile"@
    } else if file == "Makefile"@ {
        "Makefile"@
    } else if file == "Gemfile"@ {
        "Gemfile"@
    } else if file == "Rakefile"@ {
        "Rakefile"@
    } else {
        "Raw"@
    }
}

/// The language of a conventionally-named file without an extension.
pub fn parse_file_name(file: &str) -> (r: &'static str)
    ensures
        r@ == file_name_lang(file@),
{
    if str_eq(file, "Jenkinsfile") {
        "Groovy"
    } else if str_eq(file, "Dockerfile") {
        "Dockerfile"
    } else if str_eq(file, "Makefile") {
        "Makefile"
    } else if str_eq(file, "Gemfile") {
        "Gemfile"
    } else if str_eq(file, "Rakefile") {
        "Rakefile"
    } else {
        "Raw"
    }
}

/// The language for an extension; lockfiles with a known format are
/// classified by their full file name, and an unrecognized extension passes
/// through as its own tag.
pub open spec fn ext_lang(ext: Seq<char>, name: Seq<char>) -> Seq<char> {
    if ext == "sh"@ || ext == "zsh"@ || ext == "bash"@ {
        "Shell"@
    } else if ext == "js"@ {
        "JavaScript"@
    } else if ext == "go"@ {
        "Go"@
    } else if ext == "groovy"@ {
        "Groovy"@
    } else if ext == "ts"@ || ext == "tsx"@ {
        "TypeScript"@
    } else if ext == "c"@ || ext == "h"@ {
        "C"@
    } else if ext == "cpp"@ || ext == "c++"@ {
        "C++"@
    } else if ext == "html"@ {
        "HTML"@
    } else if ext == "hs"@ {
        "Haskell"@
    } else if ext == "java"@ {
        "Java"@
    } else if ext == "kt"@ {
        "Kotlin"@
    } else if ext == "lua"@ {
        "Lua"@
    } else if ext == "md"@ || ext == "adoc"@ {
        "Markdown"@
    } else if ext == "nim"@ {
        "Nim"@
    } else if ext == "py"@ {
        "Python"@
    } else if ext == "php"@ {
        "PHP"@
    } else if ext == "ru"@ || ext == "rb"@ || ext == "podspec"@ {
        "Ruby"@
    } else if ext == "rs"@ {
        "Rust"@
    } else if ext == "toml"@ {
        "TOML"@
    } else if ext == "cs"@ {
        "C#"@
    } else if ext == "yml"@ || ext == "yaml"@ {
        "YAML"@
    } else if ext == "dart"@ {
        "Dart"@
    } else if ext == "patch"@ {
        "Diff"@
    } else if ext == "json"@ {
        "JSON"@
    } else if ext == "proto"@ {
        "Protocol Buffer"@
    } else if ext == "lock"@ {
        if name == "Cargo.lock"@ {
            "TOML"@
        } else if name == "Gemfile.lock"@ {
            "Gemfile"@
        } else if name == "yarn.lock"@ {
            "YAML"@
        } else {
            "Raw"@
        }
    } else {
        ext
    }
}

/// The language for the extension `ext` of the file named `name`.
pub fn language_for_extension<'a>(ext: &'a str, name: &str) -> (r: &'a str)
    ensures
        r@ == ext_lang(ext@, name@),
{
    if str_eq(ext, "sh") || str_eq(ext, "zsh") || str_eq(ext, "bash") {
        "Shell"
    } else if str_eq(ext, "js") {
        "JavaScript"
    } else if str_eq(ext, "go") {
        "Go"
    } else if str_eq(ext, "groovy") {
        "Groovy"
    } else if str_eq(ext, "ts") || str_eq(ext, "tsx") {
        "TypeScript"
    } else if str_eq(ext, "c") || str_eq(ext, "h") {
        "C"
    } else if str_eq(ext, "cpp") || str_eq(ext, "c++") {
        "C++"
    } else if str_eq(ext, "html") {
        "HTML"
    } else if str_eq(ext, "hs") {
        "Haskell"
    } else if str_eq(ext, "java") {
        "Java"
    } else if str_eq(ext, "kt") {
        "Kotlin"
    } else if str_eq(ext, "lua") {
        "Lua"
    } else if str_eq(ext, "md") || str_eq(ext, "adoc") {
        "Markdown"
    } else if str_eq(ext, "nim") {
        "Nim"
    } else if str_eq(ext, "py") {
        "Python"
    } else if str_eq(ext, "php") {
        "PHP"
    } else if str_eq(ext, "ru") || str_eq(ext, "rb") || str_eq(ext, "podspec") {
        "Ruby"
    } else if str_eq(ext, "rs") {
        "Rust"
    } else if str_eq(ext, "toml") {
        "TOML"
    } else if str_eq(ext, "cs") {
        "C#"
    } else if str_eq(ext, "yml") || str_eq(ext, "yaml") {
        "YAML"
    } else if str_eq(ext, "dart") {
        "Dart"
    } else if str_eq(ext, "patch") {
        "Diff"
    } else if str_eq(ext, "json") {
        "JSON"
    } else if str_eq(ext, "proto") {
        "Protocol Buffer"
    } else if str_eq(ext, "lock") {
        if str_eq(name, "Cargo.lock") {
            "TOML"
        } else if str_eq(name, "Gemfile.lock") {
            "Gemfile"
        } else if str_eq(name, "yarn.lock") {
            "YAML"
        } else {
            "Raw"
        }
    } else {
        ext
    }
}

/// The language sniffed from the interpreter line of a file that has no
/// extension and no conventional name.
pub open spec fn sniff_lang(input: Seq<char>) -> Seq<char> {
    if has_marker(input, "#!/bin/sh"@) || has_marker(input, "#!/bin/bash"@) || has_marker(
        input,
        "#!/usr/bin/env bash"@,
    ) || has_marker(input, "#!/usr/bin/env sh"@) || has_marker(input, "#!/usr/bin/env zsh"@) {
        "Shell"@
    } else if has_marker(input, "#!/usr/bin/env ruby"@) || has_marker(input, "@ruby"@) {
        "Ruby"@
    } else if has_marker(input, "#!/usr/bin/env php"@) {
        "PHP"@
    } else {
        "Raw"@
    }
}

/// The language sniffed from the interpreter line of `input`.
fn sniff_language(input: &Vec<char>) -> (r: &'static str)
    ensures
        r@ == sniff_lang(input@),
{
    if vec_has_marker(input, "#!/bin/sh") || vec_has_marker(input, "#!/bin/bash")
        || vec_has_marker(input, "#!/usr/bin/env bash") || vec_has_marker(input, "#!/usr/bin/env sh")
        || vec_has_marker(input, "#!/usr/bin/env zsh") {
        "Shell"
    } else if vec_has_marker(input, "#!/usr/bin/env ruby") || vec_has_marker(input, "@ruby") {
        "Ruby"
    } else if vec_has_marker(input, "#!/usr/bin/env php") {
        "PHP"
    } else {
        "Raw"
    }
}

/// The language of the file at `path` with text `input`: by extension when
/// it has one, by conventional file name otherwise, and by the interpreter
/// line when neither matches.
pub open spec fn classify_spec(path: Seq<char>, input: Seq<char>) -> Seq<char> {
    match extension_of(file_name_of(path)) {
        Some(ext) => ext_lang(ext, file_name_of(path)),
        None => if file_name_lang(file_name_of(path)) == "Raw"@ {
            sniff_lang(input)
        } else {
            file_name_lang(file_name_of(path))
        },
    }
}

/// Whether the file name is one of the denylisted package-manager lockfiles
/// that are never indexed.
pub open spec fn is_denylisted(name: Seq<char>) -> bool {
    name == "package-lock.json"@ || name == "yarn.lock"@
}

/// Whether this file name is never indexed, so a caller can spare itself the
/// read.
pub fn denylisted(name: &str) -> (r: bool)
    ensures
        r == is_denylisted(name@),
{
    str_eq(name, "package-lock.json") || str_eq(name, "yarn.lock")
}

/// The characters of `s`, as a vector.
pub fn string_to_chars(s: &str) -> (r: Vec<char>)
    ensures
        r@ == s@,
{
    let n = s.unicode_len();
    let mut v: Vec<char> = Vec::new();
    let mut i: usize = 0;
    while i < n
        invariant
            i <= n,
            n as nat == s@.len(),
            v@ == s@.take(i as int),
        decreases n - i,
    {
        let c = s.get_char(i);
        v.push(c);
        proof {
            assert(s@.take(i + 1) =~= s@.take(i as int).push(s@[i as int]));
        }
        i = i + 1;
    }
    proof {
        assert(s@.take(n as int) =~= s@);
    }
    v
}

/// The outcome of reading one file for indexing: its characters and language,
/// or the reason it is skipped. `source` is the file's text, when it could be
/// read at all.
pub fn read_file(path: &str, source: Option<String>) -> (r: Result<(Vec<char>, String), String>)
    ensures
        match r {
            Ok((input, lang)) => {
                &&& source is Some
                &&& !is_denylisted(file_name_of(path@))
                &&& source.unwrap()@.len() > 12
                &&& input@ == source.unwrap()@
                &&& lang@ == classify_spec(path@, source.unwrap()@)
            },
            Err(msg) => {
                &&& {
                    ||| is_denylisted(file_name_of(path@))
                    ||| source is None
                    ||| source.unwrap()@.len() <= 12
                }
                &&& if is_denylisted(file_name_of(path@)) {
                    msg@ == "Ignore file: '"@ + path@ + "'!"@
                } else if source is None || source.unwrap()@.len() == 0 {
                    msg@ == "Failed to read file: '"@ + path@ + "'!"@
                } else {
                    msg@ == "Source code to short: "@ + source.unwrap()@
                }
            },
        },
{
    let name = after_last_str(path, '/');
    if denylisted(name) {
        return Err(concat3("Ignore file: '", path, "'!"));
    }
    match source {
        Some(src) => {
            let len = src.as_str().unicode_len();
            if len == 0 {
                Err(concat3("Failed to read file: '", path, "'!"))
            } else if len <= 12 {
                Err(concat2("Source code to short: ", src.as_str()))
            } else {
                let input = string_to_chars(src.as_str());
                let lang: String = match extension_str(name) {
                    Some(ext) => String::from_str(language_for_extension(ext, name)),
                    None => {
                        let byname = parse_file_name(name);
                        if str_eq(byname, "Raw") {
                            String::from_str(sniff_language(&input))
                        } else {
                            String::from_str(byname)
                        }
                    },
                };
                Ok((input, lang))
            }
        },
        None => Err(concat3("Failed to read file: '", path, "'!")),
    }
}

/// Whether `input` begins with the marker `m` and is strictly longer than it.
pub open spec fn has_marker(input: Seq<char>, m: Seq<char>) -> bool {
    input.len() > m.len() && input.take(m.len() as int) == m
}

/// Whether the text begins with the interpreter marker `m` and goes on past
/// it.
fn vec_has_marker(input: &Vec<char>, m: &str) -> (r: bool)
    ensures
        r == has_marker(input@, m@),
{
    let ml = m.unicode_len();
    if input.len() <= ml {
        return false;
    }
    let mut i: usize = 0;
    while i < ml
        invariant
            i <= ml,
            ml as nat == m@.len(),
            input@.len() > m@.len(),
            forall|j: int| 0 <= j < i ==> input@[j] == m@[j],
        decreases ml - i,
    {
        if *input.get(i).unwrap() != m.get_char(i) {
            proof {
                assert(input@.take(ml as int)[i as int] != m@[i as int]);
            }
            return false;
        }
        i = i + 1;
    }
    proof {
        assert(input@.take(ml as int) =~= m@);
    }
    true
}

/// The renderer tag chosen by sniffing the interpreter line of a text whose
/// language is not otherwise recognized.
pub open spec fn shebang_tag(input: Seq<char>) -> Seq<char> {
    if has_marker(input, "#!/bin/sh"@) {
        "bash"@
    } else if has_marker(input, "#!/bin/bash"@) {
        "bash"@
    } else if has_marker(input, "#!/usr/bin/env bash"@) {
        "bash"@
    } else if has_marker(input, "#!/usr/bin/env sh"@) {
        "bash"@
    } else if has_marker(input, "#!/usr/bin/env zsh"@) {
        "bash"@
    } else if has_marker(input, "#!/usr/bin/env ruby"@) {
        "ruby"@
    } else if has_marker(input, "#!/usr/bin/env php"@) {
        "php"@
    } else if has_marker(input, "@ruby"@) {
        "ruby"@
    } else {
        "raw"@
    }
}

/// The renderer tag for a language name, falling back to the shebang sniff
/// for languages the renderer does not know by name.
pub open spec fn renderer_tag(lang: Seq<char>, input: Seq<char>) -> Seq<char> {
    if lang == "Shell"@ {
        "bash"@
    } else if lang == "C"@ {
        "c"@
    } else if lang == "C++"@ {
        "cpp"@
    } else if lang == "Clojure"@ {
        "clojure"@
    } else if lang == "CSS"@ {
        "css"@
    } else if lang == "CUDA"@ {
        "cuda"@
    } else if lang == "Dart"@ {
        "dart"@
    } else if lang == "edn"@ {
        "edn"@
    } else if lang == "Go"@ {
        "go"@
    } else if lang == "Groovy"@ {
        "groovy"@
    } else if lang == "Haskell"@ {
        "haskell"@
    } else if lang == "HTML"@ {
        "html"@
    } else if lang == "Ruby"@ || lang == "Rakefile"@ || lang == "Gemfile"@ {
        "ruby"@
    } else if lang == "Rust"@ {
        "rust"@
    } else if lang == "C#"@ {
        "cs"@
    } else if lang == "Java"@ {
        "java"@
    } else if lang == "JavaScript"@ {
        "javascript"@
    } else if lang == "JSON"@ {
        "json"@
    } else if lang == "Kotlin"@ {
        "kotlin"@
    } else if lang == "Lua"@ {
        "lua"@
    } else if lang == "Makefile"@ {
        "makefile"@
    } else if lang == "Markdown"@ {
        "markdown"@
    } else if lang == "Nim"@ {
        "nim"@
    } else if lang == "PHP"@ {
        "php"@
    } else if lang == "Python"@ {
        "python"@
    } else if lang == "TOML"@ {
        "toml"@
    } else if lang == "TypeScript"@ {
        "typescript"@
    } else if lang == "YAML"@ {
        "yaml"@
    } else if lang == "Protocol Buffer"@ {
        "proto"@
    } else {
        shebang_tag(input)
    }
}

/// The renderer tag for `lang`, sniffing `input` when `lang` is unknown.
fn choose_renderer_tag(lang: &str, input: &Vec<char>) -> (r: &'static str)
    ensures
        r@ == renderer_tag(lang@, input@),
{
    if str_eq(lang, "Shell") {
        "bash"
    } else if str_eq(lang, "C") {
        "c"
    } else if str_eq(lang, "C++") {
        "cpp"
    } else if str_eq(lang, "Clojure") {
        "clojure"
    } else if str_eq(lang, "CSS") {
        "css"
    } else if str_eq(lang, "CUDA") {
        "cuda"
    } else if str_eq(lang, "Dart") {
        "dart"
    } else if str_eq(lang, "edn") {
        "edn"
    } else if str_eq(lang, "Go") {
        "go"
    } else if str_eq(lang, "Groovy") {
        "groovy"
    } else if str_eq(lang, "Haskell") {
        "haskell"
    } else if str_eq(lang, "HTML") {
        "html"
    } else if str_eq(lang, "Ruby") || str_eq(lang, "Rakefile") || str_eq(lang, "Gemfile") {
        "ruby"
    } else if str_eq(lang, "Rust") {
        "rust"
    } else if str_eq(lang, "C#") {
        "cs"
    } else if str_eq(lang, "Java") {
        "java"
    } else if str_eq(lang, "JavaScript") {
        "javascript"
    } else if str_eq(lang, "JSON") {
        "json"
    } else if str_eq(lang, "Kotlin") {
        "kotlin"
    } else if str_eq(lang, "Lua") {
        "lua"
    } else if str_eq(lang, "Makefile") {
        "makefile"
    } else if str_eq(lang, "Markdown") {
        "markdown"
    } else if str_eq(lang, "Nim") {
        "nim"
    } else if str_eq(lang, "PHP") {
        "php"
    } else if str_eq(lang, "Python") {
        "python"
    } else if str_eq(lang, "TOML") {
        "toml"
    } else if str_eq(lang, "TypeScript") {
        "typescript"
    } else if str_eq(lang, "YAML") {
        "yaml"
    } else if str_eq(lang, "Protocol Buffer") {
        "proto"
    } else if vec_has_marker(input, "#!/bin/sh") {
        "bash"
    } else if vec_has_marker(input, "#!/bin/bash") {
        "bash"
    } else if vec_has_marker(input, "#!/usr/bin/env bash") {
        "bash"
    } else if vec_has_marker(input, "#!/usr/bin/env sh") {
        "bash"
    } else if vec_has_marker(input, "#!/usr/bin/env zsh") {
        "bash"
    } else if vec_has_marker(input, "#!/usr/bin/env ruby") {
        "ruby"
    } else if vec_has_marker(input, "#!/usr/bin/env php") {
        "php"
    } else if vec_has_marker(input, "@ruby") {
        "ruby"
    } else {
        "raw"
    }
}

proof fn lemma_renderer_tag_known(lang: Seq<char>, input: Seq<char>)
    ensures
        known_tag(renderer_tag(lang, input)),
{
}

/// Whether `c` is an ASCII letter.
fn ascii_alpha(c: char) -> (r: bool)
    ensures
        r == is_ascii_alpha(c),
{
    (97 <= c as u32 && c as u32 <= 122) || (65 <= c as u32 && c as u32 <= 90)
}

/// Whether `c` can stand in an identifier of the renderer's lexers.
fn ident_char(c: char) -> (r: bool)
    ensures
        r == is_ident_char(c),
{
    ascii_alpha(c) || c == '_'
}

proof fn lemma_ident_prefix_take(s: Seq<char>, k: int)
    requires
        0 <= k <= s.len(),
        forall|j: int| 0 <= j < k ==> is_ident_char(s[j]),
        k == s.len() || !is_ident_char(s[k]),
    ensures
        ident_prefix(s) == s.take(k),
    decreases s.len(),
{
    if s.len() == 0 {
        assert(s.take(k) =~= Seq::<char>::empty());
    } else if k == 0 {
        assert(ident_prefix(s) =~= s.take(0));
    } else {
        assert(is_ident_char(s[0]));
        lemma_ident_prefix_take(s.drop_first(), k - 1);
        assert(seq![s[0]] + s.drop_first().take(k - 1) =~= s.take(k));
    }
}

/// The identifier the text starts with.
fn ident_prefix_vec(input: &Vec<char>) -> (r: Vec<char>)
    ensures
        r@ == ident_prefix(input@),
{
    let n = input.len();
    let mut v: Vec<char> = Vec::new();
    let mut i: usize = 0;
    while i < n && ident_char(input[i])
        invariant
            i <= n,
            n == input@.len(),
            forall|j: int| 0 <= j < i ==> is_ident_char(input@[j]),
            v@ == input@.take(i as int),
        decreases n - i,
    {
        let c = input[i];
        v.push(c);
        proof {
            assert(input@.take(i + 1) =~= input@.take(i as int).push(input@[i as int]));
        }
        i = i + 1;
    }
    proof {
        lemma_ident_prefix_take(input@, i as int);
    }
    v
}

/// Equality of a character vector and a string slice.
fn chars_eq_str(v: &Vec<char>, s: &str) -> (r: bool)
    ensures
        r == (v@ == s@),
{
    let n = s.unicode_len();
    if v.len() != n {
        return false;
    }
    let mut i: usize = 0;
    while i < n
        invariant
            i <= n,
            n == v@.len(),
            n as nat == s@.len(),
            forall|j: int| 0 <= j < i ==> v@[j] == s@[j],
        decreases n - i,
    {
        if v[i] != s.get_char(i) {
            return false;
        }
        i = i + 1;
    }
    proof {
        assert(v@ =~= s@);
    }
    true
}

/// Whether the text begins with one of the makefile lexer's keywords.
fn makefile_kw_start_check(input: &Vec<char>) -> (r: bool)
    ensures
        r == makefile_kw_start(input@),
{
    let pref = ident_prefix_vec(input);
    let mut kw_last: Vec<char> = Vec::new();
    kw_last.push('i');
    kw_last.push('n');
    kw_last.push('c');
    kw_last.push('l');
    kw_last.push('u');
    kw_last.push('d');
    kw_last.push('e');
    proof {
        assert(kw_last@ =~= seq!['i', 'n', 'c', 'l', 'u', 'd', 'e']);
    }
    let same_last = chars_eq_vec(&pref, &kw_last);
    chars_eq_str(&pref, "PHONY") || chars_eq_str(&pref, "call") || chars_eq_str(&pref, "cd")
        || chars_eq_str(&pref, "command") || chars_eq_str(&pref, "test") || chars_eq_str(
        &pref,
        "echo",
    ) || chars_eq_str(&pref, "shell") || chars_eq_str(&pref, "MAKE") || chars_eq_str(
        &pref,
        "export",
    ) || same_last
}

/// Equality of two character vectors.
fn chars_eq_vec(a: &Vec<char>, b: &Vec<char>) -> (r: bool)
    ensures
        r == (a@ == b@),
{
    let n = b.len();
    if a.len() != n {
        return false;
    }
    let mut i: usize = 0;
    while i < n
        invariant
            i <= n,
            n == a@.len(),
            n == b@.len(),
            forall|j: int| 0 <= j < i ==> a@[j] == b@[j],
        decreases n - i,
    {
        if a[i] != b[i] {
            return false;
        }
        i = i + 1;
    }
    proof {
        assert(a@ =~= b@);
    }
    true
}

/// The position of the last occurrence of the two-character sequence
/// `a``b` in the text, if there is one.
fn rfind_pair(v: &Vec<char>, a: char, b: char) -> (r: Option<usize>)
    ensures
        match r {
            Some(i) => pair_at(v@, i as int, a, b) && (forall|k: int|
                k > i ==> !pair_at(v@, k, a, b)),
            None => forall|k: int| !pair_at(v@, k, a, b),
        },
{
    let n = v.len();
    if n < 2 {
        return None;
    }
    let mut p: usize = n - 1;
    while p > 0
        invariant
            p <= n - 1,
            n == v@.len(),
            forall|k: int| k >= p ==> !pair_at(v@, k, a, b),
        decreases p,
    {
        p = p - 1;
        if v[p] == a && v[p + 1] == b {
            return Some(p);
        }
    }
    None
}

/// Whether the two-character sequence `a``b` occurs at or after `from`.
fn exists_pair_from(v: &Vec<char>, from: usize, a: char, b: char) -> (r: bool)
    ensures
        r == exists|j: int| j >= from && pair_at(v@, j, a, b),
{
    let n = v.len();
    if from >= n {
        proof {
            assert forall|j: int| j >= from implies !pair_at(v@, j, a, b) by {}
        }
        return false;
    }
    let mut j: usize = from;
    while j < n - 1
        invariant
            from <= j <= n,
            1 <= n == v@.len(),
            forall|k: int| from <= k < j ==> !pair_at(v@, k, a, b),
        decreases n - j,
    {
        if v[j] == a && v[j + 1] == b {
            proof {
                assert(pair_at(v@, j as int, a, b));
            }
            return true;
        }
        j = j + 1;
    }
    proof {
        assert forall|k: int| k >= from implies !pair_at(v@, k, a, b) by {
            if k < j {
            } else {
                assert(k + 1 >= n);
            }
        }
    }
    false
}

/// Whether every open block comment of the haskell lexer is closed.
fn hs_safe(input: &Vec<char>) -> (r: bool)
    ensures
        r == hs_block_safe(input@),
{
    let n = input.len();
    match rfind_pair(input, '{', '-') {
        None => true,
        Some(a) => {
            proof {
                assert(a + 2 <= n);
            }
            let r = exists_pair_from(input, a + 2, '-', '}');
            proof {
                if r {
                    assert forall|i: int| pair_at(input@, i, '{', '-') implies exists|j: int|
                        j >= i + 2 && pair_at(input@, j, '-', '}') by {
                        assert(i <= a);
                        let j0 = choose|j0: int| j0 >= a + 2 && pair_at(input@, j0, '-', '}');
                        assert(j0 >= i + 2 && pair_at(input@, j0, '-', '}'));
                    }
                } else {
                    if hs_block_safe(input@) {
                        assert(pair_at(input@, a as int, '{', '-'));
                        let j0 = choose|j0: int|
                            j0 >= a + 2 && pair_at(input@, j0, '-', '}');
                        assert(j0 >= a + 2 && pair_at(input@, j0, '-', '}'));
                    }
                }
            }
            r
        },
    }
}

/// Whether the renderer accepts this text for this language: the text is
/// judged in its newline-terminated form, with the tag the language maps to.
pub open spec fn render_ready(input: Seq<char>, lang: Seq<char>) -> bool {
    render_safe(
        newline_terminated(input),
        renderer_tag(lang, newline_terminated(input)),
    )
}

/// Whether the renderer accepts this text for this language. A file that is
/// refused here is skipped as unrenderable rather than handed to a lexer
/// that would abort on it.
pub fn render_guard(input: &Vec<char>, lang: &str) -> (r: bool)
    ensures
        r == render_ready(input@, lang@),
{
    let mut norm: Vec<char> = input.clone();
    proof {
        assert(norm@ =~= input@);
    }
    let n = norm.len();
    if n == 0 || norm[n - 1] != '\n' {
        norm.push('\n');
    }
    proof {
        assert(norm@ =~= newline_terminated(input@));
    }
    let tag = choose_renderer_tag(lang, &norm);
    proof {
        lemma_renderer_tag_known(lang@, norm@);
    }
    let c0 = norm[0];
    let ok_bash = !str_eq(tag, "bash") || c0 != '\'';
    let ok_html = !str_eq(tag, "html") || !ascii_alpha(c0);
    let ok_php = !str_eq(tag, "php") || c0 != '$';
    let ok_make = !str_eq(tag, "makefile") || !makefile_kw_start_check(&norm);
    let ok_hs = !str_eq(tag, "haskell") || hs_safe(&norm);
    ok_bash && ok_html && ok_php && ok_make && ok_hs
}

/// The highlighted markup for a text and its language: the renderer invoked
/// on the newline-terminated text, with the tag the language maps to.
pub fn render_html(input: Vec<char>, lang: &str) -> (r: String)
    requires
        render_ready(input@, lang@),
    ensures
        r@ == rendered_html(
            newline_terminated(input@),
            renderer_tag(lang@, newline_terminated(input@)),
        ),
{
    let ghost orig = input@;
    let mut input = input;
    let n = input.len();
    if n == 0 || input[n - 1] != '\n' {
        input.push('\n');
    }
    proof {
        assert(input@ =~= newline_terminated(orig));
    }
    let tag = choose_renderer_tag(lang, &input);
    hl_render(input, tag)
}

} // verus!
