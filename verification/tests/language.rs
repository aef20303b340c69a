use phosphor_core::language::{toggle_comment, Invalid, Languages};
use phosphor_core::request::{LanguageId, LanguageSpec, Tier};
use phosphor_core::value::Value;

fn table() -> Languages {
    Languages::new(&["rust", "css", "typescript", "json", "markdown"])
}

fn spec(extensions: &[&str], grammar: Option<&str>, command: &[&str]) -> LanguageSpec {
    LanguageSpec {
        extensions: extensions.iter().map(|e| (*e).to_owned()).collect(),
        grammar: grammar.map(str::to_owned),
        lsp_command: command.iter().map(|a| (*a).to_owned()).collect(),
        comment_prefix: Some("//".to_owned()),
    }
}

fn rust() -> LanguageSpec {
    spec(&["rs"], Some("rust"), &["rust-analyzer"])
}

fn id(name: &str) -> LanguageId {
    LanguageId(name.to_owned())
}

fn declare(languages: &mut Languages, name: &str, spec: LanguageSpec) -> Option<LanguageSpec> {
    languages.declare(id(name), spec).expect("a legal declaration")
}

fn tier_value(tier: Tier) -> Value {
    Value::Text(
        match tier {
            Tier::FirstClass => "first-class",
            Tier::SecondTier => "second-tier",
        }
        .to_owned(),
    )
}

fn toggled(lines: &[String], prefix: &str) -> Vec<String> {
    let borrowed: Vec<&str> = lines.iter().map(String::as_str).collect();
    toggle_comment(&borrowed, prefix)
}

#[test]
fn a_redeclaration_replaces_in_place() {
    let mut languages = table();
    declare(&mut languages, "rust", rust());
    declare(&mut languages, "css", spec(&["css"], Some("css"), &[]));
    let replaced = declare(&mut languages, "rust", spec(&["rs"], Some("rust"), &["ra-multiplex"]));

    assert_eq!(replaced.expect("rust was declared").lsp_command, ["rust-analyzer"]);
    assert_eq!(languages.len(), 2, "a redeclaration is an edit, not a second language");
    let names: Vec<&str> = languages.iter().iter().map(|(name, _)| name.0.as_str()).collect();
    assert_eq!(names, ["rust", "css"], "and it keeps its place in the order");
}

#[test]
fn a_later_declaration_takes_an_extension_from_an_earlier_one() {
    let mut languages = table();
    declare(&mut languages, "typescript", spec(&["ts"], Some("typescript"), &[]));
    assert_eq!(languages.by_extension("ts"), Some(&id("typescript")));

    declare(&mut languages, "tree-sitter-query", spec(&["ts"], None, &[]));
    assert_eq!(
        languages.by_extension("ts"),
        Some(&id("tree-sitter-query")),
        "the road up is a dead end if the shipped set cannot be overridden"
    );
}

#[test]
fn an_extension_matches_whatever_case_the_filesystem_used() {
    let mut languages = table();
    declare(&mut languages, "rust", rust());
    assert_eq!(languages.by_path("src/MAIN.RS"), Some(&id("rust")));
    assert_eq!(languages.by_path("README"), None);
}

#[test]
fn a_declaration_that_could_never_match_a_file_is_refused() {
    let mut languages = table();

    assert_eq!(languages.declare(id(""), spec(&["zz"], None, &[])), Err(Invalid::Nameless));
    assert_eq!(languages.declare(id("   "), spec(&["zz"], None, &[])), Err(Invalid::Nameless));
    assert_eq!(
        languages.declare(id("dotted"), spec(&[".dt"], None, &[])),
        Err(Invalid::DottedExtension(".dt".to_owned()))
    );
    assert_eq!(
        languages.declare(id("tarball"), spec(&["tar.gz"], None, &[])),
        Err(Invalid::DottedExtension("tar.gz".to_owned())),
        "`a.tar.gz` has extension `gz`; nothing ever answers `tar.gz`"
    );
    assert!(languages.is_empty(), "a refusal leaves the table where it found it");
    assert_eq!(languages.by_path("x.zz"), None);
    assert!(
        !Invalid::DottedExtension(".dt".to_owned()).message().is_empty(),
        "and it says which extension, because the REPL prints this"
    );

    assert!(
        languages.declare(id("private"), spec(&[], None, &[])).is_ok(),
        "claiming no file is documented as legal"
    );
}

#[test]
fn the_tier_is_the_grammars_this_build_has() {
    let mut languages = Languages::new(&["rust"]);
    declare(&mut languages, "rust", rust());
    declare(&mut languages, "steel", spec(&["scm"], Some("scheme"), &[]));
    declare(&mut languages, "csv", spec(&["csv"], None, &[]));

    assert_eq!(languages.tier(&id("rust")), Tier::FirstClass);
    assert_eq!(languages.tier(&id("steel")), Tier::SecondTier, "a grammar nothing can load is not a grammar");
    assert_eq!(languages.tier(&id("csv")), Tier::SecondTier);
    assert_eq!(languages.tier(&id("never-declared")), Tier::SecondTier);

    let mut with_scheme = Languages::new(&["rust", "scheme"]);
    declare(&mut with_scheme, "steel", spec(&["scm"], Some("scheme"), &[]));
    assert_eq!(
        with_scheme.tier(&id("steel")),
        Tier::FirstClass,
        "and the day the arm lands, the same declaration is first class"
    );
    assert_eq!(with_scheme.grammars(), ["rust", "scheme"]);
}

#[test]
fn a_declaration_with_no_server_can_still_be_first_class() {
    let mut languages = Languages::new(&["markdown"]);
    declare(&mut languages, "markdown", spec(&["md"], Some("markdown"), &[]));
    assert_eq!(languages.tier(&id("markdown")), Tier::FirstClass);
}

#[test]
fn the_query_answer_is_flat_and_carries_the_tier() {
    let mut languages = table();
    declare(&mut languages, "rust", rust());
    declare(&mut languages, "csv", spec(&["csv"], None, &[]));

    assert_eq!(languages.answer(None).len(), 2);
    let one = languages.answer(Some(&id("csv")));
    let [Value::Record(fields)] = one.as_slice() else {
        panic!("one language asked for, one record back: {one:?}");
    };
    assert_eq!(fields.get("language"), Some(&Value::Text("csv".to_owned())));
    assert_eq!(fields.get("tier"), Some(&Value::Text("second-tier".to_owned())));
    assert_eq!(fields.get("grammar"), Some(&Value::Null));
    assert!(languages.answer(Some(&id("elixir"))).is_empty());
}

#[test]
fn the_answers_tier_is_the_tables_tier() {
    let mut languages = Languages::new(&["rust"]);
    declare(&mut languages, "rust", rust());
    declare(&mut languages, "elixir", spec(&["ex"], Some("elixir"), &[]));

    let rows = languages.answer(None);
    assert_eq!(rows.len(), 2);
    for row in rows {
        let Value::Record(fields) = row else {
            panic!("a row is a record");
        };
        let Some(Value::Text(name)) = fields.get("language") else {
            panic!("a row names its language");
        };
        assert_eq!(fields.get("tier"), Some(&tier_value(languages.tier(&id(name)))), "{name}");
    }
}

#[test]
fn commenting_puts_the_prefix_at_the_shallowest_indent() {
    let lines = ["fn main() {", "    let x = 1;", "", "    dbg!(x);", "}"];
    assert_eq!(
        toggle_comment(&lines, "//"),
        ["// fn main() {", "//     let x = 1;", "", "//     dbg!(x);", "// }"]
    );
}

#[test]
fn a_run_that_is_wholly_commented_uncomments() {
    let lines = ["// a", "//   b", "", "//c"];
    assert_eq!(toggle_comment(&lines, "//"), ["a", "  b", "", "c"]);
}

#[test]
fn a_mixed_run_comments_rather_than_uncommenting() {
    let lines = ["// a", "b"];
    assert_eq!(toggle_comment(&lines, "//"), ["// // a", "// b"]);
}

#[test]
fn an_indent_that_is_not_ascii_whitespace_neither_panics_nor_splits_a_character() {
    assert_eq!(
        toggle_comment(&["   x", "\u{a0}\u{a0}y"], "//"),
        ["  //  x", "\u{a0}\u{a0}// y"],
        "two characters in on both lines, whatever those characters cost"
    );
    assert_eq!(
        toggle_comment(&["  x", "\u{3000}y"], "//"),
        [" //  x", "\u{3000}// y"],
        "the shallowest indent here is one ideographic space"
    );

    let mixed = ["\t x", "\u{a0}  y"];
    let once = toggle_comment(&mixed, ";;");
    assert_eq!(toggled(&once, ";;"), mixed, "and gc twice is still the identity");
}

#[test]
fn a_language_with_no_comment_syntax_leaves_the_file_alone() {
    let mut languages = table();
    declare(
        &mut languages,
        "json",
        LanguageSpec { comment_prefix: None, ..spec(&["json"], Some("json"), &[]) },
    );
    assert_eq!(languages.comment_prefix(&id("json")), None);
    assert_eq!(toggle_comment(&["{}"], ""), ["{}"]);
}

#[test]
fn a_path_extension_is_the_last_components_after_its_last_dot() {
    let mut languages = table();
    declare(&mut languages, "gz", spec(&["gz"], None, &[]));
    declare(&mut languages, "rust", rust());
    assert_eq!(languages.by_path("a.tar.gz"), Some(&id("gz")));
    assert_eq!(languages.by_path("dir.rs/"), Some(&id("rust")));
    assert_eq!(languages.by_path(".rs"), None, "a leading dot names a hidden file");
    assert_eq!(languages.by_path("dir.rs/file"), None);
    assert_eq!(languages.comment_prefix(&id("rust")), Some("//"));
    assert_eq!(Invalid::Nameless.message(), "a language needs a name");
}

#[test]
fn commenting_twice_gives_the_run_back() {
    let run = ["  if x {", "", "      y()", "  }"];
    let once = toggle_comment(&run, "#");
    assert_eq!(once, ["  # if x {", "", "  #     y()", "  # }"]);
    assert_eq!(toggled(&once, "#"), run);
}

#[test]
fn a_redeclaration_is_the_most_recent_declaration() {
    let mut languages = Languages::new(&["a"]);
    for name in ["A", "B", "A"] {
        declare(&mut languages, name, spec(&["x"], None, &[]));
    }
    assert_eq!(languages.by_extension("x"), Some(&id("A")));
    assert_eq!(languages.by_extension("X"), Some(&id("A")));
    let names: Vec<&str> = languages.iter().into_iter().map(|(name, _)| name.0.as_str()).collect();
    assert_eq!(names, ["A", "B"], "and it keeps its place in the order");
}
