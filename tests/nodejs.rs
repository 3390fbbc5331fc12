use nodejs_segment::constraint::{check_compatibility, is_compatible};
use nodejs_segment::manifest::{engines_constraint, engines_node, find_member, Json};
use nodejs_segment::probe::{evaluate, extension, DirEntry, EntryKind, ProbeSpec};
use nodejs_segment::render::{placeholder, render, Atom, Bindings, FormatError, Part, Placeholder, Segment};
use nodejs_segment::segment::{module, node_options, node_probe, trim, RenderOptions};

fn file(name: &str) -> DirEntry {
    DirEntry { name: name.to_string(), kind: EntryKind::File }
}

fn dir(name: &str) -> DirEntry {
    DirEntry { name: name.to_string(), kind: EntryKind::Dir }
}

fn run(entries: Vec<DirEntry>, manifest: Option<&str>) -> Result<Option<Vec<Segment>>, FormatError> {
    module(
        &entries,
        &node_probe(),
        &Some("v12.0.0\n".to_string()),
        &manifest.map(|m| m.to_string()),
        &node_options(),
    )
}

fn shown(style: &str) -> Result<Option<Vec<Segment>>, FormatError> {
    Ok(Some(vec![
        Segment { text: "via ".to_string(), style: None },
        Segment { text: "⬢ v12.0.0".to_string(), style: Some(style.to_string()) },
        Segment { text: " ".to_string(), style: None },
    ]))
}

fn names(v: &[&str]) -> Vec<String> {
    v.iter().map(|s| s.to_string()).collect()
}

#[test]
fn folder_without_node_files() {
    assert_eq!(run(vec![], None), Ok(None));
}

#[test]
fn folder_with_package_json() {
    assert_eq!(run(vec![file("package.json")], Some("")), shown("bold green"));
}

#[test]
fn folder_with_package_json_and_esy_lock() {
    assert_eq!(run(vec![file("package.json"), dir("esy.lock")], Some("")), Ok(None));
}

#[test]
fn folder_with_node_version() {
    assert_eq!(run(vec![file(".node-version")], None), shown("bold green"));
}

#[test]
fn folder_with_js_file() {
    assert_eq!(run(vec![file("index.js")], None), shown("bold green"));
}

#[test]
fn folder_with_mjs_file() {
    assert_eq!(run(vec![file("index.mjs")], None), shown("bold green"));
}

#[test]
fn folder_with_cjs_file() {
    assert_eq!(run(vec![file("index.cjs")], None), shown("bold green"));
}

#[test]
fn folder_with_ts_file() {
    assert_eq!(run(vec![file("index.ts")], None), shown("bold green"));
}

#[test]
fn folder_with_node_modules() {
    assert_eq!(run(vec![dir("node_modules")], None), shown("bold green"));
}

#[test]
fn engines_node_version_match() {
    let text = "{
            \"engines\":{
                \"node\":\">=12.0.0\"
            }
        }";
    assert_eq!(run(vec![file("package.json")], Some(text)), shown("bold green"));
}

#[test]
fn engines_node_version_not_match() {
    let text = "{
            \"engines\":{
                \"node\":\"<12.0.0\"
            }
        }";
    assert_eq!(run(vec![file("package.json")], Some(text)), shown("bold red"));
}

#[test]
fn no_runtime_version_no_segment() {
    let entries = vec![file("package.json")];
    let r = module(&entries, &node_probe(), &None, &None, &node_options());
    assert_eq!(r, Ok(None));
}

#[test]
fn exclusion_dominates_every_marker() {
    let entries = vec![file("package.json"), file("a.ts"), dir("node_modules"), dir("esy.lock")];
    assert!(!evaluate(&entries, &node_probe()));
}

#[test]
fn exclusion_as_file_does_not_exclude() {
    let entries = vec![file("package.json"), file("esy.lock")];
    assert!(evaluate(&entries, &node_probe()));
}

#[test]
fn no_marker_is_irrelevant() {
    let entries = vec![file("README.md"), dir("src"), file("js"), file(".ts"), dir("package.json")];
    assert!(!evaluate(&entries, &node_probe()));
}

#[test]
fn marker_kinds_must_match() {
    let entries = vec![dir("index.js"), file("node_modules")];
    assert!(!evaluate(&entries, &node_probe()));
}

#[test]
fn names_are_case_sensitive() {
    let entries = vec![file("Package.json"), file("index.JS")];
    assert!(!evaluate(&entries, &node_probe()));
}

#[test]
fn empty_spec_matches_nothing() {
    let spec = ProbeSpec { file_names: vec![], extensions: vec![], folder_names: vec![], exclusion_folder_names: vec![] };
    assert!(!evaluate(&vec![file("a.js"), dir("x")], &spec));
}

#[test]
fn custom_spec_extension() {
    let spec = ProbeSpec {
        file_names: names(&[]),
        extensions: names(&["gz"]),
        folder_names: names(&[]),
        exclusion_folder_names: names(&["skip"]),
    };
    assert!(evaluate(&vec![file("a.tar.gz")], &spec));
    assert!(!evaluate(&vec![file("a.tar.gz"), dir("skip")], &spec));
}

#[test]
fn extensions_of_names() {
    assert_eq!(extension("index.js"), Some("js".to_string()));
    assert_eq!(extension("a.tar.gz"), Some("gz".to_string()));
    assert_eq!(extension(".node-version"), None);
    assert_eq!(extension(".a.ts"), Some("ts".to_string()));
    assert_eq!(extension("Makefile"), None);
    assert_eq!(extension("a."), Some("".to_string()));
    assert_eq!(extension(".."), None);
    assert_eq!(extension(""), None);
}

#[test]
fn absent_constraint_is_compatible() {
    assert!(is_compatible("v12.0.0", &None));
    assert!(is_compatible("no version here", &None));
    assert_eq!(check_compatibility("no version here", &None), Some(true));
}

#[test]
fn malformed_constraint_is_compatible() {
    assert!(is_compatible("v12.0.0", &Some(">=>12".to_string())));
    assert!(is_compatible("v1.0.0", &Some("@1.0.0".to_string())));
    assert_eq!(check_compatibility("none", &Some("*.*".to_string())), Some(true));
}

#[test]
fn constraint_on_embedded_triple() {
    assert!(is_compatible("v12.0.0", &Some(">=12.0.0".to_string())));
    assert!(!is_compatible("v12.0.0", &Some("<12.0.0".to_string())));
    assert!(is_compatible("node v12.3.4-nightly", &Some("^12.1".to_string())));
    assert!(!is_compatible("v13.0.0", &Some("~12".to_string())));
    assert!(!is_compatible("v12.0.0", &Some(">=10.0.0, <12.0.0".to_string())));
    assert!(is_compatible("v12.0.0", &Some("*".to_string())));
    assert!(is_compatible("v1.2.3 then 9.9.9", &Some("=1.2.3".to_string())));
}

#[test]
fn unparsable_triple_is_compatible() {
    assert!(is_compatible("v01.0.0", &Some("<1.0.0".to_string())));
}

#[test]
fn missing_triple_with_constraint_is_undecided() {
    assert_eq!(check_compatibility("v12", &Some(">=12.0.0".to_string())), None);
    let entries = vec![file("package.json")];
    let manifest = Some("{\"engines\":{\"node\":\">=12.0.0\"}}".to_string());
    let r = module(&entries, &node_probe(), &Some("v12".to_string()), &manifest, &node_options());
    assert_eq!(r, Ok(None));
}

#[test]
fn manifest_constraints() {
    assert_eq!(engines_constraint("{\"engines\":{\"node\":\">=12\"}}"), Some(">=12".to_string()));
    assert_eq!(engines_constraint(""), None);
    assert_eq!(engines_constraint("{"), None);
    assert_eq!(engines_constraint("{\"engines\":{}}"), None);
    assert_eq!(engines_constraint("{\"engines\":{\"node\":12}}"), None);
    assert_eq!(engines_constraint("{\"engines\":\"node\"}"), None);
    assert_eq!(engines_constraint("[1, 2]"), None);
    assert_eq!(engines_constraint("{\"name\":\"x\",\"engines\":{\"npm\":\"6\",\"node\":\"~14\"}}"), Some("~14".to_string()));
}

#[test]
fn lookup_on_model() {
    let inner = Json::Object(vec![("node".to_string(), Json::Str("<12.0.0".to_string()))]);
    let doc = Json::Object(vec![("a".to_string(), Json::Other), ("engines".to_string(), inner)]);
    assert_eq!(engines_node(&doc), Some("<12.0.0".to_string()));
    assert_eq!(engines_node(&Json::Str("engines".to_string())), None);
    let members = vec![("k".to_string(), Json::Other), ("k".to_string(), Json::Str("s".to_string()))];
    assert!(matches!(find_member(&members, "k"), Some(Json::Other)));
    assert!(find_member(&members, "z").is_none());
}

#[test]
fn trims_whitespace() {
    assert_eq!(trim("  v12.0.0\n"), "v12.0.0");
    assert_eq!(trim("\t\u{3000}x y\u{a0}"), "x y");
    assert_eq!(trim(" \n "), "");
    assert_eq!(trim(""), "");
}

#[test]
fn placeholders_recognized() {
    assert_eq!(placeholder(&"symbol".to_string()), Some(Placeholder::Symbol));
    assert_eq!(placeholder(&"style".to_string()), Some(Placeholder::Style));
    assert_eq!(placeholder(&"version".to_string()), Some(Placeholder::Version));
    assert_eq!(placeholder(&"Version".to_string()), None);
}

fn bindings() -> Bindings {
    Bindings { symbol: "* ".to_string(), style: "bold red".to_string(), version: "v1.2.3".to_string() }
}

#[test]
fn render_is_deterministic() {
    let t = node_options().format;
    let b = bindings();
    let first = render(&t, &b);
    assert_eq!(first, render(&t, &b));
    assert_eq!(
        first,
        Ok(vec![
            Segment { text: "via ".to_string(), style: None },
            Segment { text: "* v1.2.3".to_string(), style: Some("bold red".to_string()) },
            Segment { text: " ".to_string(), style: None },
        ])
    );
}

#[test]
fn render_unknown_placeholder_fails() {
    let t = vec![
        Part { atoms: vec![Atom::Text("via ".to_string())], style: None },
        Part { atoms: vec![Atom::Var("version".to_string()), Atom::Var("bogus".to_string())], style: None },
        Part { atoms: vec![Atom::Var("other".to_string())], style: None },
    ];
    assert_eq!(render(&t, &bindings()), Err(FormatError { name: "bogus".to_string() }));
}

#[test]
fn render_unknown_style_placeholder_fails() {
    let t = vec![Part { atoms: vec![Atom::Text("x".to_string())], style: Some(Atom::Var("colour".to_string())) }];
    assert_eq!(render(&t, &bindings()), Err(FormatError { name: "colour".to_string() }));
}

#[test]
fn render_empty_template() {
    assert_eq!(render(&vec![], &bindings()), Ok(vec![]));
}

#[test]
fn bad_template_is_reported() {
    let mut options: RenderOptions = node_options();
    options.format = vec![Part { atoms: vec![Atom::Var("nope".to_string())], style: None }];
    let entries = vec![file("index.js")];
    let r = module(&entries, &node_probe(), &Some("v12.0.0".to_string()), &None, &options);
    assert_eq!(r, Err(FormatError { name: "nope".to_string() }));
    let irrelevant = vec![file("README.md")];
    let r = module(&irrelevant, &node_probe(), &Some("v12.0.0".to_string()), &None, &options);
    assert_eq!(r, Ok(None));
}
