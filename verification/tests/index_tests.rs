use cargo_docserve::index::{crate_name_of, escape_into, render, INDEX_HEAD, INDEX_TAIL};
use cargo_docserve::units::{DocumentableUnit, TargetKind};

fn escaped(text: &str) -> String {
    let mut out = String::new();
    escape_into(&mut out, text);
    out
}

#[test]
fn empty_list_renders_head_and_tail() {
    assert_eq!(render(&Vec::new()), format!("{}{}", INDEX_HEAD, INDEX_TAIL));
}

#[test]
fn page_reads_exactly() {
    let units = vec![
        DocumentableUnit::new("core", TargetKind::Lib),
        DocumentableUnit::new("my-cli", TargetKind::Lib),
    ];
    let expected = "<!DOCTYPE html>\n<html>\n<head>\n<meta charset=\"utf-8\">\n\
<title>Documentation</title>\n</head>\n<body>\n<h1>Documentation</h1>\n<ul>\n\
<li><a href=\"core/index.html\">core</a></li>\n\
<li><a href=\"my_cli/index.html\">my-cli</a></li>\n\
</ul>\n</body>\n</html>\n";
    assert_eq!(render(&units), expected);
}

#[test]
fn rendering_twice_gives_the_same_page() {
    let units = vec![
        DocumentableUnit::new("b", TargetKind::Lib),
        DocumentableUnit::new("a", TargetKind::Lib),
        DocumentableUnit::new("b", TargetKind::Lib),
    ];
    let first = render(&units);
    let second = render(&units);
    assert_eq!(first.as_bytes(), second.as_bytes());
}

#[test]
fn units_are_listed_in_the_order_given_not_sorted() {
    let units = vec![
        DocumentableUnit::new("zeta", TargetKind::Lib),
        DocumentableUnit::new("alpha", TargetKind::Lib),
    ];
    let page = render(&units);
    assert!(page.find(">zeta<").unwrap() < page.find(">alpha<").unwrap());
}

#[test]
fn markup_in_names_is_escaped() {
    assert_eq!(escaped("<&>"), "&lt;&amp;&gt;");
    assert_eq!(escaped("a\"b'c/d"), "a&quot;b&#x27;c&#x2f;d");
    assert_eq!(escaped("<a"), "&lt;a");
    assert_eq!(escaped("plain_name-1"), "plain_name-1");
    assert_eq!(escaped(""), "");
    assert_eq!(escaped("héllo<"), "héllo&lt;");
    let page = render(&vec![DocumentableUnit::new("<script>", TargetKind::Lib)]);
    assert!(!page.contains("<script>"));
    assert!(page.contains("&lt;script&gt;"));
}

#[test]
fn escape_into_appends() {
    let mut out = String::from("x=");
    escape_into(&mut out, "1<2");
    assert_eq!(out, "x=1&lt;2");
}

#[test]
fn crate_name_replaces_hyphens() {
    assert_eq!(crate_name_of("cargo-docserve"), "cargo_docserve");
    assert_eq!(crate_name_of("a-b-c"), "a_b_c");
    assert_eq!(crate_name_of("plain"), "plain");
    assert_eq!(crate_name_of(""), "");
}
