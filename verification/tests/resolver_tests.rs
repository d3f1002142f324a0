use cargo_docserve::resolver::{directory_index, join, resolve, stays_inside_root};

fn inside(path: &str) -> bool {
    let chars: Vec<char> = path.chars().collect();
    stays_inside_root(&chars)
}

#[test]
fn resolve_strips_one_separator_and_joins() {
    assert_eq!(
        resolve("target/doc", "/foo/bar.html"),
        Some(String::from("target/doc/foo/bar.html"))
    );
    assert_eq!(resolve("target/doc", "foo/bar"), Some(String::from("target/doc/foo/bar")));
    assert_eq!(resolve("/srv/doc/", "/a.css"), Some(String::from("/srv/doc/a.css")));
    assert_eq!(resolve("", "/a.css"), Some(String::from("a.css")));
}

#[test]
fn resolve_of_root_path_names_the_root_directory() {
    assert_eq!(resolve("doc", "/"), Some(String::from("doc/")));
    assert_eq!(resolve("doc", ""), Some(String::from("doc/")));
}

#[test]
fn resolve_keeps_inner_parent_segments() {
    assert_eq!(resolve("doc", "/a/../b"), Some(String::from("doc/a/../b")));
    assert_eq!(resolve("doc", "/a/.."), Some(String::from("doc/a/..")));
    assert_eq!(resolve("doc", "/./a/."), Some(String::from("doc/./a/.")));
    assert_eq!(resolve("doc", "/a/b/../../c"), Some(String::from("doc/a/b/../../c")));
}

#[test]
fn resolve_rejects_paths_that_leave_the_root() {
    assert_eq!(resolve("doc", "/.."), None);
    assert_eq!(resolve("doc", ".."), None);
    assert_eq!(resolve("doc", "/../doc/a"), None);
    assert_eq!(resolve("doc", "/a/../../b"), None);
    assert_eq!(resolve("doc", "/a/../.."), None);
    assert_eq!(resolve("doc", "/a//..//.."), None);
    assert_eq!(resolve("doc", "/a/b/../../../c/d/e"), None);
}

#[test]
fn resolve_rejects_a_second_leading_separator() {
    assert_eq!(resolve("doc", "//etc/passwd"), None);
    assert_eq!(resolve("doc", "//"), None);
}

#[test]
fn dots_that_are_not_parent_segments_are_names() {
    assert_eq!(resolve("doc", "/..."), Some(String::from("doc/...")));
    assert_eq!(resolve("doc", "/..a/x"), Some(String::from("doc/..a/x")));
    assert_eq!(resolve("doc", "/a../.."), Some(String::from("doc/a../..")));
    assert_eq!(resolve("doc", "/.a/../.."), None);
}

#[test]
fn stays_inside_root_follows_the_depth() {
    assert!(inside(""));
    assert!(inside("a"));
    assert!(inside("a/.."));
    assert!(inside("a/b/../.."));
    assert!(inside("./././a"));
    assert!(!inside(".."));
    assert!(!inside("a/../.."));
    assert!(!inside("../a"));
    assert!(!inside("a/../../a/a/a"));
}

#[test]
fn join_follows_path_rules() {
    assert_eq!(join("a", "b"), "a/b");
    assert_eq!(join("a/", "b"), "a/b");
    assert_eq!(join("", "b"), "b");
    assert_eq!(join("a", "/b"), "/b");
    assert_eq!(join("a", ""), "a/");
    assert_eq!(join("./target", "doc"), "./target/doc");
}

#[test]
fn directory_index_appends_index_html() {
    assert_eq!(directory_index("doc/core"), "doc/core/index.html");
    assert_eq!(directory_index("doc/"), "doc/index.html");
}
