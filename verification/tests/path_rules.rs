use oko_desktop::paths::{join_path, path_file_name};
use std::path::Path;

#[test]
fn join_path_puts_one_separator_between() {
    assert_eq!(join_path("/home/u", ".oko"), "/home/u/.oko");
    assert_eq!(join_path("/home/u/", ".oko"), "/home/u/.oko");
    assert_eq!(join_path("/", "x"), "/x");
    assert_eq!(join_path("", "x"), "x");
    assert_eq!(join_path("a", "b/c"), "a/b/c");
    assert_eq!(join_path("a", ""), "a/");
    assert_eq!(join_path("", ""), "");
    assert_eq!(join_path("a", "../b"), "a/../b");
}

#[test]
fn join_path_lets_an_absolute_name_stand() {
    assert_eq!(join_path("/home/u", "/etc/x"), "/etc/x");
    assert_eq!(join_path("", "/"), "/");
    assert_eq!(join_path("a/", "/b"), "/b");
}

#[test]
fn join_path_agrees_with_path_join() {
    let bases = ["", "/", "a", "a/", "/a/b", "/a/b/", "a//", "."];
    let names = ["", "x", "x/y", "/x", "../x", ".", "data/dashboard.sqlite3"];
    for base in bases {
        for name in names {
            let expected = Path::new(base).join(name);
            assert_eq!(Some(join_path(base, name).as_str()), expected.to_str(), "{:?} {:?}", base, name);
        }
    }
}

#[test]
fn file_name_is_the_last_component() {
    assert_eq!(path_file_name("/tmp/backend_sidecar.py"), Some("backend_sidecar.py"));
    assert_eq!(path_file_name("backend_sidecar.py"), Some("backend_sidecar.py"));
    assert_eq!(path_file_name("/a/b/"), Some("b"));
    assert_eq!(path_file_name("/a/b///"), Some("b"));
    assert_eq!(path_file_name("a/b/."), Some("b"));
    assert_eq!(path_file_name("a/b/.//"), Some("b"));
    assert_eq!(path_file_name("a/./."), Some("a"));
    assert_eq!(path_file_name("/cwd/../desktop/backend_sidecar.py"), Some("backend_sidecar.py"));
    assert_eq!(path_file_name("a/.hidden"), Some(".hidden"));
    assert_eq!(path_file_name("a/..."), Some("..."));
    assert_eq!(path_file_name("a b/c d"), Some("c d"));
}

#[test]
fn file_name_is_absent_where_the_path_names_none() {
    assert_eq!(path_file_name(""), None);
    assert_eq!(path_file_name("/"), None);
    assert_eq!(path_file_name("//"), None);
    assert_eq!(path_file_name("."), None);
    assert_eq!(path_file_name("./"), None);
    assert_eq!(path_file_name("./."), None);
    assert_eq!(path_file_name("/."), None);
    assert_eq!(path_file_name(".."), None);
    assert_eq!(path_file_name("a/.."), None);
    assert_eq!(path_file_name("a/../"), None);
    assert_eq!(path_file_name("/.."), None);
    assert_eq!(path_file_name("a/../."), None);
}

#[test]
fn file_name_agrees_with_path_file_name() {
    let samples = [
        "", "/", "//", ".", "..", "./", "../", "./.", "./..", "../.", "a", "a/", "a//", "/a", "/a/",
        "a/b", "a/b/", "a/.", "a/./", "a/..", "a/../", "a/./.", "a/./b", "a/../b", ".a", "a.", "..a",
        "a..", "...", "/.", "/..", "/./", "/a/./", "a//b", "a//b//", " ", "a b", "é/ü", "/x/.y/",
        "foo.txt/.", "foo.txt/.//", "foo.txt/..", "tmp/foo.txt", "/usr/bin/",
    ];
    for path in samples {
        let expected = Path::new(path).file_name().and_then(|name| name.to_str());
        assert_eq!(path_file_name(path), expected, "{:?}", path);
    }
}
