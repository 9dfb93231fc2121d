use rustygon::paths::{extension, file_name, is_file_name, with_extension};

#[test]
fn file_name_is_what_follows_the_last_slash() {
    assert_eq!(file_name("src/sources/gen.cpp"), "gen.cpp");
    assert_eq!(file_name("/home/user/problem/src/solutions/sol.py"), "sol.py");
    assert_eq!(file_name("gen.cpp"), "gen.cpp");
    assert_eq!(file_name("a/b"), "b");
}

#[test]
fn file_name_of_a_path_without_last_component_is_empty() {
    assert_eq!(file_name(""), "");
    assert_eq!(file_name("src/sources/"), "");
    assert_eq!(file_name("/"), "");
}

#[test]
fn extension_is_what_follows_the_last_dot_of_the_file_name() {
    assert_eq!(extension("src/sources/gen.cpp"), Some("cpp".to_string()));
    assert_eq!(extension("archive.tar.gz"), Some("gz".to_string()));
    assert_eq!(extension("name."), Some(String::new()));
    assert_eq!(extension("a.b/c.d"), Some("d".to_string()));
}

#[test]
fn some_names_have_no_extension() {
    assert_eq!(extension("Makefile"), None);
    assert_eq!(extension(".gitignore"), None);
    assert_eq!(extension("src.d/readme"), None);
    assert_eq!(extension(".."), None);
    assert_eq!(extension("a/.."), None);
    assert_eq!(extension("."), None);
    assert_eq!(extension(""), None);
}

#[test]
fn a_hidden_file_may_have_an_extension() {
    assert_eq!(extension(".config.json"), Some("json".to_string()));
    assert_eq!(extension("..."), Some(String::new()));
}

#[test]
fn with_extension_replaces_the_extension() {
    assert_eq!(with_extension("src/sources/gen.cpp", "exe"), "src/sources/gen.exe");
    assert_eq!(with_extension("gen", "exe"), "gen.exe");
    assert_eq!(with_extension("archive.tar.gz", "zip"), "archive.tar.zip");
    assert_eq!(with_extension(".gitignore", "bak"), ".gitignore.bak");
}

#[test]
fn with_extension_takes_the_new_extension_whole() {
    assert_eq!(with_extension("src/sources/gen.cpp", ".exe"), "src/sources/gen..exe");
    assert_eq!(with_extension("gen.cpp", "tar.gz"), "gen.tar.gz");
}

#[test]
fn with_extension_removes_the_extension_when_given_none() {
    assert_eq!(with_extension("gen.cpp", ""), "gen");
    assert_eq!(with_extension("gen", ""), "gen");
}

#[test]
fn with_extension_leaves_a_path_without_file_name() {
    assert_eq!(with_extension("", "exe"), "");
    assert_eq!(with_extension("src/", "exe"), "src/");
}

#[test]
fn file_names_hold_no_slash() {
    assert!(is_file_name("gen.cpp"));
    assert!(is_file_name(".hidden"));
    assert!(is_file_name("..."));
    assert!(!is_file_name(""));
    assert!(!is_file_name("."));
    assert!(!is_file_name(".."));
    assert!(!is_file_name("a/b"));
    assert!(!is_file_name("/"));
    assert!(!is_file_name("gen.cpp/"));
}

#[test]
fn ordinary_paths_split_as_the_standard_library_splits_them() {
    let paths = [
        "gen.cpp",
        "src/sources/gen.cpp",
        "/home/user/pkg/src/solutions/sol.py",
        "a/b.c/d",
        "noext",
        ".hidden",
        ".hidden.txt",
        "dir.d/.hidden",
        "archive.tar.gz",
        "trailing.",
        "a/...",
        "ünï/cödé.cpp",
    ];
    for path in paths {
        let std_path = std::path::Path::new(path);
        let name = std_path.file_name().and_then(|n| n.to_str()).map(|n| n.to_string());
        assert_eq!(Some(file_name(path)), name);
        let ext = std_path.extension().and_then(|e| e.to_str()).map(|e| e.to_string());
        assert_eq!(extension(path), ext);
        for new in ["exe", ".exe", "", "tar.gz"] {
            let replaced = std_path.with_extension(new);
            assert_eq!(Some(with_extension(path, new).as_str()), replaced.to_str());
        }
    }
}
