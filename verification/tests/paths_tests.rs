use lala::paths::{path_extension, path_file_name};
use lala::startup::{decide_startup_mode, StartupMode};

#[test]
fn test_path_file_name() {
    assert_eq!(path_file_name("/test/file.txt"), "file.txt");
    assert_eq!(path_file_name("file.txt"), "file.txt");
    assert_eq!(path_file_name("/test/dir"), "dir");
    assert_eq!(path_file_name("/test/dir/"), "");
    assert_eq!(path_file_name(""), "");
}

#[test]
fn test_path_extension() {
    assert_eq!(path_extension("doc.tex"), Some("tex".to_string()));
    assert_eq!(path_extension("/a/b/archive.tar.gz"), Some("gz".to_string()));
    assert_eq!(path_extension("README"), None);
    assert_eq!(path_extension(".gitignore"), None);
    assert_eq!(path_extension("/dotted.dir/plain"), None);
    assert_eq!(path_extension("trailing."), Some("".to_string()));
}

#[test]
fn test_decide_startup_mode() {
    assert_eq!(decide_startup_mode(None, false, false), StartupMode::Empty);
    assert_eq!(
        decide_startup_mode(Some("notes.md"), false, false),
        StartupMode::OpenFile("notes.md".to_string())
    );
    assert_eq!(
        decide_startup_mode(Some("project"), true, false),
        StartupMode::OpenDir("project".to_string())
    );
    assert_eq!(
        decide_startup_mode(Some("Makefile"), false, true),
        StartupMode::OpenFile("Makefile".to_string())
    );
    assert_eq!(
        decide_startup_mode(Some("missing"), false, false),
        StartupMode::OpenDir("missing".to_string())
    );
}
