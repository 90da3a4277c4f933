use local_translate::paths::join_path;
use local_translate::search_path::{
    compose_search_path, find_site_packages, is_interpreter_dir, join_search_path,
    site_packages_dir, source_dir, LibEntry,
};

fn entry(name: &str, has_site_packages: bool) -> LibEntry {
    LibEntry { name: name.to_string(), has_site_packages }
}

#[test]
fn join_path_inserts_one_separator() {
    assert_eq!(join_path("/home/u/proj", ".venv"), "/home/u/proj/.venv");
    assert_eq!(join_path("/home/u/proj/", ".venv"), "/home/u/proj/.venv");
    assert_eq!(join_path("", "lib"), "lib");
}

#[test]
fn interpreter_dir_names_need_the_prefix() {
    assert!(is_interpreter_dir("python3.12"));
    assert!(is_interpreter_dir("python"));
    assert!(!is_interpreter_dir("pytho"));
    assert!(!is_interpreter_dir("Python3.12"));
    assert!(!is_interpreter_dir("site-packages"));
    assert!(!is_interpreter_dir(""));
}

#[test]
fn site_packages_dir_layout() {
    assert_eq!(
        site_packages_dir("/p/.venv", "python3.12"),
        "/p/.venv/lib/python3.12/site-packages"
    );
    assert_eq!(source_dir("/p/src-tauri"), "/p/src-tauri/src-python");
}

#[test]
fn single_candidate_gives_source_then_site_packages() {
    let entries = vec![entry("pkgconfig", false), entry("python3.12", true)];
    let r = compose_search_path("/p/src-tauri/src-python", "/p/.venv", &entries);
    assert_eq!(
        r,
        vec![
            "/p/src-tauri/src-python".to_string(),
            "/p/.venv/lib/python3.12/site-packages".to_string()
        ]
    );
}

#[test]
fn no_candidate_gives_source_only() {
    let entries = vec![entry("pkgconfig", true), entry("node_modules", false)];
    let r = compose_search_path("/p/src-python", "/p/.venv", &entries);
    assert_eq!(r, vec!["/p/src-python".to_string()]);
    let r = compose_search_path("/p/src-python", "/p/.venv", &Vec::new());
    assert_eq!(r, vec!["/p/src-python".to_string()]);
}

#[test]
fn candidate_without_site_packages_is_skipped() {
    let entries = vec![entry("python3.11", false), entry("python3.12", true)];
    assert_eq!(
        find_site_packages("/v", &entries),
        Some("/v/lib/python3.12/site-packages".to_string())
    );
    let entries = vec![entry("python3.11", false)];
    assert_eq!(find_site_packages("/v", &entries), None);
}

#[test]
fn first_of_several_candidates_wins() {
    let entries = vec![entry("python3.13", true), entry("python3.12", true)];
    assert_eq!(
        find_site_packages("/v", &entries),
        Some("/v/lib/python3.13/site-packages".to_string())
    );
}

#[test]
fn search_path_is_colon_joined() {
    assert_eq!(join_search_path(&Vec::new()), "");
    assert_eq!(join_search_path(&vec!["/a".to_string()]), "/a");
    assert_eq!(
        join_search_path(&vec!["/a".to_string(), "/b/c".to_string(), "d".to_string()]),
        "/a:/b/c:d"
    );
}
