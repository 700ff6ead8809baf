use heim::paths::{absolute, any_parent, below, chars_of, opens, same, same_run, same_segments, split};

fn parts(list: &[&str]) -> Vec<Vec<char>> {
    list.iter().map(|part| part.chars().collect()).collect()
}

#[test]
fn split_parts_a_path_at_both_separators() {
    assert_eq!(split("a/b\\c"), parts(&["a", "b", "c"]));
    assert_eq!(split("example-client\\example"), parts(&["example-client", "example"]));
    assert_eq!(split("D:\\projects\\artifacts"), parts(&["D:", "projects", "artifacts"]));
    assert_eq!(split("up.ps1"), parts(&["up.ps1"]));
}

#[test]
fn split_passes_over_empty_runs_and_single_dots() {
    assert_eq!(split(""), parts(&[]));
    assert_eq!(split("/"), parts(&[]));
    assert_eq!(split("."), parts(&[]));
    assert_eq!(split("./."), parts(&[]));
    assert_eq!(split("//a///b/"), parts(&["a", "b"]));
    assert_eq!(split("./a/./b/."), parts(&["a", "b"]));
    assert_eq!(split("a/../b"), parts(&["a", "..", "b"]));
    assert_eq!(split(".a/b./..."), parts(&[".a", "b.", "..."]));
}

#[test]
fn split_keeps_characters_beyond_ascii() {
    assert_eq!(split("données/été.txt"), parts(&["données", "été.txt"]));
    assert_eq!(chars_of("é/ü"), vec!['é', '/', 'ü']);
    assert_eq!(chars_of(""), Vec::<char>::new());
}

#[test]
fn absolute_knows_roots_and_drives() {
    assert!(absolute("/srv"));
    assert!(absolute("\\\\host\\share"));
    assert!(absolute("C:\\windows"));
    assert!(absolute("C:relative"));
    assert!(absolute("/"));
    assert!(!absolute(""));
    assert!(!absolute("a"));
    assert!(!absolute("a/b"));
    assert!(!absolute("ab:c"));
    assert!(!absolute("./a"));
}

#[test]
fn any_parent_finds_a_climbing_segment() {
    assert!(any_parent(&parts(&["a", "..", "b"])));
    assert!(any_parent(&parts(&[".."])));
    assert!(!any_parent(&parts(&["a", "...", "b."])));
    assert!(!any_parent(&parts(&[])));
}

#[test]
fn below_holds_a_destination_to_the_root() {
    assert!(below("/srv/artifacts", "svc1"));
    assert!(below("/srv/artifacts", "a/b/c"));
    assert!(below("/srv/artifacts", "/srv/artifacts/svc1"));
    assert!(below("/srv/artifacts", "/srv/artifacts"));
    assert!(below("D:\\projects\\artifacts", "D:/projects/artifacts/x"));
    assert!(!below("/srv/artifacts", "/srv/other"));
    assert!(!below("/srv/artifacts", "/srv"));
    assert!(!below("/srv/artifacts", "../x"));
    assert!(!below("/srv/artifacts", "a/../../x"));
    assert!(!below("/srv/artifacts", "/srv/artifacts/../x"));
    assert!(!below("/srv/artifacts", "C:\\x"));
}

#[test]
fn same_compares_paths_by_their_segments() {
    assert!(same("a/b", "a\\b"));
    assert!(same("./a//b/", "a/b"));
    assert!(same("", "."));
    assert!(!same("a/b", "a/c"));
    assert!(!same("a/b", "a"));
    assert!(!same("a", "A"));
}

#[test]
fn runs_and_lists_of_segments_compare() {
    assert!(same_run(&vec!['a', 'b'], &vec!['a', 'b']));
    assert!(!same_run(&vec!['a', 'b'], &vec!['a']));
    assert!(!same_run(&vec!['a', 'b'], &vec!['a', 'c']));
    assert!(same_run(&vec![], &vec![]));
    assert!(opens(&parts(&["a"]), &parts(&["a", "b"])));
    assert!(opens(&parts(&[]), &parts(&["a", "b"])));
    assert!(opens(&parts(&["a", "b"]), &parts(&["a", "b"])));
    assert!(!opens(&parts(&["a", "b", "c"]), &parts(&["a", "b"])));
    assert!(!opens(&parts(&["b"]), &parts(&["a", "b"])));
    assert!(same_segments(&parts(&["a", "b"]), &parts(&["a", "b"])));
    assert!(!same_segments(&parts(&["a"]), &parts(&["a", "b"])));
}
