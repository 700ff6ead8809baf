use heim::plan::{plan_install, split_all, InstallPlan};
use std::collections::BTreeMap;

fn texts(list: &[&str]) -> Vec<String> {
    list.iter().map(|text| text.to_string()).collect()
}

fn key(path: &str) -> Vec<Vec<char>> {
    heim::paths::split(path)
}

fn tree(files: &[(&str, &str)]) -> BTreeMap<Vec<Vec<char>>, Vec<u8>> {
    files.iter().map(|(path, content)| (key(path), content.as_bytes().to_vec())).collect()
}

fn carry_out(
    before: &BTreeMap<Vec<Vec<char>>, Vec<u8>>,
    staged: &BTreeMap<Vec<Vec<char>>, Vec<u8>>,
    plan: &InstallPlan,
) -> BTreeMap<Vec<Vec<char>>, Vec<u8>> {
    let mut after = before.clone();
    for path in &plan.remove {
        after.remove(&key(path));
    }
    for path in &plan.copy {
        after.insert(key(path), staged[&key(path)].clone());
    }
    after
}

#[test]
fn plan_touches_only_what_is_not_excluded() {
    let plan = plan_install(
        &texts(&["app.jar", "up.ps1", "lib/a.jar", "conf/local.json"]),
        &texts(&["app.jar", "up.ps1", "lib/b.jar", "conf/default.json"]),
        &texts(&["up.ps1", "conf"]),
    );
    assert_eq!(
        plan,
        InstallPlan { remove: texts(&["app.jar", "lib/a.jar"]), copy: texts(&["app.jar", "lib/b.jar"]) }
    );
}

#[test]
fn plan_without_exclusions_replaces_everything() {
    let plan = plan_install(&texts(&["a", "b/c"]), &texts(&["d"]), &texts(&[]));
    assert_eq!(plan, InstallPlan { remove: texts(&["a", "b/c"]), copy: texts(&["d"]) });
    let plan = plan_install(&texts(&[]), &texts(&[]), &texts(&["x"]));
    assert_eq!(plan, InstallPlan { remove: texts(&[]), copy: texts(&[]) });
}

#[test]
fn plan_compares_paths_by_their_segments() {
    let plan = plan_install(
        &texts(&["conf\\local.json", "./up.ps1", "UP.PS1"]),
        &texts(&["conf/local.json", "up.ps1"]),
        &texts(&["conf/local.json", ".\\up.ps1"]),
    );
    assert_eq!(plan, InstallPlan { remove: texts(&["UP.PS1"]), copy: texts(&[]) });
}

#[test]
fn an_entry_that_names_nothing_excludes_nothing() {
    let plan = plan_install(&texts(&["a"]), &texts(&["b"]), &texts(&["", ".", "/"]));
    assert_eq!(plan, InstallPlan { remove: texts(&["a"]), copy: texts(&["b"]) });
}

#[test]
fn excluded_files_keep_their_content() {
    let before = tree(&[("app.jar", "old"), ("up.ps1", "mine"), ("conf/local.json", "{}"), ("gone.txt", "x")]);
    let staged = tree(&[("app.jar", "new"), ("up.ps1", "theirs"), ("conf/local.json", "[]"), ("new.txt", "y")]);
    let plan = plan_install(
        &texts(&["app.jar", "up.ps1", "conf/local.json", "gone.txt"]),
        &texts(&["app.jar", "up.ps1", "conf/local.json", "new.txt"]),
        &texts(&["up.ps1", "conf/local.json", "absent.txt"]),
    );
    let after = carry_out(&before, &staged, &plan);
    assert_eq!(after, tree(&[("app.jar", "new"), ("up.ps1", "mine"), ("conf/local.json", "{}"), ("new.txt", "y")]));
    assert_eq!(after[&key("up.ps1")], b"mine".to_vec());
    assert!(!after.contains_key(&key("absent.txt")));
}

#[test]
fn an_excluded_place_that_is_empty_stays_empty() {
    let before = tree(&[("a", "1")]);
    let staged = tree(&[("a", "2"), ("secret.key", "s")]);
    let plan = plan_install(&texts(&["a"]), &texts(&["a", "secret.key"]), &texts(&["secret.key"]));
    let after = carry_out(&before, &staged, &plan);
    assert_eq!(after, tree(&[("a", "2")]));
}

#[test]
fn split_all_splits_each_path() {
    let parts = split_all(&texts(&["a/b", "", "c"]));
    assert_eq!(parts, vec![key("a/b"), key(""), key("c")]);
}
