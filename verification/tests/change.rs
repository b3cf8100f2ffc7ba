use stack_exec::change::{changed, find_by_path};
use stack_exec::entities::FileContents;

fn file(path: &str, contents: &str) -> FileContents {
    FileContents { path: path.to_string(), contents: contents.to_string() }
}

#[test]
fn never_deployed_is_changed() {
    assert!(changed(&None, &None));
    assert!(changed(&None, &Some(vec![])));
    assert!(changed(&None, &Some(vec![file("compose.yaml", "v1")])));
}

#[test]
fn identical_contents_are_unchanged() {
    let deployed = Some(vec![file("compose.yaml", "v1"), file("extra.yaml", "x")]);
    let latest = Some(vec![file("extra.yaml", "x"), file("compose.yaml", "v1")]);
    assert!(!changed(&deployed, &latest));
}

#[test]
fn differing_contents_are_changed() {
    let deployed = Some(vec![file("compose.yaml", "v1")]);
    let latest = Some(vec![file("compose.yaml", "v2")]);
    assert!(changed(&deployed, &latest));
}

#[test]
fn new_path_is_changed() {
    let deployed = Some(vec![file("compose.yaml", "v1")]);
    let latest = Some(vec![file("compose.yaml", "v1"), file("override.yaml", "o")]);
    assert!(changed(&deployed, &latest));
}

#[test]
fn deleted_path_is_not_a_change() {
    let deployed = Some(vec![file("compose.yaml", "v1"), file("old.yaml", "gone")]);
    let latest = Some(vec![file("compose.yaml", "v1")]);
    assert!(!changed(&deployed, &latest));
}

#[test]
fn deployed_only_path_does_not_affect_the_result() {
    let latest = Some(vec![file("compose.yaml", "v2")]);
    let without = Some(vec![file("compose.yaml", "v1")]);
    let with = Some(vec![file("old.yaml", "gone"), file("compose.yaml", "v1")]);
    assert_eq!(changed(&without, &latest), changed(&with, &latest));
    let same = Some(vec![file("compose.yaml", "v2")]);
    let same_with = Some(vec![file("compose.yaml", "v2"), file("old.yaml", "gone")]);
    assert_eq!(changed(&same, &latest), changed(&same_with, &latest));
    assert!(!changed(&same_with, &latest));
}

#[test]
fn no_latest_contents_is_unchanged() {
    let deployed = Some(vec![file("compose.yaml", "v1")]);
    assert!(!changed(&deployed, &None));
    assert!(!changed(&deployed, &Some(vec![])));
    assert!(!changed(&Some(vec![]), &Some(vec![])));
}

#[test]
fn empty_deployed_against_latest_is_changed() {
    assert!(changed(&Some(vec![]), &Some(vec![file("compose.yaml", "v1")])));
}

#[test]
fn first_deployed_entry_with_the_path_is_compared() {
    let deployed = Some(vec![file("a", "1"), file("a", "2")]);
    assert!(changed(&deployed, &Some(vec![file("a", "2")])));
    assert!(!changed(&deployed, &Some(vec![file("a", "1")])));
}

#[test]
fn find_by_path_gives_the_first_index() {
    let files = vec![file("a", "1"), file("b", "2"), file("b", "3")];
    assert_eq!(find_by_path(&files, &"b".to_string()), Some(1));
    assert_eq!(find_by_path(&files, &"a".to_string()), Some(0));
    assert_eq!(find_by_path(&files, &"c".to_string()), None);
    assert_eq!(find_by_path(&vec![], &"a".to_string()), None);
}
