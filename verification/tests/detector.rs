use git_anonymize::detect::{child_path, is_hidden_name, is_repository, Entry};

fn entry(name: &str, is_dir: bool) -> Entry {
    Entry { name: name.to_string(), is_dir }
}

#[test]
fn repository_iff_metadata_entry_present() {
    let with_git = Some(vec![entry("src", true), entry(".git", true)]);
    assert!(is_repository(&with_git));

    let without_git = Some(vec![entry("src", true), entry("README", false)]);
    assert!(!is_repository(&without_git));

    let empty = Some(vec![]);
    assert!(!is_repository(&empty));
}

#[test]
fn detection_is_presence_based_not_type_strict() {
    let git_file = Some(vec![entry(".git", false)]);
    assert!(is_repository(&git_file));
}

#[test]
fn nonexistent_path_is_not_a_repository() {
    assert!(!is_repository(&None));
}

#[test]
fn hidden_names_start_with_the_marker() {
    assert!(is_hidden_name(&".hidden".to_string()));
    assert!(is_hidden_name(&".git".to_string()));
    assert!(!is_hidden_name(&"visible".to_string()));
    assert!(!is_hidden_name(&"".to_string()));
}

#[test]
fn child_path_joins_with_a_separator() {
    assert_eq!(child_path(&"/work".to_string(), &"repo".to_string()), "/work/repo");
}
