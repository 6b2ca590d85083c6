use git_anonymize::engine::{clone_mirror_args, rewrite_args, version_check_args};
use git_anonymize::ephemeral::{create_backup_dir, create_mapping_file, persist_mapping};
use git_anonymize::identity::{build_directive, IdentityPair};

fn pair(name: &str, email: &str) -> IdentityPair {
    IdentityPair { name: name.to_string(), email: email.to_string() }
}

#[test]
fn directive_binds_new_to_old() {
    let old = pair("A", "a@x.com");
    let new = pair("B", "b@x.com");
    assert_eq!(build_directive(&old, &new), "B <b@x.com> A <a@x.com>\n");
}

#[test]
fn directive_is_one_line_with_no_extras() {
    let old = pair("Ada Lovelace", "ada@example.org");
    let new = pair("Anon", "anon@example.org");
    let line = build_directive(&old, &new);
    assert_eq!(line, "Anon <anon@example.org> Ada Lovelace <ada@example.org>\n");
    assert_eq!(line.matches('\n').count(), 1);
    assert!(line.ends_with('\n'));
}

#[test]
fn directive_passes_empty_fields_verbatim() {
    let old = pair("", "");
    let new = pair("", "");
    assert_eq!(build_directive(&old, &new), " <>  <>\n");
}

#[test]
fn version_check_args_probe_the_engine() {
    let args = version_check_args();
    assert_eq!(args, vec!["filter-repo".to_string(), "--version".to_string()]);
}

#[test]
fn clone_args_request_a_mirror() {
    let args = clone_mirror_args(&"/src/repo".to_string(), &"/tmp/backup".to_string());
    assert_eq!(
        args,
        vec![
            "clone".to_string(),
            "--mirror".to_string(),
            "/src/repo".to_string(),
            "/tmp/backup".to_string(),
        ]
    );
}

#[test]
fn rewrite_args_carry_force_mailmap_and_replace_refs() {
    let args = rewrite_args(&"/tmp/dir/mailmap".to_string());
    assert_eq!(
        args,
        vec![
            "filter-repo".to_string(),
            "--force".to_string(),
            "--mailmap".to_string(),
            "/tmp/dir/mailmap".to_string(),
            "--replace-refs".to_string(),
            "update-or-add".to_string(),
        ]
    );
}

#[test]
fn persist_mapping_keeps_the_content() {
    let file = persist_mapping("B <b@x.com> A <a@x.com>\n".to_string())
        .expect("temporary file creation");
    assert_eq!(file.content, "B <b@x.com> A <a@x.com>\n");
    assert!(!file.path.is_empty());
}

#[test]
fn create_mapping_file_builds_the_directive() {
    let old = pair("A", "a@x.com");
    let new = pair("B", "b@x.com");
    let file = create_mapping_file(&old, &new).expect("temporary file creation");
    assert_eq!(file.content, "B <b@x.com> A <a@x.com>\n");
    assert!(!file.path.is_empty());
}

#[test]
fn backup_dir_is_created_with_a_path() {
    let backup = create_backup_dir().expect("temporary directory creation");
    assert!(!backup.path.is_empty());
}
