//! Ephemeral filesystem resources: the backup directory and the persisted
//! mapping directive.
//!
//! Both live in process-scoped temporary directories and are deleted when
//! their owning value is dropped, on every exit path — success or failure.
//! The filesystem work itself is done by the tempfile crate behind trusted
//! wrappers; what was written is carried alongside and verified.

use crate::identity::{build_directive, directive_model, IdentityPair};
use vstd::prelude::*;

verus! {

/// tempfile's ephemeral directory type, opaque to verification. Dropping
/// a value deletes the directory and everything inside it.
#[verifier::external_type_specification]
#[verifier::external_body]
pub struct ExTempDir(tempfile::TempDir);

/// Relies on tempfile::TempDir::new: a fresh temporary directory, deleted
/// when the returned handle is dropped, together with its path; `None`
/// when the directory cannot be created.
#[verifier::external_body]
fn fresh_temp_dir() -> (r: Option<(tempfile::TempDir, String)>) {
    match tempfile::TempDir::new() {
        Ok(dir) => {
            let path = dir.path().to_string_lossy().into_owned();
            Some((dir, path))
        },
        Err(_) => None,
    }
}

/// Relies on tempfile::NamedTempFile::new_in, std::io::Write::write_all
/// through NamedTempFile, and NamedTempFile::keep: a file inside `dir`
/// holding exactly the given bytes, reported by its path; `None` when the
/// file cannot be created or written. The file lives as long as `dir`.
#[verifier::external_body]
fn persist_bytes_in(dir: &tempfile::TempDir, content: &String) -> (r: Option<String>) {
    let mut file = tempfile::NamedTempFile::new_in(dir.path()).ok()?;
    std::io::Write::write_all(&mut file, content.as_bytes()).ok()?;
    let (_file, path) = file.keep().ok()?;
    Some(path.to_string_lossy().into_owned())
}

/// A scoped ephemeral directory for the mirror clone of one repository:
/// the backup exists exactly as long as this value lives, and no backup
/// survives the process.
pub struct BackupDir {
    pub dir: tempfile::TempDir,
    pub path: String,
}

/// Creates the ephemeral directory a repository is mirror-cloned into.
/// `None` is a backup failure: the caller must not proceed to rewrite.
pub fn create_backup_dir() -> (r: Option<BackupDir>) {
    match fresh_temp_dir() {
        Some((dir, path)) => Some(BackupDir { dir, path }),
        None => None,
    }
}

/// The persisted mapping directive of one invocation: the temporary
/// directory holding the directive file, that file's path, and the exact
/// line that was written.
pub struct MappingFile {
    pub dir: tempfile::TempDir,
    pub path: String,
    pub content: String,
}

/// Persists one directive line to a fresh process-scoped temporary file.
/// `None` is the i/o-error case: the file could not be created or written.
pub fn persist_mapping(content: String) -> (r: Option<MappingFile>)
    ensures
        (r matches Some(m) ==> m.content@ == content@),
{
    match fresh_temp_dir() {
        Some((dir, _)) => match persist_bytes_in(&dir, &content) {
            Some(path) => Some(MappingFile { dir, path, content }),
            None => None,
        },
        None => None,
    }
}

/// Builds this invocation's mapping directive — one line, exactly the four
/// supplied identity fields — and persists it for the rewrite engine.
pub fn create_mapping_file(old_identity: &IdentityPair, new_identity: &IdentityPair) -> (r: Option<
    MappingFile,
>)
    ensures
        (r matches Some(m) ==> m.content@ == directive_model(old_identity@, new_identity@)),
{
    persist_mapping(build_directive(old_identity, new_identity))
}

} // verus!
