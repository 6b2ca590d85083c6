use git_anonymize::detect::Entry;
use git_anonymize::identity::IdentityPair;
use git_anonymize::machine::{Action, Config, Event, Machine, Outcome};

fn config(root: &str, recursive: bool) -> Config {
    Config {
        old_identity: IdentityPair { name: "A".to_string(), email: "a@x.com".to_string() },
        new_identity: IdentityPair { name: "B".to_string(), email: "b@x.com".to_string() },
        root: root.to_string(),
        recursive,
    }
}

fn entry(name: &str, is_dir: bool) -> Entry {
    Entry { name: name.to_string(), is_dir }
}

fn step(machine: Machine, event: Event) -> (Machine, Action) {
    assert!(machine.expects(&event), "the machine is not waiting for this event");
    machine.step(event)
}

fn listed(entries: Vec<Entry>) -> Event {
    Event::Listed { listing: Some(entries) }
}

#[test]
fn failed_version_check_stops_before_any_subprocess() {
    let machine = Machine::new(config("/work/repo", false));
    let (machine, action) = step(machine, Event::Start);
    assert_eq!(action, Action::CheckEngine);

    let (machine, action) = step(machine, Event::EngineChecked { ok: false });
    assert_eq!(action, Action::Finish { outcome: Outcome::MissingDependency });

    // The run is over: no backup, no rewrite, no further event is accepted.
    assert!(!machine.expects(&Event::CloneFinished { ok: true }));
    assert!(!machine.expects(&Event::RewriteFinished { ok: true }));
    assert!(!machine.expects(&Event::Listed { listing: None }));
}

#[test]
fn failed_backup_means_no_rewrite() {
    let machine = Machine::new(config("/work/repo", false));
    let (machine, _) = step(machine, Event::Start);
    let (machine, action) = step(machine, Event::EngineChecked { ok: true });
    assert_eq!(action, Action::ListDir { dir: "/work/repo".to_string() });

    let (machine, action) = step(machine, listed(vec![entry(".git", true)]));
    assert_eq!(action, Action::CloneMirror { src: "/work/repo".to_string() });

    let (machine, action) = step(machine, Event::CloneFinished { ok: false });
    assert_eq!(
        action,
        Action::Finish { outcome: Outcome::BackupFailed { repo: "/work/repo".to_string() } }
    );
    assert!(!machine.expects(&Event::RewriteFinished { ok: true }));
}

#[test]
fn single_repository_end_to_end() {
    let machine = Machine::new(config("/work/repo", false));
    let (machine, action) = step(machine, Event::Start);
    assert_eq!(action, Action::CheckEngine);

    let (machine, action) = step(machine, Event::EngineChecked { ok: true });
    assert_eq!(action, Action::ListDir { dir: "/work/repo".to_string() });

    // The target itself is a repository: exactly one mirror clone.
    let (machine, action) = step(machine, listed(vec![entry(".git", true), entry("src", true)]));
    assert_eq!(action, Action::CloneMirror { src: "/work/repo".to_string() });

    // Exactly one mapping file, holding exactly the one-line directive.
    let (machine, action) = step(machine, Event::CloneFinished { ok: true });
    assert_eq!(action, Action::WriteMailmap { content: "B <b@x.com> A <a@x.com>\n".to_string() });

    // Exactly one rewrite invocation, aimed at the persisted directive.
    let (machine, action) = step(
        machine,
        Event::MailmapWritten { path: Some("/tmp/mapdir/mailmap".to_string()) },
    );
    assert_eq!(
        action,
        Action::RunRewrite {
            repo: "/work/repo".to_string(),
            mailmap: "/tmp/mapdir/mailmap".to_string(),
        }
    );

    // Success: a zero exit for the whole run.
    let (_machine, action) = step(machine, Event::RewriteFinished { ok: true });
    assert_eq!(action, Action::Finish { outcome: Outcome::Success });
}

#[test]
fn rewrite_failure_is_reported() {
    let machine = Machine::new(config("/work/repo", false));
    let (machine, _) = step(machine, Event::Start);
    let (machine, _) = step(machine, Event::EngineChecked { ok: true });
    let (machine, _) = step(machine, listed(vec![entry(".git", true)]));
    let (machine, _) = step(machine, Event::CloneFinished { ok: true });
    let (machine, _) = step(machine, Event::MailmapWritten { path: Some("/tmp/m".to_string()) });
    let (_machine, action) = step(machine, Event::RewriteFinished { ok: false });
    assert_eq!(
        action,
        Action::Finish { outcome: Outcome::RewriteFailed { repo: "/work/repo".to_string() } }
    );
}

#[test]
fn mapping_io_failure_stops_the_repository() {
    let machine = Machine::new(config("/work/repo", false));
    let (machine, _) = step(machine, Event::Start);
    let (machine, _) = step(machine, Event::EngineChecked { ok: true });
    let (machine, _) = step(machine, listed(vec![entry(".git", true)]));
    let (machine, _) = step(machine, Event::CloneFinished { ok: true });
    let (machine, action) = step(machine, Event::MailmapWritten { path: None });
    assert_eq!(
        action,
        Action::Finish { outcome: Outcome::IoError { repo: "/work/repo".to_string() } }
    );
    assert!(!machine.expects(&Event::RewriteFinished { ok: true }));
}

#[test]
fn recursive_walk_rewrites_exactly_the_repository_sibling() {
    // Three subdirectories; only `b` is a repository root.
    let machine = Machine::new(config("/work", true));
    let (machine, _) = step(machine, Event::Start);
    let (machine, action) = step(machine, Event::EngineChecked { ok: true });
    assert_eq!(action, Action::ListDir { dir: "/work".to_string() });

    let root_listing = vec![entry("a", true), entry("b", true), entry("c", true)];
    let (machine, action) = step(machine, listed(root_listing));
    // Depth-first, in enumeration order: `a` is probed first.
    assert_eq!(action, Action::ListDir { dir: "/work/a".to_string() });

    // `a` is a plain directory with plain contents: nothing is touched,
    // the walk moves on to `b`.
    let (machine, action) = step(machine, listed(vec![entry("notes.txt", false)]));
    assert_eq!(action, Action::ListDir { dir: "/work/b".to_string() });

    // `b` is a repository: it is backed up and rewritten, and the walk
    // never descends into it.
    let (machine, action) = step(machine, listed(vec![entry(".git", true), entry("sub", true)]));
    assert_eq!(action, Action::CloneMirror { src: "/work/b".to_string() });
    assert!(!machine.expects(&listed(vec![])));

    let (machine, action) = step(machine, Event::CloneFinished { ok: true });
    assert_eq!(action, Action::WriteMailmap { content: "B <b@x.com> A <a@x.com>\n".to_string() });
    let (machine, action) = step(machine, Event::MailmapWritten { path: Some("/tmp/m".to_string()) });
    assert_eq!(
        action,
        Action::RunRewrite { repo: "/work/b".to_string(), mailmap: "/tmp/m".to_string() }
    );

    // After `b`, the walk resumes with `c`; its contents are only listed,
    // never cloned or rewritten.
    let (machine, action) = step(machine, Event::RewriteFinished { ok: true });
    assert_eq!(action, Action::ListDir { dir: "/work/c".to_string() });

    let (_machine, action) = step(machine, listed(vec![entry("data", false)]));
    assert_eq!(action, Action::Finish { outcome: Outcome::Success });
}

#[test]
fn hidden_subdirectories_are_never_visited() {
    let machine = Machine::new(config("/work", true));
    let (machine, _) = step(machine, Event::Start);
    let (machine, _) = step(machine, Event::EngineChecked { ok: true });

    // `.hidden` contains a nested repository, but its name begins with the
    // hidden marker: the walk must skip it entirely.
    let root_listing = vec![entry(".hidden", true), entry("open", true)];
    let (machine, action) = step(machine, listed(root_listing));
    assert_eq!(action, Action::ListDir { dir: "/work/open".to_string() });

    let (_machine, action) = step(machine, listed(vec![]));
    assert_eq!(action, Action::Finish { outcome: Outcome::Success });
}

#[test]
fn files_and_nested_hidden_directories_are_skipped() {
    let machine = Machine::new(config("/work", true));
    let (machine, _) = step(machine, Event::Start);
    let (machine, _) = step(machine, Event::EngineChecked { ok: true });

    // A file, a hidden directory and a visible directory: only the visible
    // directory is scheduled.
    let (machine, action) = step(
        machine,
        listed(vec![entry("README", false), entry(".cache", true), entry("x", true)]),
    );
    assert_eq!(action, Action::ListDir { dir: "/work/x".to_string() });

    // A nested visible directory is walked depth-first.
    let (machine, action) = step(machine, listed(vec![entry("y", true)]));
    assert_eq!(action, Action::ListDir { dir: "/work/x/y".to_string() });

    let (_machine, action) = step(machine, listed(vec![]));
    assert_eq!(action, Action::Finish { outcome: Outcome::Success });
}

#[test]
fn enumeration_error_halts_the_walk() {
    let machine = Machine::new(config("/work", true));
    let (machine, _) = step(machine, Event::Start);
    let (machine, _) = step(machine, Event::EngineChecked { ok: true });
    let (machine, action) = step(machine, listed(vec![entry("a", true), entry("b", true)]));
    assert_eq!(action, Action::ListDir { dir: "/work/a".to_string() });

    // `a` cannot be read: the walk aborts; `b` is never probed.
    let (machine, action) = step(machine, Event::Listed { listing: None });
    assert_eq!(
        action,
        Action::Finish {
            outcome: Outcome::DirectoryEnumerationError { dir: "/work/a".to_string() },
        }
    );
    assert!(!machine.expects(&listed(vec![])));
}

#[test]
fn unreadable_recursive_root_is_an_enumeration_error() {
    let machine = Machine::new(config("/nowhere", true));
    let (machine, _) = step(machine, Event::Start);
    let (machine, _) = step(machine, Event::EngineChecked { ok: true });
    let (_machine, action) = step(machine, Event::Listed { listing: None });
    assert_eq!(
        action,
        Action::Finish {
            outcome: Outcome::DirectoryEnumerationError { dir: "/nowhere".to_string() },
        }
    );
}

#[test]
fn plain_target_without_recursion_is_not_a_repository() {
    let machine = Machine::new(config("/work/plain", false));
    let (machine, _) = step(machine, Event::Start);
    let (machine, _) = step(machine, Event::EngineChecked { ok: true });
    let (_machine, action) = step(machine, listed(vec![entry("src", true)]));
    assert_eq!(
        action,
        Action::Finish { outcome: Outcome::NotARepository { dir: "/work/plain".to_string() } }
    );
}

#[test]
fn repository_root_is_rewritten_even_without_recursion_flag() {
    let machine = Machine::new(config("/work/repo", false));
    let (machine, _) = step(machine, Event::Start);
    let (machine, _) = step(machine, Event::EngineChecked { ok: true });
    let (_machine, action) = step(machine, listed(vec![entry(".git", true)]));
    assert_eq!(action, Action::CloneMirror { src: "/work/repo".to_string() });
}
