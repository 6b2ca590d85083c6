//! The orchestration state machine of one invocation.
//!
//! A run is a dialogue: the machine names the next [`Action`] — probe the
//! engine, list a directory, clone a mirror backup, persist the mapping
//! directive, run the rewrite — and the driver performs it and answers with
//! the [`Event`] that reports its outcome. [`Machine::step`] is the whole
//! decision logic; [`spec_step`] is its mathematical statement, and every
//! transition — what is visited, what is skipped, when a failure ends the
//! run — is proved against it.

use crate::detect::{
    entries_are_repository, entries_model, listing_is_repository, listing_model, push_children,
    stacked_children, strings_model, Entry, EntryModel,
};
use crate::identity::{build_directive, directive_model, IdentityModel, IdentityPair};
use vstd::prelude::*;

verus! {

/// What one invocation was asked to do: which identity to replace with
/// which, starting at which path, and whether to search recursively.
pub struct Config {
    pub old_identity: IdentityPair,
    pub new_identity: IdentityPair,
    pub root: String,
    pub recursive: bool,
}

/// Mathematical model of a [`Config`].
#[verifier::ext_equal]
pub struct ConfigModel {
    pub old_identity: IdentityModel,
    pub new_identity: IdentityModel,
    pub root: Seq<char>,
    pub recursive: bool,
}

impl View for Config {
    type V = ConfigModel;

    open spec fn view(&self) -> ConfigModel {
        ConfigModel {
            old_identity: self.old_identity@,
            new_identity: self.new_identity@,
            root: self.root@,
            recursive: self.recursive,
        }
    }
}

/// How a run ends.
#[derive(Debug, PartialEq, Eq)]
pub enum Outcome {
    /// Every addressed repository was backed up and rewritten.
    Success,
    /// The external rewrite engine is not invocable; nothing was touched.
    MissingDependency,
    /// The target was named as a single repository but lacks the metadata
    /// directory.
    NotARepository { dir: String },
    /// The mirror clone of `repo` failed; its rewrite was never attempted.
    BackupFailed { repo: String },
    /// The mapping directive for `repo` could not be persisted.
    IoError { repo: String },
    /// The rewrite engine reported failure for `repo`.
    RewriteFailed { repo: String },
    /// `dir` could not be enumerated during the recursive walk.
    DirectoryEnumerationError { dir: String },
}

/// Mathematical model of an [`Outcome`].
#[verifier::ext_equal]
pub enum OutcomeModel {
    Success,
    MissingDependency,
    NotARepository { dir: Seq<char> },
    BackupFailed { repo: Seq<char> },
    IoError { repo: Seq<char> },
    RewriteFailed { repo: Seq<char> },
    DirectoryEnumerationError { dir: Seq<char> },
}

impl View for Outcome {
    type V = OutcomeModel;

    open spec fn view(&self) -> OutcomeModel {
        match self {
            Outcome::Success => OutcomeModel::Success,
            Outcome::MissingDependency => OutcomeModel::MissingDependency,
            Outcome::NotARepository { dir } => OutcomeModel::NotARepository { dir: dir@ },
            Outcome::BackupFailed { repo } => OutcomeModel::BackupFailed { repo: repo@ },
            Outcome::IoError { repo } => OutcomeModel::IoError { repo: repo@ },
            Outcome::RewriteFailed { repo } => OutcomeModel::RewriteFailed { repo: repo@ },
            Outcome::DirectoryEnumerationError { dir } => OutcomeModel::DirectoryEnumerationError {
                dir: dir@,
            },
        }
    }
}

/// Where the machine stands in a run.
#[derive(Debug, PartialEq, Eq)]
pub enum Phase {
    /// Nothing has happened yet.
    Init,
    /// Waiting for the engine availability probe.
    CheckingEngine,
    /// Waiting for the listing of `dir`; `at_root` marks the initially
    /// supplied path.
    Probing { dir: String, at_root: bool },
    /// Waiting for the mirror clone of `repo`.
    BackingUp { repo: String },
    /// Waiting for the mapping directive of this invocation to be
    /// persisted, on behalf of `repo`.
    WritingDirective { repo: String },
    /// Waiting for the rewrite of `repo`.
    Rewriting { repo: String },
    /// The run is over; no further event is expected.
    Finished { outcome: Outcome },
}

/// Mathematical model of a [`Phase`].
#[verifier::ext_equal]
pub enum PhaseModel {
    Init,
    CheckingEngine,
    Probing { dir: Seq<char>, at_root: bool },
    BackingUp { repo: Seq<char> },
    WritingDirective { repo: Seq<char> },
    Rewriting { repo: Seq<char> },
    Finished { outcome: OutcomeModel },
}

impl View for Phase {
    type V = PhaseModel;

    open spec fn view(&self) -> PhaseModel {
        match self {
            Phase::Init => PhaseModel::Init,
            Phase::CheckingEngine => PhaseModel::CheckingEngine,
            Phase::Probing { dir, at_root } => PhaseModel::Probing {
                dir: dir@,
                at_root: *at_root,
            },
            Phase::BackingUp { repo } => PhaseModel::BackingUp { repo: repo@ },
            Phase::WritingDirective { repo } => PhaseModel::WritingDirective { repo: repo@ },
            Phase::Rewriting { repo } => PhaseModel::Rewriting { repo: repo@ },
            Phase::Finished { outcome } => PhaseModel::Finished { outcome: outcome@ },
        }
    }
}

/// What the driver must do next.
#[derive(Debug, PartialEq, Eq)]
pub enum Action {
    /// Probe the rewrite engine: run the version check.
    CheckEngine,
    /// Enumerate the immediate entries of `dir`.
    ListDir { dir: String },
    /// Create a fresh ephemeral directory and mirror-clone `src` into it.
    CloneMirror { src: String },
    /// Persist `content` to a fresh process-scoped temporary file.
    WriteMailmap { content: String },
    /// Run the rewrite engine in `repo` against the directive at `mailmap`.
    RunRewrite { repo: String, mailmap: String },
    /// Stop: the run ended with `outcome`.
    Finish { outcome: Outcome },
}

/// Mathematical model of an [`Action`].
#[verifier::ext_equal]
pub enum ActionModel {
    CheckEngine,
    ListDir { dir: Seq<char> },
    CloneMirror { src: Seq<char> },
    WriteMailmap { content: Seq<char> },
    RunRewrite { repo: Seq<char>, mailmap: Seq<char> },
    Finish { outcome: OutcomeModel },
}

impl View for Action {
    type V = ActionModel;

    open spec fn view(&self) -> ActionModel {
        match self {
            Action::CheckEngine => ActionModel::CheckEngine,
            Action::ListDir { dir } => ActionModel::ListDir { dir: dir@ },
            Action::CloneMirror { src } => ActionModel::CloneMirror { src: src@ },
            Action::WriteMailmap { content } => ActionModel::WriteMailmap { content: content@ },
            Action::RunRewrite { repo, mailmap } => ActionModel::RunRewrite {
                repo: repo@,
                mailmap: mailmap@,
            },
            Action::Finish { outcome } => ActionModel::Finish { outcome: outcome@ },
        }
    }
}

/// What the driver observed while performing the last action.
#[derive(Debug, PartialEq, Eq)]
pub enum Event {
    /// Begin the run.
    Start,
    /// The engine availability probe finished; `ok` iff it succeeded.
    EngineChecked { ok: bool },
    /// The requested directory was enumerated; `None` when enumeration
    /// failed (the path does not exist or cannot be read).
    Listed { listing: Option<Vec<Entry>> },
    /// The mirror clone finished; `ok` iff it was spawned and exited with
    /// success.
    CloneFinished { ok: bool },
    /// Persisting the mapping directive finished; the path of the
    /// directive file, or `None` when it could not be created or written.
    MailmapWritten { path: Option<String> },
    /// The rewrite finished; `ok` iff the engine exited with success.
    RewriteFinished { ok: bool },
}

/// Mathematical model of an [`Event`].
#[verifier::ext_equal]
pub enum EventModel {
    Start,
    EngineChecked { ok: bool },
    Listed { listing: Option<Seq<EntryModel>> },
    CloneFinished { ok: bool },
    MailmapWritten { path: Option<Seq<char>> },
    RewriteFinished { ok: bool },
}

impl View for Event {
    type V = EventModel;

    open spec fn view(&self) -> EventModel {
        match self {
            Event::Start => EventModel::Start,
            Event::EngineChecked { ok } => EventModel::EngineChecked { ok: *ok },
            Event::Listed { listing } => EventModel::Listed { listing: listing_model(*listing) },
            Event::CloneFinished { ok } => EventModel::CloneFinished { ok: *ok },
            Event::MailmapWritten { path } => EventModel::MailmapWritten {
                path: match path {
                    Some(p) => Some(p@),
                    None => None,
                },
            },
            Event::RewriteFinished { ok } => EventModel::RewriteFinished { ok: *ok },
        }
    }
}

/// The machine: the invocation's configuration, the current phase, and the
/// stack of directories still to visit (top of the stack last).
pub struct Machine {
    pub config: Config,
    pub phase: Phase,
    pub pending: Vec<String>,
}

/// Mathematical model of a [`Machine`].
#[verifier::ext_equal]
pub struct MachineModel {
    pub config: ConfigModel,
    pub phase: PhaseModel,
    pub pending: Seq<Seq<char>>,
}

impl View for Machine {
    type V = MachineModel;

    open spec fn view(&self) -> MachineModel {
        MachineModel {
            config: self.config@,
            phase: self.phase@,
            pending: strings_model(self.pending@),
        }
    }
}

/// The state a fresh machine starts in.
pub open spec fn initial_model(config: ConfigModel) -> MachineModel {
    MachineModel { config, phase: PhaseModel::Init, pending: Seq::empty() }
}

/// The transition that ends a run with `outcome`.
pub open spec fn failed(pre: MachineModel, outcome: OutcomeModel) -> Option<
    (MachineModel, ActionModel),
> {
    Some(
        (
            MachineModel {
                config: pre.config,
                phase: PhaseModel::Finished { outcome },
                pending: pre.pending,
            },
            ActionModel::Finish { outcome },
        ),
    )
}

/// Moves on after a directory is dealt with: pop the next pending
/// directory and probe it, or finish successfully when none is left.
pub open spec fn advance_model(config: ConfigModel, pending: Seq<Seq<char>>) -> (
    MachineModel,
    ActionModel,
) {
    if pending.len() == 0 {
        (
            MachineModel {
                config,
                phase: PhaseModel::Finished { outcome: OutcomeModel::Success },
                pending,
            },
            ActionModel::Finish { outcome: OutcomeModel::Success },
        )
    } else {
        (
            MachineModel {
                config,
                phase: PhaseModel::Probing { dir: pending.last(), at_root: false },
                pending: pending.drop_last(),
            },
            ActionModel::ListDir { dir: pending.last() },
        )
    }
}

/// The transition function: what the machine does with `e` in state `pre`.
/// `None` means `e` is not the event the machine is waiting for; the driver
/// never produces such an event, and [`Machine::step`] refuses it.
pub open spec fn spec_step(pre: MachineModel, e: EventModel) -> Option<
    (MachineModel, ActionModel),
> {
    match (pre.phase, e) {
        (PhaseModel::Init, EventModel::Start) => Some(
            (
                MachineModel {
                    config: pre.config,
                    phase: PhaseModel::CheckingEngine,
                    pending: pre.pending,
                },
                ActionModel::CheckEngine,
            ),
        ),
        (PhaseModel::CheckingEngine, EventModel::EngineChecked { ok }) => if ok {
            Some(
                (
                    MachineModel {
                        config: pre.config,
                        phase: PhaseModel::Probing { dir: pre.config.root, at_root: true },
                        pending: pre.pending,
                    },
                    ActionModel::ListDir { dir: pre.config.root },
                ),
            )
        } else {
            failed(pre, OutcomeModel::MissingDependency)
        },
        (PhaseModel::Probing { dir, at_root }, EventModel::Listed { listing }) => match listing {
            Some(entries) => if listing_is_repository(entries) {
                Some(
                    (
                        MachineModel {
                            config: pre.config,
                            phase: PhaseModel::BackingUp { repo: dir },
                            pending: pre.pending,
                        },
                        ActionModel::CloneMirror { src: dir },
                    ),
                )
            } else if at_root && !pre.config.recursive {
                failed(pre, OutcomeModel::NotARepository { dir })
            } else {
                Some(advance_model(pre.config, pre.pending + stacked_children(dir, entries)))
            },
            None => if at_root && !pre.config.recursive {
                failed(pre, OutcomeModel::NotARepository { dir })
            } else {
                failed(pre, OutcomeModel::DirectoryEnumerationError { dir })
            },
        },
        (PhaseModel::BackingUp { repo }, EventModel::CloneFinished { ok }) => if ok {
            Some(
                (
                    MachineModel {
                        config: pre.config,
                        phase: PhaseModel::WritingDirective { repo },
                        pending: pre.pending,
                    },
                    ActionModel::WriteMailmap {
                        content: directive_model(pre.config.old_identity, pre.config.new_identity),
                    },
                ),
            )
        } else {
            failed(pre, OutcomeModel::BackupFailed { repo })
        },
        (PhaseModel::WritingDirective { repo }, EventModel::MailmapWritten { path }) => match path {
            Some(p) => Some(
                (
                    MachineModel {
                        config: pre.config,
                        phase: PhaseModel::Rewriting { repo },
                        pending: pre.pending,
                    },
                    ActionModel::RunRewrite { repo, mailmap: p },
                ),
            ),
            None => failed(pre, OutcomeModel::IoError { repo }),
        },
        (PhaseModel::Rewriting { repo }, EventModel::RewriteFinished { ok }) => if ok {
            Some(advance_model(pre.config, pre.pending))
        } else {
            failed(pre, OutcomeModel::RewriteFailed { repo })
        },
        _ => None,
    }
}

/// Whether the machine in state `pre` is waiting for event `e`.
pub open spec fn event_expected(pre: MachineModel, e: EventModel) -> bool {
    spec_step(pre, e) is Some
}

impl Machine {
    /// A fresh machine for one invocation. Nothing has been probed, backed
    /// up or rewritten; the first expected event is [`Event::Start`].
    pub fn new(config: Config) -> (r: Machine)
        ensures
            r@ == initial_model(config@),
    {
        let r = Machine { config, phase: Phase::Init, pending: Vec::new() };
        proof {
            assert(r@ =~~= initial_model(r.config@));
        }
        r
    }

    /// Whether `event` is the event this machine is waiting for. The driver
    /// checks this before calling [`Machine::step`].
    pub fn expects(&self, event: &Event) -> (r: bool)
        ensures
            r == event_expected(self@, event@),
    {
        match (&self.phase, event) {
            (Phase::Init, Event::Start) => true,
            (Phase::CheckingEngine, Event::EngineChecked { .. }) => true,
            (Phase::Probing { .. }, Event::Listed { .. }) => true,
            (Phase::BackingUp { .. }, Event::CloneFinished { .. }) => true,
            (Phase::WritingDirective { .. }, Event::MailmapWritten { .. }) => true,
            (Phase::Rewriting { .. }, Event::RewriteFinished { .. }) => true,
            _ => false,
        }
    }

    /// Performs one transition: consumes the machine and the event the
    /// machine is waiting for, and returns the successor machine together
    /// with the next action for the driver.
    pub fn step(self, event: Event) -> (r: (Machine, Action))
        requires
            event_expected(self@, event@),
        ensures
            spec_step(self@, event@) == Some((r.0@, r.1@)),
    {
        let ghost pre = self@;
        let ghost ev = event@;
        let Machine { config, phase, pending } = self;
        match (phase, event) {
            (Phase::Init, Event::Start) => {
                let m = Machine { config, phase: Phase::CheckingEngine, pending };
                let a = Action::CheckEngine;
                proof {
                    assert(spec_step(pre, ev) =~~= Some((m@, a@)));
                }
                (m, a)
            },
            (Phase::CheckingEngine, Event::EngineChecked { ok }) => {
                if ok {
                    let a = Action::ListDir { dir: config.root.clone() };
                    let dir = config.root.clone();
                    let m = Machine {
                        config,
                        phase: Phase::Probing { dir, at_root: true },
                        pending,
                    };
                    proof {
                        assert(spec_step(pre, ev) =~~= Some((m@, a@)));
                    }
                    (m, a)
                } else {
                    let a = Action::Finish { outcome: Outcome::MissingDependency };
                    let m = Machine {
                        config,
                        phase: Phase::Finished { outcome: Outcome::MissingDependency },
                        pending,
                    };
                    proof {
                        assert(spec_step(pre, ev) =~~= Some((m@, a@)));
                    }
                    (m, a)
                }
            },
            (Phase::Probing { dir, at_root }, Event::Listed { listing }) => {
                match listing {
                    Some(entries) => {
                        if entries_are_repository(&entries) {
                            let a = Action::CloneMirror { src: dir.clone() };
                            let m = Machine {
                                config,
                                phase: Phase::BackingUp { repo: dir },
                                pending,
                            };
                            proof {
                                assert(spec_step(pre, ev) =~~= Some((m@, a@)));
                            }
                            (m, a)
                        } else if at_root && !config.recursive {
                            let a = Action::Finish {
                                outcome: Outcome::NotARepository { dir: dir.clone() },
                            };
                            let m = Machine {
                                config,
                                phase: Phase::Finished {
                                    outcome: Outcome::NotARepository { dir },
                                },
                                pending,
                            };
                            proof {
                                assert(spec_step(pre, ev) =~~= Some((m@, a@)));
                            }
                            (m, a)
                        } else {
                            let mut pending = pending;
                            push_children(&mut pending, &dir, &entries);
                            proof {
                                assert(strings_model(pending@) == pre.pending + stacked_children(
                                    dir@,
                                    entries_model(entries@),
                                ));
                            }
                            advance(config, pending, Ghost(pre), Ghost(ev))
                        }
                    },
                    None => {
                        if at_root && !config.recursive {
                            let a = Action::Finish {
                                outcome: Outcome::NotARepository { dir: dir.clone() },
                            };
                            let m = Machine {
                                config,
                                phase: Phase::Finished {
                                    outcome: Outcome::NotARepository { dir },
                                },
                                pending,
                            };
                            proof {
                                assert(spec_step(pre, ev) =~~= Some((m@, a@)));
                            }
                            (m, a)
                        } else {
                            let a = Action::Finish {
                                outcome: Outcome::DirectoryEnumerationError { dir: dir.clone() },
                            };
                            let m = Machine {
                                config,
                                phase: Phase::Finished {
                                    outcome: Outcome::DirectoryEnumerationError { dir },
                                },
                                pending,
                            };
                            proof {
                                assert(spec_step(pre, ev) =~~= Some((m@, a@)));
                            }
                            (m, a)
                        }
                    },
                }
            },
            (Phase::BackingUp { repo }, Event::CloneFinished { ok }) => {
                if ok {
                    let content = build_directive(&config.old_identity, &config.new_identity);
                    let a = Action::WriteMailmap { content };
                    let m = Machine {
                        config,
                        phase: Phase::WritingDirective { repo },
                        pending,
                    };
                    proof {
                        assert(spec_step(pre, ev) =~~= Some((m@, a@)));
                    }
                    (m, a)
                } else {
                    let a = Action::Finish {
                        outcome: Outcome::BackupFailed { repo: repo.clone() },
                    };
                    let m = Machine {
                        config,
                        phase: Phase::Finished { outcome: Outcome::BackupFailed { repo } },
                        pending,
                    };
                    proof {
                        assert(spec_step(pre, ev) =~~= Some((m@, a@)));
                    }
                    (m, a)
                }
            },
            (Phase::WritingDirective { repo }, Event::MailmapWritten { path }) => {
                match path {
                    Some(p) => {
                        let a = Action::RunRewrite { repo: repo.clone(), mailmap: p };
                        let m = Machine { config, phase: Phase::Rewriting { repo }, pending };
                        proof {
                            assert(spec_step(pre, ev) =~~= Some((m@, a@)));
                        }
                        (m, a)
                    },
                    None => {
                        let a = Action::Finish { outcome: Outcome::IoError { repo: repo.clone() } };
                        let m = Machine {
                            config,
                            phase: Phase::Finished { outcome: Outcome::IoError { repo } },
                            pending,
                        };
                        proof {
                            assert(spec_step(pre, ev) =~~= Some((m@, a@)));
                        }
                        (m, a)
                    },
                }
            },
            (Phase::Rewriting { repo }, Event::RewriteFinished { ok }) => {
                if ok {
                    advance(config, pending, Ghost(pre), Ghost(ev))
                } else {
                    let a = Action::Finish {
                        outcome: Outcome::RewriteFailed { repo: repo.clone() },
                    };
                    let m = Machine {
                        config,
                        phase: Phase::Finished { outcome: Outcome::RewriteFailed { repo } },
                        pending,
                    };
                    proof {
                        assert(spec_step(pre, ev) =~~= Some((m@, a@)));
                    }
                    (m, a)
                }
            },
            _ => {
                proof {
                    assert(false);
                }
                unreached()
            },
        }
    }
}

/// Pops the next pending directory and probes it, or finishes the run
/// successfully; the executable side of [`advance_model`].
fn advance(config: Config, pending: Vec<String>, Ghost(pre): Ghost<MachineModel>, Ghost(ev): Ghost<
    EventModel,
>) -> (r: (Machine, Action))
    requires
        spec_step(pre, ev) == Some(advance_model(config@, strings_model(pending@))),
    ensures
        spec_step(pre, ev) == Some((r.0@, r.1@)),
{
    let ghost orig = strings_model(pending@);
    let mut pending = pending;
    match pending.pop() {
        None => {
            let a = Action::Finish { outcome: Outcome::Success };
            let m = Machine {
                config,
                phase: Phase::Finished { outcome: Outcome::Success },
                pending,
            };
            proof {
                assert(orig.len() == 0);
                assert((m@, a@) =~~= advance_model(m.config@, orig));
            }
            (m, a)
        },
        Some(next) => {
            let a = Action::ListDir { dir: next.clone() };
            proof {
                assert(next@ == orig.last());
            }
            let m = Machine {
                config,
                phase: Phase::Probing { dir: next, at_root: false },
                pending,
            };
            proof {
                assert(strings_model(m.pending@) =~= orig.drop_last());
                assert((m@, a@) =~~= advance_model(m.config@, orig));
            }
            (m, a)
        },
    }
}

} // verus!
