//! Guarantees over whole runs of the machine, not single transitions.
//!
//! A run is the machine folded over a sequence of events; these lemmas pin
//! down what any run can and cannot ask the driver to do: nothing mutating
//! after a failed engine probe, no rewrite once a backup has failed, a
//! directive only on the heels of a successful clone, and walk additions
//! drawn only from visible subdirectories.

use crate::detect::{from_visible_entry, lemma_stacked_children_visible, listing_is_repository,
    stacked_children};
use crate::identity::directive_model;
use crate::machine::{spec_step, ActionModel, EventModel, MachineModel, OutcomeModel, PhaseModel};
use vstd::prelude::*;

verus! {

/// The actions a machine emits on a sequence of events, starting at `m`:
/// one per event, stopping as soon as an event arrives that the machine is
/// not waiting for.
pub open spec fn run_actions(m: MachineModel, events: Seq<EventModel>) -> Seq<ActionModel>
    decreases events.len(),
{
    if events.len() == 0 {
        Seq::empty()
    } else {
        match spec_step(m, events[0]) {
            Some(p) => seq![p.1] + run_actions(p.0, events.drop_first()),
            None => Seq::empty(),
        }
    }
}

/// An action that touches a repository: cloning it for backup, or
/// rewriting its history.
pub open spec fn is_mutating(a: ActionModel) -> bool {
    a is CloneMirror || a is RunRewrite
}

/// A finished machine expects no further event, so it emits no further
/// action: whatever events follow, the run is over.
pub proof fn lemma_finished_is_terminal(m: MachineModel, events: Seq<EventModel>)
    requires
        m.phase is Finished,
    ensures
        run_actions(m, events) == Seq::<ActionModel>::empty(),
{
    if events.len() > 0 {
        assert(spec_step(m, events[0]) is None);
        assert(run_actions(m, events) == Seq::<ActionModel>::empty());
    }
}

/// If the engine's availability probe fails, the run ends at once with
/// the missing-dependency outcome: no backup subprocess and no rewrite
/// subprocess is ever requested, whatever events may follow.
pub proof fn lemma_failed_check_mutates_nothing(m: MachineModel, events: Seq<EventModel>)
    requires
        m.phase is CheckingEngine,
    ensures
        run_actions(m, seq![EventModel::EngineChecked { ok: false }] + events) == seq![
            ActionModel::Finish { outcome: OutcomeModel::MissingDependency },
        ],
        forall|k: int|
            0 <= k < run_actions(m, seq![EventModel::EngineChecked { ok: false }] + events).len()
                ==> !is_mutating(
                #[trigger] run_actions(m, seq![EventModel::EngineChecked { ok: false }] + events)[k],
            ),
{
    let evs = seq![EventModel::EngineChecked { ok: false }] + events;
    assert(evs[0] == EventModel::EngineChecked { ok: false });
    let p = spec_step(m, evs[0])->Some_0;
    assert(p.0.phase is Finished);
    assert(evs.drop_first() =~= events);
    lemma_finished_is_terminal(p.0, events);
    assert(run_actions(m, evs) =~= seq![
        ActionModel::Finish { outcome: OutcomeModel::MissingDependency },
    ]);
}

/// If the mirror clone of a repository fails, the run ends at once with
/// the backup-failed outcome: the rewrite is never requested — not for
/// that repository, and, the failure halting the remaining traversal, not
/// for any other either.
pub proof fn lemma_failed_backup_stops_run(m: MachineModel, events: Seq<EventModel>)
    requires
        m.phase matches PhaseModel::BackingUp { repo },
    ensures
        m.phase matches PhaseModel::BackingUp { repo } ==> run_actions(
            m,
            seq![EventModel::CloneFinished { ok: false }] + events,
        ) == seq![ActionModel::Finish { outcome: OutcomeModel::BackupFailed { repo } }],
        forall|k: int|
            0 <= k < run_actions(m, seq![EventModel::CloneFinished { ok: false }] + events).len()
                ==> !is_mutating(
                #[trigger] run_actions(m, seq![EventModel::CloneFinished { ok: false }] + events)[k],
            ),
{
    let evs = seq![EventModel::CloneFinished { ok: false }] + events;
    assert(evs[0] == EventModel::CloneFinished { ok: false });
    let p = spec_step(m, evs[0])->Some_0;
    assert(p.0.phase is Finished);
    assert(evs.drop_first() =~= events);
    lemma_finished_is_terminal(p.0, events);
    let repo = m.phase->BackingUp_repo;
    assert(run_actions(m, evs) =~= seq![
        ActionModel::Finish { outcome: OutcomeModel::BackupFailed { repo } },
    ]);
}

/// The mapping directive is requested exactly when a mirror clone reports
/// success, and it is the directive of this invocation's four identity
/// fields: a repository's rewrite pipeline never proceeds past backup
/// without a backup, and never with a foreign mapping.
pub proof fn lemma_directive_needs_backup(
    pre: MachineModel,
    e: EventModel,
    post: MachineModel,
    a: ActionModel,
)
    requires
        spec_step(pre, e) == Some((post, a)),
        (a is WriteMailmap),
    ensures
        (pre.phase matches PhaseModel::BackingUp { repo } ==> post.phase
            == (PhaseModel::WritingDirective { repo })),
        (pre.phase is BackingUp),
        (e == (EventModel::CloneFinished { ok: true })),
        (a == (ActionModel::WriteMailmap {
            content: directive_model(pre.config.old_identity, pre.config.new_identity),
        })),
{
}

/// A rewrite is requested exactly when the directive file for a repository
/// has been persisted, and it is aimed at that repository and that file.
pub proof fn lemma_rewrite_needs_directive(
    pre: MachineModel,
    e: EventModel,
    post: MachineModel,
    a: ActionModel,
)
    requires
        spec_step(pre, e) == Some((post, a)),
        (a is RunRewrite),
    ensures
        (pre.phase is WritingDirective),
        (pre.phase matches PhaseModel::WritingDirective { repo } ==> (e matches
            EventModel::MailmapWritten { path: Some(p) } && a == (ActionModel::RunRewrite {
            repo,
            mailmap: p,
        }) && post.phase == (PhaseModel::Rewriting { repo }))),
{
}

/// A mirror clone is requested only for a directory whose listing was just
/// recognized as a repository root: nothing that is not a repository is
/// ever backed up — nor, the pipeline lemmas extending this, rewritten.
pub proof fn lemma_clone_needs_recognition(
    pre: MachineModel,
    e: EventModel,
    post: MachineModel,
    a: ActionModel,
)
    requires
        spec_step(pre, e) == Some((post, a)),
        (a is CloneMirror),
    ensures
        (pre.phase is Probing),
        (pre.phase matches PhaseModel::Probing { dir, at_root } ==> a == (ActionModel::CloneMirror {
            src: dir,
        }) && post.phase == (PhaseModel::BackingUp { repo: dir })),
        (e matches EventModel::Listed { listing } ==> listing matches Some(entries)
            && listing_is_repository(entries)),
{
}

/// Inversion of the backup phase: the one transition that enters it is the
/// recognition of that repository, and it requests that repository's
/// mirror clone.
pub proof fn lemma_backup_entry(
    pre: MachineModel,
    e: EventModel,
    post: MachineModel,
    a: ActionModel,
)
    requires
        spec_step(pre, e) == Some((post, a)),
    ensures
        (post.phase matches PhaseModel::BackingUp { repo } ==> a == (ActionModel::CloneMirror {
            src: repo,
        })),
{
}

/// Inversion of the directive-writing phase: the one transition that
/// enters it is a successful clone of that repository.
pub proof fn lemma_directive_entry(
    pre: MachineModel,
    e: EventModel,
    post: MachineModel,
    a: ActionModel,
)
    requires
        spec_step(pre, e) == Some((post, a)),
    ensures
        (post.phase matches PhaseModel::WritingDirective { repo } ==> pre.phase
            == (PhaseModel::BackingUp { repo }) && (a is WriteMailmap)),
{
}

/// The pipeline claim at one position of an action sequence emitted from
/// state `m`: a rewrite is immediately preceded by the directive write,
/// and that by the mirror clone of the same repository — or, near the
/// start of the sequence, the machine was already that far into the
/// pipeline for that repository.
pub open spec fn ordered_at(m: MachineModel, acts: Seq<ActionModel>, k: int) -> bool {
    &&& (acts[k] matches ActionModel::RunRewrite { repo, .. } ==> {
        if k == 0 {
            m.phase == (PhaseModel::WritingDirective { repo })
        } else if k == 1 {
            acts[0] is WriteMailmap && m.phase == (PhaseModel::BackingUp { repo })
        } else {
            acts[k - 1] is WriteMailmap && acts[k - 2] == (ActionModel::CloneMirror { src: repo })
        }
    })
    &&& (acts[k] is WriteMailmap ==> {
        if k == 0 {
            m.phase is BackingUp
        } else {
            acts[k - 1] is CloneMirror
        }
    })
}

/// Every position of the sequence satisfies the pipeline claim.
pub open spec fn pipeline_ordered(m: MachineModel, acts: Seq<ActionModel>) -> bool {
    forall|k: int| 0 <= k < acts.len() ==> #[trigger] ordered_at(m, acts, k)
}

/// In any run, a repository's rewrite never begins before its backup: a
/// rewrite request is immediately preceded by the directive write, which
/// is immediately preceded by the mirror clone of that same repository —
/// unless the starting state was already past those stages for it.
pub proof fn lemma_pipeline_order(m: MachineModel, evs: Seq<EventModel>)
    ensures
        pipeline_ordered(m, run_actions(m, evs)),
    decreases evs.len(),
{
    let acts = run_actions(m, evs);
    if evs.len() > 0 {
        match spec_step(m, evs[0]) {
            None => {},
            Some(p) => {
                let m1 = p.0;
                let a0 = p.1;
                lemma_pipeline_order(m1, evs.drop_first());
                let tail = run_actions(m1, evs.drop_first());
                assert(acts =~= seq![a0] + tail);
                assert forall|k: int| 0 <= k < acts.len() implies ordered_at(m, acts, k) by {
                    if k == 0 {
                        if a0 is RunRewrite {
                            lemma_rewrite_needs_directive(m, evs[0], m1, a0);
                        }
                        if a0 is WriteMailmap {
                            lemma_directive_needs_backup(m, evs[0], m1, a0);
                        }
                    } else {
                        assert(ordered_at(m1, tail, k - 1));
                        assert(acts[k] == tail[k - 1]);
                        if k - 1 == 0 {
                            if tail[0] is RunRewrite {
                                lemma_directive_entry(m, evs[0], m1, a0);
                            }
                            if tail[0] is WriteMailmap {
                                lemma_backup_entry(m, evs[0], m1, a0);
                            }
                        } else if k - 1 == 1 && tail[1] is RunRewrite {
                            lemma_backup_entry(m, evs[0], m1, a0);
                        }
                    }
                }
            },
        }
    }
}

/// One transition adds to the walk stack only the visible subdirectories
/// of the directory just enumerated: every pending path either was already
/// pending, or names a non-hidden directory entry of that listing. In
/// particular a hidden subdirectory is never scheduled for a visit, and a
/// directory recognized as a repository schedules nothing beneath itself.
pub proof fn lemma_walk_additions(
    pre: MachineModel,
    e: EventModel,
    post: MachineModel,
    a: ActionModel,
)
    requires
        spec_step(pre, e) == Some((post, a)),
    ensures
        forall|k: int|
            0 <= k < post.pending.len() ==> pre.pending.contains(#[trigger] post.pending[k]) || (
            pre.phase matches PhaseModel::Probing { dir, at_root } && e matches EventModel::Listed {
                listing: Some(entries),
            } && from_visible_entry(dir, entries, post.pending[k])),
{
    if pre.phase matches PhaseModel::Probing { dir, at_root } && e matches EventModel::Listed {
        listing: Some(entries),
    } && !listing_is_repository(entries) && !(at_root && !pre.config.recursive) {
        let dir = pre.phase->Probing_dir;
        let entries = e->Listed_listing->Some_0;
        let extended = pre.pending + stacked_children(dir, entries);
        lemma_stacked_children_visible(dir, entries);
        assert forall|k: int| 0 <= k < post.pending.len() implies pre.pending.contains(
            post.pending[k],
        ) || from_visible_entry(dir, entries, post.pending[k]) by {
            assert(post.pending[k] == extended[k]);
            if k < pre.pending.len() {
                assert(pre.pending[k] == post.pending[k]);
            } else {
                assert(extended[k] == stacked_children(dir, entries)[k - pre.pending.len()]);
            }
        }
    } else {
        assert forall|k: int| 0 <= k < post.pending.len() implies pre.pending.contains(
            post.pending[k],
        ) by {
            assert(post.pending[k] == pre.pending[k]);
        }
    }
}

} // verus!
