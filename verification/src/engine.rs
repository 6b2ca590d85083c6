//! Argument lists for the external version-control client and the external
//! history-rewrite engine.
//!
//! The driver spawns the subprocesses; the exact arguments each one is
//! given — the availability probe, the mirror clone, and the rewrite with
//! its safety flags — are built and pinned down here.

use crate::detect::strings_model;
use vstd::prelude::*;

verus! {

/// Arguments of the engine availability probe: `filter-repo --version`.
pub open spec fn version_check_args_model() -> Seq<Seq<char>> {
    seq!["filter-repo"@, "--version"@]
}

/// Builds the argument list of the engine availability probe.
pub fn version_check_args() -> (r: Vec<String>)
    ensures
        strings_model(r@) == version_check_args_model(),
{
    let mut v: Vec<String> = Vec::new();
    v.push("filter-repo".to_owned());
    v.push("--version".to_owned());
    proof {
        assert(strings_model(v@) =~= version_check_args_model());
    }
    v
}

/// Arguments of the backup step: a full mirror clone of `src` into `dst`
/// (all refs and objects, no working tree).
pub open spec fn clone_mirror_args_model(src: Seq<char>, dst: Seq<char>) -> Seq<Seq<char>> {
    seq!["clone"@, "--mirror"@, src, dst]
}

/// Builds the argument list of the backup mirror clone.
pub fn clone_mirror_args(src: &String, dst: &String) -> (r: Vec<String>)
    ensures
        strings_model(r@) == clone_mirror_args_model(src@, dst@),
{
    let mut v: Vec<String> = Vec::new();
    v.push("clone".to_owned());
    v.push("--mirror".to_owned());
    v.push(src.clone());
    v.push(dst.clone());
    proof {
        assert(strings_model(v@) =~= clone_mirror_args_model(src@, dst@));
    }
    v
}

/// Arguments of the rewrite invocation: force-overwrite enabled, the
/// mailmap-style identity substitution pointed at the directive file, and
/// the update-or-add replacement-refs policy, so that previously recorded
/// commit mappings stay discoverable.
pub open spec fn rewrite_args_model(mailmap: Seq<char>) -> Seq<Seq<char>> {
    seq![
        "filter-repo"@,
        "--force"@,
        "--mailmap"@,
        mailmap,
        "--replace-refs"@,
        "update-or-add"@,
    ]
}

/// Builds the argument list of the rewrite invocation for one directive
/// file.
pub fn rewrite_args(mailmap: &String) -> (r: Vec<String>)
    ensures
        strings_model(r@) == rewrite_args_model(mailmap@),
{
    let mut v: Vec<String> = Vec::new();
    v.push("filter-repo".to_owned());
    v.push("--force".to_owned());
    v.push("--mailmap".to_owned());
    v.push(mailmap.clone());
    v.push("--replace-refs".to_owned());
    v.push("update-or-add".to_owned());
    proof {
        assert(strings_model(v@) =~= rewrite_args_model(mailmap@));
    }
    v
}

} // verus!
