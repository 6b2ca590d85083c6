//! Repository detection and directory-walk bookkeeping over enumerated
//! directory listings.
//!
//! The driver enumerates a directory and hands the result over as a list of
//! [`Entry`] values (or `None` when the path cannot be enumerated, e.g. it
//! does not exist). Everything decided from such a listing — whether it marks
//! a repository root, which children are worth visiting, how a child's path
//! is formed — is verified here.

use vstd::prelude::*;

verus! {

/// One immediate child of a directory, as enumeration reports it.
#[derive(Debug, PartialEq, Eq)]
pub struct Entry {
    pub name: String,
    pub is_dir: bool,
}

/// Mathematical model of an [`Entry`].
#[verifier::ext_equal]
pub struct EntryModel {
    pub name: Seq<char>,
    pub is_dir: bool,
}

impl View for Entry {
    type V = EntryModel;

    open spec fn view(&self) -> EntryModel {
        EntryModel { name: self.name@, is_dir: self.is_dir }
    }
}

/// Model of an enumerated entry sequence.
pub open spec fn entries_model(v: Seq<Entry>) -> Seq<EntryModel> {
    v.map_values(|e: Entry| e@)
}

/// Model of a whole listing: `None` when the directory could not be
/// enumerated at all.
pub open spec fn listing_model(l: Option<Vec<Entry>>) -> Option<Seq<EntryModel>> {
    match l {
        Some(v) => Some(entries_model(v@)),
        None => None,
    }
}

/// A sequence of path strings, as character sequences.
pub open spec fn strings_model(v: Seq<String>) -> Seq<Seq<char>> {
    v.map_values(|s: String| s@)
}

/// Name of the metadata directory whose presence marks a repository root.
pub open spec fn metadata_dir_name() -> Seq<char> {
    ".git"@
}

/// A listing marks a repository root iff some direct entry bears the
/// metadata-directory name. Detection is presence-based, not type-strict:
/// any entry with that name counts, directory or not.
pub open spec fn listing_is_repository(entries: Seq<EntryModel>) -> bool {
    exists|i: int| 0 <= i < entries.len() && entries[i].name == metadata_dir_name()
}

/// Detector over an optional listing: a path that could not be enumerated
/// (in particular, a nonexistent one) is never a repository.
pub open spec fn is_repository_model(listing: Option<Seq<EntryModel>>) -> bool {
    match listing {
        Some(entries) => listing_is_repository(entries),
        None => false,
    }
}

/// Decides whether an entry sequence marks a repository root.
pub fn entries_are_repository(entries: &Vec<Entry>) -> (r: bool)
    ensures
        r == listing_is_repository(entries_model(entries@)),
{
    let marker: String = ".git".to_owned();
    let ghost ems = entries_model(entries@);
    let mut i: usize = 0;
    let mut found = false;
    while i < entries.len()
        invariant
            i <= entries@.len(),
            marker@ == metadata_dir_name(),
            ems == entries_model(entries@),
            found == exists|j: int| 0 <= j < i && ems[j].name == metadata_dir_name(),
        decreases entries@.len() - i,
    {
        proof {
            assert(ems[i as int] == entries@[i as int]@);
        }
        if entries[i].name == marker {
            found = true;
            proof {
                assert(ems[i as int].name == metadata_dir_name());
            }
        }
        i += 1;
    }
    found
}

/// Decides whether an enumerated path is the root of a repository.
///
/// Returns true iff a metadata-directory entry exists directly in the
/// listing; false for a listing that could not be taken — in particular,
/// for a nonexistent path. Side-effect-free.
pub fn is_repository(listing: &Option<Vec<Entry>>) -> (r: bool)
    ensures
        r == is_repository_model(listing_model(*listing)),
{
    match listing {
        None => false,
        Some(entries) => entries_are_repository(entries),
    }
}

/// A name marks a hidden entry when its first character is the hidden
/// marker `.`.
pub open spec fn hidden_name_model(name: Seq<char>) -> bool {
    name.len() > 0 && name[0] == '.'
}

/// Decides whether an entry name is hidden.
pub fn is_hidden_name(name: &String) -> (r: bool)
    ensures
        r == hidden_name_model(name@),
{
    let s = name.as_str();
    if s.unicode_len() == 0 {
        false
    } else {
        s.get_char(0) == '.'
    }
}

/// The path of a directory's child: the directory's path, a separator, and
/// the child's name.
pub open spec fn child_path_model(dir: Seq<char>, name: Seq<char>) -> Seq<char> {
    dir + "/"@ + name
}

/// Joins a directory path with the name of one of its entries.
pub fn child_path(dir: &String, name: &String) -> (r: String)
    ensures
        r@ == child_path_model(dir@, name@),
{
    let mut p = dir.clone();
    p.append("/");
    p.append(name.as_str());
    p
}

/// The walk descends into an entry iff it is a directory and not hidden.
pub open spec fn should_visit(e: EntryModel) -> bool {
    e.is_dir && !hidden_name_model(e.name)
}

/// The child paths pushed onto the walker's stack for one enumerated
/// directory, in push order: the last entry's path first, so that the first
/// entry is popped — and therefore visited — first.
pub open spec fn stacked_children(dir: Seq<char>, entries: Seq<EntryModel>) -> Seq<Seq<char>>
    decreases entries.len(),
{
    if entries.len() == 0 {
        Seq::empty()
    } else {
        let tail_part = stacked_children(dir, entries.drop_last());
        if should_visit(entries.last()) {
            seq![child_path_model(dir, entries.last().name)] + tail_part
        } else {
            tail_part
        }
    }
}

/// Unfolds [`stacked_children`] at the front: the first entry's
/// contribution, if any, comes last in the pushed sequence.
pub proof fn lemma_stacked_children_drop_first(dir: Seq<char>, entries: Seq<EntryModel>)
    requires
        entries.len() > 0,
    ensures
        stacked_children(dir, entries) == stacked_children(dir, entries.drop_first()) + (if should_visit(
            entries[0],
        ) {
            seq![child_path_model(dir, entries[0].name)]
        } else {
            Seq::<Seq<char>>::empty()
        }),
    decreases entries.len(),
{
    if entries.len() == 1 {
        assert(entries.drop_last() =~= Seq::<EntryModel>::empty());
        assert(entries.drop_first() =~= Seq::<EntryModel>::empty());
        assert(stacked_children(dir, entries) =~= stacked_children(dir, entries.drop_first()) + (
        if should_visit(entries[0]) {
            seq![child_path_model(dir, entries[0].name)]
        } else {
            Seq::<Seq<char>>::empty()
        }));
    } else {
        let shorter = entries.drop_last();
        lemma_stacked_children_drop_first(dir, shorter);
        assert(shorter.drop_first() =~= entries.drop_first().drop_last());
        assert(entries.drop_first().last() == entries.last());
        assert(stacked_children(dir, entries) =~= stacked_children(dir, entries.drop_first()) + (
        if should_visit(entries[0]) {
            seq![child_path_model(dir, entries[0].name)]
        } else {
            Seq::<Seq<char>>::empty()
        }));
    }
}

/// The path `p` names a visible (non-hidden) directory entry of `entries`
/// under `dir`.
pub open spec fn from_visible_entry(dir: Seq<char>, entries: Seq<EntryModel>, p: Seq<char>) -> bool {
    exists|j: int|
        0 <= j < entries.len() && #[trigger] should_visit(entries[j]) && p == child_path_model(
            dir,
            entries[j].name,
        )
}

/// Every path the walker stacks for a directory comes from a visible
/// (non-hidden) directory entry of it: hidden subdirectories are never
/// enqueued, and so never visited.
pub proof fn lemma_stacked_children_visible(dir: Seq<char>, entries: Seq<EntryModel>)
    ensures
        forall|k: int|
            0 <= k < stacked_children(dir, entries).len() ==> from_visible_entry(
                dir,
                entries,
                #[trigger] stacked_children(dir, entries)[k],
            ),
    decreases entries.len(),
{
    if entries.len() > 0 {
        lemma_stacked_children_visible(dir, entries.drop_last());
        let stacked = stacked_children(dir, entries);
        let tail_part = stacked_children(dir, entries.drop_last());
        assert forall|k: int| 0 <= k < stacked.len() implies from_visible_entry(
            dir,
            entries,
            stacked[k],
        ) by {
            if should_visit(entries.last()) && k == 0 {
                let j = entries.len() - 1;
                assert(should_visit(entries[j]) && stacked[0] == child_path_model(
                    dir,
                    entries[j].name,
                ));
            } else {
                let k0 = if should_visit(entries.last()) {
                    k - 1
                } else {
                    k
                };
                assert(stacked[k] == tail_part[k0]);
                assert(from_visible_entry(dir, entries.drop_last(), tail_part[k0]));
                let j = choose|j: int|
                    0 <= j < entries.drop_last().len() && #[trigger] should_visit(
                        entries.drop_last()[j],
                    ) && tail_part[k0] == child_path_model(dir, entries.drop_last()[j].name);
                assert(entries.drop_last()[j] == entries[j]);
                assert(should_visit(entries[j]) && stacked[k] == child_path_model(
                    dir,
                    entries[j].name,
                ));
            }
        }
    }
}

/// Pushes onto `pending` the path of every visible subdirectory named in
/// `entries`, last entry first, so that the first entry is popped first.
pub fn push_children(pending: &mut Vec<String>, dir: &String, entries: &Vec<Entry>)
    ensures
        strings_model(final(pending)@) == strings_model(old(pending)@) + stacked_children(
            dir@,
            entries_model(entries@),
        ),
{
    let ghost ems = entries_model(entries@);
    let ghost orig = strings_model(old(pending)@);
    let mut i: usize = entries.len();
    proof {
        assert(ems.skip(i as int) =~= Seq::<EntryModel>::empty());
        assert(strings_model(pending@) =~= orig + stacked_children(dir@, ems.skip(i as int)));
    }
    while i > 0
        invariant
            i <= entries@.len(),
            ems == entries_model(entries@),
            strings_model(pending@) == orig + stacked_children(dir@, ems.skip(i as int)),
        decreases i,
    {
        i -= 1;
        let ghost before = strings_model(pending@);
        proof {
            assert(ems[i as int] == entries@[i as int]@);
        }
        let e = &entries[i];
        if e.is_dir && !is_hidden_name(&e.name) {
            let p = child_path(dir, &e.name);
            pending.push(p);
            proof {
                assert(strings_model(pending@) =~= before + seq![
                    child_path_model(dir@, ems[i as int].name),
                ]);
            }
        }
        proof {
            let suffix = ems.skip(i as int);
            assert(suffix.len() > 0);
            assert(suffix[0] == ems[i as int]);
            assert(suffix.drop_first() =~= ems.skip(i as int + 1));
            lemma_stacked_children_drop_first(dir@, suffix);
            assert(strings_model(pending@) =~= orig + stacked_children(dir@, suffix));
        }
    }
    proof {
        assert(ems.skip(0) =~= ems);
    }
}

} // verus!
