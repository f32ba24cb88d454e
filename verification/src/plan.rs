//! Copy operations and the scanner's planning rules.
//!
//! The scanner turns a list of directory entries into an ordered list of
//! [`CopyOp`] records. An entry earns an operation exactly when it is
//! visible (neither hidden nor already under the destination root), is a
//! regular file, carries a `'.'` in its base name, and its metadata parse
//! succeeded. The planned operation copies the file to
//! `destination / base_name(source)` and starts out [`CopyStatus::Pending`].

use vstd::prelude::*;
use crate::io::probe_tags;
use crate::paths::{FilePath, is_hidden_name, is_under, name_has_dot, seq_has_dot, seq_is_hidden};

verus! {

/// The life cycle of one copy operation: strictly forward from `Pending`
/// through `InProgress` to exactly one of the terminal states.
#[derive(Clone, Copy, Debug, PartialEq, Eq, Structural)]
pub enum CopyStatus {
    Pending,
    InProgress,
    Succeeded,
    Failed,
}

/// One planned copy, with the terminal status the executor later records.
#[derive(Debug)]
pub struct CopyOp {
    pub source_path: FilePath,
    pub destination_path: FilePath,
    pub status: CopyStatus,
}

impl CopyOp {
    /// A freshly planned operation; every operation starts out `Pending`.
    pub fn new(source_path: FilePath, destination_path: FilePath) -> (r: CopyOp)
        ensures
            r.source_path == source_path,
            r.destination_path == destination_path,
            r.status == CopyStatus::Pending,
    {
        CopyOp { source_path, destination_path, status: CopyStatus::Pending }
    }
}

/// A directory entry as the scanner sees it, together with the verdict of
/// the metadata parser on it (`tag_ok` is only meaningful for regular files
/// whose name carries a `'.'`; the planner never reads it otherwise).
pub struct ScanEntry {
    pub path: FilePath,
    pub is_file: bool,
    pub tag_ok: bool,
}

/// The entry is neither hidden nor already under the destination root.
pub open spec fn entry_visible(e: ScanEntry, dest: Seq<Seq<char>>) -> bool {
    &&& !seq_is_hidden(e.path@.last())
    &&& !is_under(e.path@.drop_last(), dest)
}

/// The planner queues a copy for the entry: it is a visible regular file,
/// its base name contains a `'.'`, and its metadata parse succeeded.
pub open spec fn entry_qualifies(e: ScanEntry, dest: Seq<Seq<char>>) -> bool {
    &&& e.path@.len() > 0
    &&& entry_visible(e, dest)
    &&& e.is_file
    &&& seq_has_dot(e.path@.last())
    &&& e.tag_ok
}

/// The destination planned for an entry: the destination root extended by
/// the entry's base name alone (relative directories are not preserved).
pub open spec fn planned_destination(e: ScanEntry, dest: Seq<Seq<char>>) -> Seq<Seq<char>> {
    dest.push(e.path@.last())
}

/// The ordered plan for a list of entries: one source/destination pair per
/// qualifying entry, in entry order.
pub open spec fn plan_spec(entries: Seq<ScanEntry>, dest: Seq<Seq<char>>) -> Seq<
    (Seq<Seq<char>>, Seq<Seq<char>>),
>
    decreases entries.len(),
{
    if entries.len() == 0 {
        Seq::empty()
    } else {
        let prefix = plan_spec(entries.drop_last(), dest);
        let e = entries.last();
        if entry_qualifies(e, dest) {
            prefix.push((e.path@, planned_destination(e, dest)))
        } else {
            prefix
        }
    }
}

/// The walker's per-entry filter: an entry is kept (listed, and descended
/// into when it is a directory) exactly when its name is not hidden and its
/// parent does not lie under the destination root.
pub fn should_show(name: &String, parent: &FilePath, dest: &FilePath) -> (r: bool)
    ensures
        r == (!seq_is_hidden(name@) && !is_under(parent@, dest@)),
{
    !(is_hidden_name(name.as_str()) || parent.starts_with(dest))
}

/// The planning decision for a single entry: `Some` exactly when the entry
/// qualifies, and then the operation copies the entry to
/// `dest / base_name(entry)` and is `Pending`.
pub fn consider_entry(e: &ScanEntry, dest: &FilePath) -> (r: Option<CopyOp>)
    ensures
        r is Some <==> entry_qualifies(*e, dest@),
        r matches Some(op) ==> {
            &&& op.source_path@ == e.path@
            &&& op.destination_path@ == planned_destination(*e, dest@)
            &&& op.status == CopyStatus::Pending
        },
{
    if e.path.parts.len() == 0 {
        return None;
    }
    let parent = e.path.parent();
    if !should_show(e.path.base_name(), &parent, dest) {
        return None;
    }
    if !e.is_file {
        return None;
    }
    if !name_has_dot(e.path.base_name().as_str()) {
        return None;
    }
    if !e.tag_ok {
        return None;
    }
    let destination = dest.child(e.path.base_name());
    Some(CopyOp::new(e.path.duplicate(), destination))
}

proof fn lemma_plan_spec_take_step(entries: Seq<ScanEntry>, dest: Seq<Seq<char>>, i: int)
    requires
        0 <= i < entries.len(),
    ensures
        plan_spec(entries.take(i + 1), dest) == (if entry_qualifies(entries[i], dest) {
            plan_spec(entries.take(i), dest).push(
                (entries[i].path@, planned_destination(entries[i], dest)),
            )
        } else {
            plan_spec(entries.take(i), dest)
        }),
{
    assert(entries.take(i + 1).drop_last() =~= entries.take(i));
    assert(entries.take(i + 1).last() == entries[i]);
}

/// The scanner's planning pass: one `Pending` operation per qualifying
/// entry, in entry order, each aimed at `dest / base_name(source)`.
pub fn plan_operations(entries: &Vec<ScanEntry>, dest: &FilePath) -> (ops: Vec<CopyOp>)
    ensures
        ops@.len() == plan_spec(entries@, dest@).len(),
        forall|k: int| 0 <= k < ops@.len() ==> {
            &&& (#[trigger] ops@[k]).source_path@ == plan_spec(entries@, dest@)[k].0
            &&& ops@[k].destination_path@ == plan_spec(entries@, dest@)[k].1
            &&& ops@[k].status == CopyStatus::Pending
        },
{
    let mut ops: Vec<CopyOp> = Vec::new();
    let mut i: usize = 0;
    while i < entries.len()
        invariant
            0 <= i <= entries@.len(),
            ops@.len() == plan_spec(entries@.take(i as int), dest@).len(),
            forall|k: int| 0 <= k < ops@.len() ==> {
                &&& (#[trigger] ops@[k]).source_path@ == plan_spec(entries@.take(i as int), dest@)[k].0
                &&& ops@[k].destination_path@ == plan_spec(entries@.take(i as int), dest@)[k].1
                &&& ops@[k].status == CopyStatus::Pending
            },
        decreases entries@.len() - i,
    {
        proof {
            lemma_plan_spec_take_step(entries@, dest@, i as int);
        }
        match consider_entry(&entries[i], dest) {
            Some(op) => ops.push(op),
            None => (),
        }
        i += 1;
    }
    proof {
        assert(entries@.take(entries@.len() as int) =~= entries@);
    }
    ops
}

/// A directory entry as the walker hands it over, before the metadata
/// parser has been consulted.
pub struct WalkEntry {
    pub path: FilePath,
    pub is_file: bool,
}

/// The entry is worth probing: a visible regular file whose base name
/// carries a `'.'`. Only the metadata parser's verdict is still missing.
pub open spec fn file_candidate(w: WalkEntry, dest: Seq<Seq<char>>) -> bool {
    &&& w.path@.len() > 0
    &&& !seq_is_hidden(w.path@.last())
    &&& !is_under(w.path@.drop_last(), dest)
    &&& w.is_file
    &&& seq_has_dot(w.path@.last())
}

/// The full scanning pass: filters the walked entries, consults the
/// metadata parser on each candidate, and queues one `Pending` operation
/// per file the parser accepted, aimed at `dest / base_name(source)`.
/// Which candidates the parser accepts depends on the files' contents, so
/// the promise is over every outcome: each queued operation stems from a
/// candidate entry.
pub fn scan(files: &Vec<WalkEntry>, dest: &FilePath) -> (ops: Vec<CopyOp>)
    ensures
        ops@.len() <= files@.len(),
        forall|k: int| 0 <= k < ops@.len() ==> {
            &&& (#[trigger] ops@[k]).status == CopyStatus::Pending
            &&& exists|i: int|
                0 <= i < files@.len() && #[trigger] file_candidate(files@[i], dest@)
                    && ops@[k].source_path@ == files@[i].path@ && ops@[k].destination_path@
                    == dest@.push(files@[i].path@.last())
        },
{
    let mut ops: Vec<CopyOp> = Vec::new();
    let mut i: usize = 0;
    while i < files.len()
        invariant
            0 <= i <= files@.len(),
            ops@.len() <= i,
            forall|k: int| 0 <= k < ops@.len() ==> {
                &&& (#[trigger] ops@[k]).status == CopyStatus::Pending
                &&& exists|j: int|
                    0 <= j < files@.len() && #[trigger] file_candidate(files@[j], dest@)
                        && ops@[k].source_path@ == files@[j].path@ && ops@[k].destination_path@
                        == dest@.push(files@[j].path@.last())
            },
        decreases files@.len() - i,
    {
        let w = &files[i];
        if w.path.parts.len() > 0 {
            let parent = w.path.parent();
            if should_show(w.path.base_name(), &parent, dest) && w.is_file && name_has_dot(
                w.path.base_name().as_str(),
            ) {
                if probe_tags(&w.path) {
                    let op = CopyOp::new(w.path.duplicate(), dest.child(w.path.base_name()));
                    proof {
                        assert(file_candidate(files@[i as int], dest@));
                    }
                    ops.push(op);
                }
            }
        }
        i += 1;
    }
    ops
}

/// No operation is ever planned for an entry whose base name is hidden.
pub proof fn lemma_hidden_entry_never_queued(e: ScanEntry, dest: Seq<Seq<char>>)
    requires
        e.path@.len() > 0,
        seq_is_hidden(e.path@.last()),
    ensures
        !entry_qualifies(e, dest),
{
}

/// No operation is ever planned for an entry that already lies under the
/// destination root, so a second run does not requeue copied files.
pub proof fn lemma_destination_entry_never_queued(e: ScanEntry, dest: Seq<Seq<char>>)
    requires
        e.path@.len() > 0,
        is_under(e.path@.drop_last(), dest),
    ensures
        !entry_qualifies(e, dest),
{
}

/// No operation is ever planned for a file without a `'.'` in its base
/// name, whatever its contents.
pub proof fn lemma_dotless_entry_never_queued(e: ScanEntry, dest: Seq<Seq<char>>)
    requires
        e.path@.len() > 0,
        !seq_has_dot(e.path@.last()),
    ensures
        !entry_qualifies(e, dest),
{
}

/// An entry that does not qualify adds nothing to the plan.
pub proof fn lemma_plan_skips_entry(entries: Seq<ScanEntry>, e: ScanEntry, dest: Seq<Seq<char>>)
    requires
        !entry_qualifies(e, dest),
    ensures
        plan_spec(entries.push(e), dest) == plan_spec(entries, dest),
{
    assert(entries.push(e).drop_last() =~= entries);
    assert(entries.push(e).last() == e);
}

/// A qualifying entry adds exactly one operation to the plan: a `Pending`
/// copy of the entry to `dest / base_name(entry)`.
pub proof fn lemma_plan_adds_exactly_one(entries: Seq<ScanEntry>, e: ScanEntry, dest: Seq<Seq<char>>)
    requires
        entry_qualifies(e, dest),
    ensures
        plan_spec(entries.push(e), dest) == plan_spec(entries, dest).push(
            (e.path@, dest.push(e.path@.last())),
        ),
{
    assert(entries.push(e).drop_last() =~= entries);
    assert(entries.push(e).last() == e);
}

/// Every planned operation comes from some qualifying entry, so nothing is
/// ever queued for hidden files, files under the destination, dotless
/// files, or files the parser rejected.
pub proof fn lemma_planned_ops_have_sources(
    entries: Seq<ScanEntry>,
    dest: Seq<Seq<char>>,
    k: int,
)
    requires
        0 <= k < plan_spec(entries, dest).len(),
    ensures
        exists|i: int|
            0 <= i < entries.len() && #[trigger] entry_qualifies(entries[i], dest)
                && plan_spec(entries, dest)[k] == (
            entries[i].path@,
            planned_destination(entries[i], dest),
        ),
    decreases entries.len(),
{
    let prefix = plan_spec(entries.drop_last(), dest);
    if k < prefix.len() {
        lemma_planned_ops_have_sources(entries.drop_last(), dest, k);
        let i = choose|i: int|
            0 <= i < entries.drop_last().len() && #[trigger] entry_qualifies(
                entries.drop_last()[i],
                dest,
            ) && prefix[k] == (
                entries.drop_last()[i].path@,
                planned_destination(entries.drop_last()[i], dest),
            );
        assert(entries.drop_last()[i] == entries[i]);
        assert(entry_qualifies(entries[i], dest));
        assert(plan_spec(entries, dest)[k] == (
            entries[i].path@,
            planned_destination(entries[i], dest),
        ));
    } else {
        let i = entries.len() - 1;
        assert(entries.last() == entries[i]);
        assert(entry_qualifies(entries[i], dest));
        assert(plan_spec(entries, dest)[k] == (
            entries[i].path@,
            planned_destination(entries[i], dest),
        ));
    }
}

} // verus!
