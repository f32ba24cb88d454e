//! The copy executor.
//!
//! Each planned operation is executed independently of the others: its
//! status moves from `Pending` to `InProgress`, the destination directory
//! is created when the writability rule allows it, and the copy itself is
//! attempted only when the destination file passes the same rule — so an
//! existing destination file is never overwritten. Every operation ends in
//! exactly one of the terminal states, and a failure of one operation never
//! keeps another from being executed.

use vstd::prelude::*;
use crate::io::{copy_bytes, dir_writable, make_dir_tree, path_exists};
use crate::plan::{CopyOp, CopyStatus};

verus! {

/// The writability rule: a new path may be created only when nothing sits
/// at it yet and its parent directory exists and is not read-only.
pub open spec fn write_allowed(exists: bool, parent_writable: bool) -> bool {
    !exists && parent_writable
}

/// The terminal status an operation earns: a destination that may not be
/// written fails it, and otherwise the copy's own outcome decides.
pub open spec fn outcome_status(dest_free: bool, copy_ok: bool) -> CopyStatus {
    if !dest_free {
        CopyStatus::Failed
    } else if copy_ok {
        CopyStatus::Succeeded
    } else {
        CopyStatus::Failed
    }
}

/// Decides whether a new path may be created, from what the filesystem
/// reported about the path and about its parent directory.
pub fn can_write_new(exists: bool, parent_writable: bool) -> (r: bool)
    ensures
        r == write_allowed(exists, parent_writable),
{
    !exists && parent_writable
}

/// Moves an operation from `Pending` to `InProgress`; the paths stay as
/// they are.
pub fn begin(op: &mut CopyOp)
    requires
        old(op).status == CopyStatus::Pending,
    ensures
        final(op).source_path == old(op).source_path,
        final(op).destination_path == old(op).destination_path,
        final(op).status == CopyStatus::InProgress,
{
    op.status = CopyStatus::InProgress;
}

/// Records the terminal status of an operation that is `InProgress`, from
/// the destination's writability and the copy's outcome; the paths stay as
/// they are.
pub fn resolve(op: &mut CopyOp, dest_free: bool, copy_ok: bool)
    requires
        old(op).status == CopyStatus::InProgress,
    ensures
        final(op).source_path == old(op).source_path,
        final(op).destination_path == old(op).destination_path,
        final(op).status == outcome_status(dest_free, copy_ok),
{
    if !dest_free {
        op.status = CopyStatus::Failed;
    } else if copy_ok {
        op.status = CopyStatus::Succeeded;
    } else {
        op.status = CopyStatus::Failed;
    }
}

/// Executes one pending operation: creates the destination directory when
/// the writability rule allows it, refuses to touch an existing destination
/// file, and otherwise copies the source's bytes. The operation ends in a
/// terminal status with its paths unchanged. The returned flag reports
/// whether the destination directory was created during this call.
pub fn execute_op(op: &mut CopyOp) -> (created_dir: bool)
    requires
        old(op).status == CopyStatus::Pending,
        old(op).destination_path@.len() >= 2,
    ensures
        final(op).source_path == old(op).source_path,
        final(op).destination_path == old(op).destination_path,
        final(op).status == CopyStatus::Succeeded || final(op).status == CopyStatus::Failed,
{
    begin(op);
    let dir = op.destination_path.parent();
    let dir_parent = dir.parent();
    let mut created_dir = false;
    if can_write_new(path_exists(&dir), dir_writable(&dir_parent)) {
        created_dir = make_dir_tree(&dir);
    }
    let dest_free = can_write_new(path_exists(&op.destination_path), dir_writable(&dir));
    let copied = if dest_free {
        copy_bytes(&op.source_path, &op.destination_path)
    } else {
        false
    };
    resolve(op, dest_free, copied);
    created_dir
}

/// Executes every pending operation of a plan in order. Each operation
/// keeps its paths and reaches a terminal status; no operation's failure
/// keeps the ones after it from running.
pub fn execute(ops: &mut Vec<CopyOp>)
    requires
        forall|k: int| 0 <= k < old(ops)@.len() ==> {
            &&& (#[trigger] old(ops)@[k]).status == CopyStatus::Pending
            &&& old(ops)@[k].destination_path@.len() >= 2
        },
    ensures
        final(ops)@.len() == old(ops)@.len(),
        forall|k: int| 0 <= k < final(ops)@.len() ==> {
            &&& (#[trigger] final(ops)@[k]).source_path == old(ops)@[k].source_path
            &&& final(ops)@[k].destination_path == old(ops)@[k].destination_path
            &&& (final(ops)@[k].status == CopyStatus::Succeeded || final(ops)@[k].status
                == CopyStatus::Failed)
        },
{
    let n = ops.len();
    let mut i: usize = 0;
    while i < n
        invariant
            n == ops@.len(),
            ops@.len() == old(ops)@.len(),
            0 <= i <= n,
            forall|k: int| 0 <= k < i ==> {
                &&& (#[trigger] ops@[k]).source_path == old(ops)@[k].source_path
                &&& ops@[k].destination_path == old(ops)@[k].destination_path
                &&& (ops@[k].status == CopyStatus::Succeeded || ops@[k].status
                    == CopyStatus::Failed)
            },
            forall|k: int| i <= k < n ==> #[trigger] ops@[k] == old(ops)@[k],
            forall|k: int| 0 <= k < old(ops)@.len() ==> {
                &&& (#[trigger] old(ops)@[k]).status == CopyStatus::Pending
                &&& old(ops)@[k].destination_path@.len() >= 2
            },
        decreases n - i,
    {
        execute_op(&mut ops[i]);
        i += 1;
    }
}

/// A destination that already exists is never written: the writability rule
/// refuses it, and an operation whose destination is refused ends `Failed`,
/// whatever the copy step would have reported.
pub proof fn lemma_existing_destination_fails(parent_writable: bool, copy_ok: bool)
    ensures
        !write_allowed(true, parent_writable),
        outcome_status(write_allowed(true, parent_writable), copy_ok) == CopyStatus::Failed,
{
}

} // verus!
