//! The decision engine: a pure function from the classification of one
//! target path and the policy flags to the ordered operations that path
//! needs and a signal telling the tree walker whether to descend.

use vstd::prelude::*;

use crate::operations::{FSOperation, OpView, StowError, TraversOperation};

verus! {

/// What a read-only inspection of one target path (and of the mirrored
/// source entry) found. `symlink_points_to_source` is meaningful only when
/// `target_is_symlink` holds; `wf` pins it to false otherwise.
#[derive(Debug, Clone, Copy, PartialEq, Eq, Structural)]
pub struct Classification {
    pub target_exists: bool,
    pub target_is_symlink: bool,
    /// Classified from the source side: whether the source entry mirrored at
    /// this target path is a directory.
    pub source_is_directory: bool,
    /// True only if the target is a symlink whose stored link value equals
    /// the source path exactly.
    pub symlink_points_to_source: bool,
}

impl Classification {
    pub open spec fn wf(self) -> bool {
        self.symlink_points_to_source ==> self.target_is_symlink
    }
}

/// The policy flags, fixed for a whole traversal.
#[derive(Debug, Clone, Copy, PartialEq, Eq, Structural)]
pub struct Policy {
    pub force: bool,
    pub backup: bool,
}

/// Assembles a classification from the raw inspection results, enforcing
/// that a link value match counts only when the target really is a symlink.
pub fn classify(
    target_exists: bool,
    target_is_symlink: bool,
    source_is_directory: bool,
    link_matches_source: bool,
) -> (c: Classification)
    ensures
        c.target_exists == target_exists,
        c.target_is_symlink == target_is_symlink,
        c.source_is_directory == source_is_directory,
        c.symlink_points_to_source == (target_is_symlink && link_matches_source),
        c.wf(),
{
    Classification {
        target_exists,
        target_is_symlink,
        source_is_directory,
        symlink_points_to_source: target_is_symlink && link_matches_source,
    }
}

/// Whether the engine refuses this entry: a real file blocks the link and
/// the force flag is not set.
pub open spec fn stow_conflict(c: Classification, p: Policy) -> bool {
    c.target_exists && !c.target_is_symlink && !c.source_is_directory && !p.force
}

/// The ordered operations the engine plans for one entry: the closed
/// decision table over (exists, is_symlink, source_is_dir, force).
pub open spec fn stow_plan(
    c: Classification,
    p: Policy,
    source: Seq<char>,
    target: Seq<char>,
) -> Seq<OpView> {
    if c.target_exists {
        if c.target_is_symlink {
            if c.symlink_points_to_source {
                // Already correctly linked: idempotent no-op.
                Seq::<OpView>::empty()
            } else {
                // A stale or foreign link is overridden regardless of force.
                seq![OpView::CreateSymlink { source, target }]
            }
        } else if c.source_is_directory {
            // An existing real directory is merged into by descending.
            Seq::<OpView>::empty()
        } else if p.force {
            if p.backup {
                seq![OpView::Backup { target }, OpView::CreateSymlink { source, target }]
            } else {
                seq![OpView::Delete { target }, OpView::CreateSymlink { source, target }]
            }
        } else {
            // Conflict: the engine fails and the plan stays unchanged.
            Seq::<OpView>::empty()
        }
    } else {
        seq![OpView::CreateSymlink { source, target }]
    }
}

/// The traversal signal the engine hands back for one entry (meaningful only
/// when the entry is not a conflict).
pub open spec fn stow_signal(c: Classification) -> TraversOperation {
    if c.target_exists {
        if c.target_is_symlink {
            if c.symlink_points_to_source {
                TraversOperation::StopPathRun
            } else if c.source_is_directory {
                TraversOperation::StopPathRun
            } else {
                TraversOperation::Continue
            }
        } else {
            TraversOperation::Continue
        }
    } else {
        if c.source_is_directory {
            TraversOperation::StopPathRun
        } else {
            TraversOperation::Continue
        }
    }
}

/// The new operation sequence extends the old one by exactly the given plan.
pub open spec fn appends_ops(
    old_ops: Seq<FSOperation>,
    new_ops: Seq<FSOperation>,
    plan: Seq<OpView>,
) -> bool {
    &&& new_ops.len() == old_ops.len() + plan.len()
    &&& forall|i: int| 0 <= i < old_ops.len() ==> new_ops[i] == old_ops[i]
    &&& forall|j: int| 0 <= j < plan.len() ==> new_ops[old_ops.len() + j]@ == #[trigger] plan[j]
}

/// Decides what one target path needs. Appends the planned operations for
/// this entry to `operations` and returns the traversal signal, or fails
/// with `Conflict` (carrying the target path) and leaves the plan unchanged.
/// Pure: no filesystem access; identical inputs give identical outputs.
pub fn stow_path(
    source_path: &str,
    target_path: &str,
    classification: &Classification,
    policy: &Policy,
    operations: &mut Vec<FSOperation>,
) -> (r: Result<TraversOperation, StowError>)
    requires
        classification.wf(),
    ensures
        r is Err <==> stow_conflict(*classification, *policy),
        r matches Ok(signal) ==> signal == stow_signal(*classification) && appends_ops(
            old(operations)@,
            final(operations)@,
            stow_plan(*classification, *policy, source_path@, target_path@),
        ),
        r matches Err(e) ==> final(operations)@ == old(operations)@ && (e matches StowError::Conflict(t)
            && t@ == target_path@),
{
    let symlink_operation = FSOperation::CreateSymlink {
        source: String::from_str(source_path),
        target: String::from_str(target_path),
    };

    match (classification.target_exists, classification.target_is_symlink,
        classification.source_is_directory, policy.force) {
        (true, true, _, _) => {
            if classification.symlink_points_to_source {
                // The target is already the wanted link: nothing to do.
                Ok(TraversOperation::StopPathRun)
            } else {
                operations.push(symlink_operation);
                if classification.source_is_directory {
                    Ok(TraversOperation::StopPathRun)
                } else {
                    Ok(TraversOperation::Continue)
                }
            }
        },
        (true, false, false, true) => {
            // A real file is in the way and force is set: put it aside or
            // remove it, then link.
            if policy.backup {
                operations.push(FSOperation::Backup(String::from_str(target_path)));
            } else {
                operations.push(FSOperation::Delete(String::from_str(target_path)));
            }
            operations.push(symlink_operation);
            Ok(TraversOperation::Continue)
        },
        (true, false, false, false) => {
            // A real file is in the way and force is not set.
            Err(StowError::Conflict(String::from_str(target_path)))
        },
        (true, false, true, _) => {
            // An existing real directory: merge by descending into it.
            Ok(TraversOperation::Continue)
        },
        (false, _, _, _) => {
            operations.push(symlink_operation);
            if classification.source_is_directory {
                Ok(TraversOperation::StopPathRun)
            } else {
                Ok(TraversOperation::Continue)
            }
        },
    }
}

/// The tree walker's descend rule: after an entry is handled, the walk goes
/// into its children exactly when the engine signalled `Continue` and the
/// source entry is a directory.
pub fn should_descend(signal: TraversOperation, source_is_directory: bool) -> (r: bool)
    ensures
        r == (signal is Continue && source_is_directory),
{
    match signal {
        TraversOperation::Continue => source_is_directory,
        TraversOperation::StopPathRun => false,
    }
}

/// Law: for a target path where nothing exists yet, the engine never
/// conflicts, plans exactly one symlink creation, and signals `StopPathRun`
/// exactly when the source entry is a directory.
pub proof fn lemma_new_target_single_symlink(
    c: Classification,
    p: Policy,
    source: Seq<char>,
    target: Seq<char>,
)
    requires
        c.wf(),
        !c.target_exists,
    ensures
        !stow_conflict(c, p),
        stow_plan(c, p, source, target) == seq![OpView::CreateSymlink { source, target }],
        stow_signal(c) == (if c.source_is_directory {
            TraversOperation::StopPathRun
        } else {
            TraversOperation::Continue
        }),
{
}

/// Law: a target that is already a valid symlink to the source needs no
/// operation and stops the walk at this path — stowing twice plans no
/// further mutation the second time.
pub proof fn lemma_valid_symlink_noop(
    c: Classification,
    p: Policy,
    source: Seq<char>,
    target: Seq<char>,
)
    requires
        c.wf(),
        c.target_exists,
        c.target_is_symlink,
        c.symlink_points_to_source,
    ensures
        !stow_conflict(c, p),
        stow_plan(c, p, source, target) == Seq::<OpView>::empty(),
        stow_signal(c) == TraversOperation::StopPathRun,
{
}

/// Law: a symlink to anything other than the exact source path is overridden
/// with exactly one symlink creation, whatever the force flag says.
pub proof fn lemma_stale_symlink_overridden(
    c: Classification,
    p: Policy,
    source: Seq<char>,
    target: Seq<char>,
)
    requires
        c.wf(),
        c.target_exists,
        c.target_is_symlink,
        !c.symlink_points_to_source,
    ensures
        !stow_conflict(c, p),
        stow_plan(c, p, source, target) == seq![OpView::CreateSymlink { source, target }],
        stow_signal(c) == (if c.source_is_directory {
            TraversOperation::StopPathRun
        } else {
            TraversOperation::Continue
        }),
{
}

/// Law: an existing real file with the force flag unset is a conflict, and
/// the plan for that entry stays empty.
pub proof fn lemma_existing_file_conflicts(
    c: Classification,
    p: Policy,
    source: Seq<char>,
    target: Seq<char>,
)
    requires
        c.wf(),
        c.target_exists,
        !c.target_is_symlink,
        !c.source_is_directory,
        !p.force,
    ensures
        stow_conflict(c, p),
        stow_plan(c, p, source, target) == Seq::<OpView>::empty(),
{
}

/// Law: an existing real file with force and backup set is put aside first:
/// the plan is the backup followed by the symlink creation, in that order.
pub proof fn lemma_existing_file_backed_up(
    c: Classification,
    p: Policy,
    source: Seq<char>,
    target: Seq<char>,
)
    requires
        c.wf(),
        c.target_exists,
        !c.target_is_symlink,
        !c.source_is_directory,
        p.force,
        p.backup,
    ensures
        !stow_conflict(c, p),
        stow_plan(c, p, source, target) == seq![
            OpView::Backup { target },
            OpView::CreateSymlink { source, target },
        ],
        stow_signal(c) == TraversOperation::Continue,
{
}

/// Law: an existing real file with force set and backup unset is removed
/// first: the plan is the delete followed by the symlink creation, in that
/// order.
pub proof fn lemma_existing_file_deleted(
    c: Classification,
    p: Policy,
    source: Seq<char>,
    target: Seq<char>,
)
    requires
        c.wf(),
        c.target_exists,
        !c.target_is_symlink,
        !c.source_is_directory,
        p.force,
        !p.backup,
    ensures
        !stow_conflict(c, p),
        stow_plan(c, p, source, target) == seq![
            OpView::Delete { target },
            OpView::CreateSymlink { source, target },
        ],
        stow_signal(c) == TraversOperation::Continue,
{
}

/// Law: an existing real directory (not a symlink) where the source entry is
/// also a directory is merged into: no operation is planned and the walk
/// descends to apply the same rules entry by entry inside.
pub proof fn lemma_existing_directory_merges(
    c: Classification,
    p: Policy,
    source: Seq<char>,
    target: Seq<char>,
)
    requires
        c.wf(),
        c.target_exists,
        !c.target_is_symlink,
        c.source_is_directory,
    ensures
        !stow_conflict(c, p),
        stow_plan(c, p, source, target) == Seq::<OpView>::empty(),
        stow_signal(c) == TraversOperation::Continue,
{
}

} // verus!
