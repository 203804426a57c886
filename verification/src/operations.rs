//! The filesystem operations a stow run plans, the traversal signal the
//! decision engine hands back to the tree walker, and the library's errors.

use vstd::prelude::*;

verus! {

/// A single planned filesystem mutation. Plans are ordered: insertion order
/// is execution order.
#[derive(Debug)]
pub enum FSOperation {
    /// The target path will become a symbolic link to the source path.
    CreateSymlink { source: String, target: String },
    /// The target is renamed aside non-destructively before being replaced.
    Backup(String),
    /// The target is removed (recursively if a directory) before being replaced.
    Delete(String),
}

/// The mathematical value of a planned operation: the same shape over
/// character sequences instead of heap-allocated strings.
pub enum OpView {
    CreateSymlink { source: Seq<char>, target: Seq<char> },
    Backup { target: Seq<char> },
    Delete { target: Seq<char> },
}

impl View for FSOperation {
    type V = OpView;

    open spec fn view(&self) -> OpView {
        match self {
            FSOperation::CreateSymlink { source, target } => OpView::CreateSymlink {
                source: source@,
                target: target@,
            },
            FSOperation::Backup(target) => OpView::Backup { target: target@ },
            FSOperation::Delete(target) => OpView::Delete { target: target@ },
        }
    }
}

impl PartialEq for FSOperation {
    fn eq(&self, other: &FSOperation) -> (r: bool) {
        match (self, other) {
            (
                FSOperation::CreateSymlink { source: s1, target: t1 },
                FSOperation::CreateSymlink { source: s2, target: t2 },
            ) => s1.eq(s2) && t1.eq(t2),
            (FSOperation::Backup(t1), FSOperation::Backup(t2)) => t1.eq(t2),
            (FSOperation::Delete(t1), FSOperation::Delete(t2)) => t1.eq(t2),
            _ => false,
        }
    }
}

impl vstd::std_specs::cmp::PartialEqSpecImpl for FSOperation {
    open spec fn obeys_eq_spec() -> bool {
        true
    }

    open spec fn eq_spec(&self, other: &FSOperation) -> bool {
        self@ == other@
    }
}

/// Per-entry instruction to the tree walker: descend into the entry's
/// children, or skip them entirely.
#[derive(Debug, Clone, Copy, PartialEq, Eq, Structural)]
pub enum TraversOperation {
    Continue,
    StopPathRun,
}

/// The errors a stow run can surface. The decision engine itself only ever
/// returns `Conflict`; the other kinds are raised by the caller executing the
/// plan against the real filesystem.
#[derive(Debug)]
pub enum StowError {
    /// A real file blocks a link and policy forbids overriding it; carries
    /// the offending target path.
    Conflict(String),
    /// An OS-level failure, surfaced verbatim.
    IOError(String),
    /// Symlink creation attempted on a platform without symlink support.
    Unsupported,
}

} // verus!
