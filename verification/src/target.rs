//! Selection of the processes an I/O priority operation applies to, and its
//! resolution into the (which, who) pair the kernel entry points take.

use vstd::prelude::*;

verus! {

/// A target, consisting of one or more processes matching the given query.
///
/// No validation happens locally: identifiers are passed through verbatim
/// and the kernel is the sole arbiter of their validity.
#[derive(Clone, Copy, Debug, PartialEq, Eq, Structural, Hash)]
pub enum Target {
    /// A single process, by pid. A pid of zero refers to the calling
    /// process, per kernel convention.
    Process(i32),
    /// A process group, by pgid. As with single processes, zero refers to
    /// the process group the calling process belongs to.
    ProcessGroup(i32),
    /// All processes owned by a user, by numeric user id.
    User(u32),
}

impl Target {
    /// The kernel selector: 1 for a single process, 2 for a process group,
    /// 3 for a user.
    pub open spec fn spec_which(self) -> i32 {
        match self {
            Target::Process(_) => 1,
            Target::ProcessGroup(_) => 2,
            Target::User(_) => 3,
        }
    }

    /// The identifier handed to the kernel beside the selector. A user id
    /// keeps its 32-bit pattern, reinterpreted as the signed argument the
    /// entry points take.
    pub open spec fn spec_who(self) -> i32 {
        match self {
            Target::Process(pid) => pid,
            Target::ProcessGroup(pgid) => pgid,
            Target::User(uid) => uid as i32,
        }
    }
}

/// Resolve a target to the (which, who) argument pair of the kernel's
/// priority-read and priority-write entry points.
pub fn target_which_who(target: Target) -> (r: (i32, i32))
    ensures
        r.0 == target.spec_which(),
        r.1 == target.spec_who(),
{
    match target {
        Target::Process(pid) => (1, pid),
        Target::ProcessGroup(pgid) => (2, pgid),
        Target::User(uid) => (3, #[verifier::truncate] (uid as i32)),
    }
}

} // verus!
