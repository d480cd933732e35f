use vstd::prelude::*;
use crate::supervisor::SupervisorPhase;

verus! {

/// Whether the workspace directory still stands on disk, as far as this
/// session has driven it.
#[derive(Clone, Copy, Debug)]
pub enum WorkspaceState {
    Present,
    Removed,
}

/// What workspace maintenance can fail with: tearing down a workspace that
/// this session has already removed.
#[derive(Debug, Clone, Copy, PartialEq, Eq, Structural)]
pub enum IoError {
    AlreadyRemoved,
}

/// What one teardown does to the workspace: the new state, and whether the
/// call succeeded.  The first teardown of a present workspace removes it; a
/// teardown of an already-removed one fails, and leaves it removed — the
/// earlier success stays authoritative.
pub open spec fn teardown_result(state: WorkspaceState) -> (WorkspaceState, bool) {
    match state {
        WorkspaceState::Present => (WorkspaceState::Removed, true),
        WorkspaceState::Removed => (WorkspaceState::Removed, false),
    }
}

/// The directory owned by one supervised session.  The session creates it
/// before the artifact is fetched and removes it once — after the child has
/// fully exited, never while a child process is live.  The filesystem calls
/// themselves stand outside this type; it tracks what they are allowed to do
/// and in which order.
pub struct Workspace {
    path: String,
    state: WorkspaceState,
}

impl View for Workspace {
    type V = WorkspaceState;

    closed spec fn view(&self) -> WorkspaceState {
        self.state
    }
}

impl Workspace {
    /// The directory's path, as chars.
    pub closed spec fn path(&self) -> Seq<char> {
        self.path@
    }

    /// A workspace whose directory has just been made (or already stood, as
    /// making it is idempotent) at `path`.
    pub fn create(path: &str) -> (w: Self)
        ensures
            w@ is Present,
            w.path() == path@,
    {
        Workspace { path: path.to_owned(), state: WorkspaceState::Present }
    }

    /// Records the removal of the directory tree.  Only the first teardown
    /// succeeds; a repeated one reports a failure, and the workspace stays
    /// removed — the state is never corrupted by calling this again.
    ///
    /// `child_phase` is where the session's child process stands: the phase
    /// of its supervisor, or nothing when no child was ever spawned (setup
    /// failed early, and the directory is still cleaned up).  A workspace is
    /// never torn down while a child process is live in it, so a spawned
    /// child must have exited first.
    pub fn teardown(&mut self, child_phase: Option<SupervisorPhase>) -> (r: Result<(), IoError>)
        requires
            child_phase matches Some(p) ==> p is Exited,
        ensures
            final(self)@ == teardown_result(old(self)@).0,
            final(self).path() == old(self).path(),
            (r is Ok) == teardown_result(old(self)@).1,
            old(self)@ is Removed ==> (r matches Err(e) && e == IoError::AlreadyRemoved),
    {
        match self.state {
            WorkspaceState::Present => {
                self.state = WorkspaceState::Removed;
                Ok(())
            },
            WorkspaceState::Removed => Err(IoError::AlreadyRemoved),
        }
    }
}

/// Tearing a workspace down twice in a row never corrupts it: whatever state
/// it starts in, after one teardown it is removed; the teardown after that
/// fails, and the workspace is still removed.  On a present workspace the
/// first call is the one that succeeds.
pub proof fn lemma_teardown_twice_safe(state: WorkspaceState)
    ensures
        teardown_result(state).0 is Removed,
        teardown_result(teardown_result(state).0).0 is Removed,
        !teardown_result(teardown_result(state).0).1,
        state is Present ==> teardown_result(state).1,
{
}

} // verus!
