//! Per-core bookkeeping around a dispatch: whether the core is inside a
//! system call, and whether the running context is to be killed.
use vstd::prelude::*;

verus! {

#[derive(Clone, Copy, Debug, PartialEq, Eq, Structural)]
pub struct PercpuBlock {
    pub inside_syscall: bool,
    /// Set from outside, at any time, when the context is to be killed.
    pub being_killed: bool,
}

/// The block after a dispatch starts.
pub open spec fn enter_spec(p: PercpuBlock) -> PercpuBlock {
    PercpuBlock { inside_syscall: true, ..p }
}

/// The block after a kill request.
pub open spec fn kill_spec(p: PercpuBlock) -> PercpuBlock {
    PercpuBlock { being_killed: true, ..p }
}

/// The block after a dispatch ends, and whether the context must now be
/// torn down: the flag is cleared first, then the kill request is read.
pub open spec fn leave_spec(p: PercpuBlock) -> (PercpuBlock, bool) {
    (PercpuBlock { inside_syscall: false, ..p }, p.being_killed)
}

impl PercpuBlock {
    pub fn new() -> (r: PercpuBlock)
        ensures
            !r.inside_syscall,
            !r.being_killed,
    {
        PercpuBlock { inside_syscall: false, being_killed: false }
    }

    pub fn enter_syscall(&mut self)
        ensures
            *final(self) == enter_spec(*old(self)),
    {
        self.inside_syscall = true;
    }

    /// Records a kill request for the running context.
    pub fn request_kill(&mut self)
        ensures
            *final(self) == kill_spec(*old(self)),
    {
        self.being_killed = true;
    }

    /// Ends a dispatch; true when the context must be torn down.
    pub fn leave_syscall(&mut self) -> (r: bool)
        ensures
            (*final(self), r) == leave_spec(*old(self)),
    {
        self.inside_syscall = false;
        self.being_killed
    }
}

/// A kill requested while a dispatch is in flight takes effect at the
/// check after the dispatch, and only once the core is no longer inside
/// the system call; a request made after the result but before the check
/// takes effect there too.
pub proof fn lemma_kill_waits_for_checkpoint(p: PercpuBlock)
    ensures
        kill_spec(enter_spec(p)).inside_syscall,
        leave_spec(kill_spec(enter_spec(p))).1,
        !leave_spec(kill_spec(enter_spec(p))).0.inside_syscall,
        forall|q: PercpuBlock| #[trigger] leave_spec(q).1 ==> !leave_spec(q).0.inside_syscall,
        forall|q: PercpuBlock| q.being_killed ==> #[trigger] leave_spec(q).1,
{
}

} // verus!
