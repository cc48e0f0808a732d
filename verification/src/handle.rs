//! The lifecycle protocol of a generated handle. A built handle owns its
//! stages and container exclusively; its owner may start and stop it, and
//! teardown is a single-shot scoped release: it invokes the stop
//! transition exactly once, whether or not the owner already stopped the
//! handle, and a torn-down handle admits no further transition, so no
//! single teardown can stop twice.

use vstd::prelude::*;

verus! {

/// The observable lifecycle state of one generated handle: how many
/// start and stop transitions were invoked on its container, and whether
/// the handle was torn down.
#[derive(Clone, Copy, Debug, PartialEq, Eq, Structural)]
pub struct HandleLifecycle {
    pub start_invocations: u64,
    pub stop_invocations: u64,
    pub torn_down: bool,
}

impl HandleLifecycle {
    /// A successfully built handle: no transition invoked yet, not torn
    /// down.
    pub fn build() -> (h: HandleLifecycle)
        ensures
            h.start_invocations == 0,
            h.stop_invocations == 0,
            !h.torn_down,
    {
        HandleLifecycle { start_invocations: 0, stop_invocations: 0, torn_down: false }
    }

    /// An explicit start call: transitions the container toward the
    /// active state, once.
    pub fn invoke_start(&mut self)
        requires
            !old(self).torn_down,
            old(self).start_invocations < u64::MAX,
        ensures
            final(self).start_invocations == old(self).start_invocations + 1,
            final(self).stop_invocations == old(self).stop_invocations,
            !final(self).torn_down,
    {
        self.start_invocations = self.start_invocations + 1;
    }

    /// An explicit stop call: transitions the container toward the idle
    /// state, once.
    pub fn invoke_stop(&mut self)
        requires
            !old(self).torn_down,
            old(self).stop_invocations < u64::MAX,
        ensures
            final(self).stop_invocations == old(self).stop_invocations + 1,
            final(self).start_invocations == old(self).start_invocations,
            !final(self).torn_down,
    {
        self.stop_invocations = self.stop_invocations + 1;
    }

    /// Teardown: invokes stop exactly once — no more, no less — whatever
    /// the owner did before, and consumes the handle, so no transition
    /// (and no second teardown) can follow.
    pub fn teardown(&mut self)
        requires
            !old(self).torn_down,
            old(self).stop_invocations < u64::MAX,
        ensures
            final(self).stop_invocations == old(self).stop_invocations + 1,
            final(self).start_invocations == old(self).start_invocations,
            final(self).torn_down,
    {
        self.stop_invocations = self.stop_invocations + 1;
        self.torn_down = true;
    }
}

/// For every successfully built handle, a teardown invokes stop exactly
/// once even when the owner never called it explicitly; and because a
/// torn-down handle admits no further transition, no single teardown can
/// invoke stop twice.
pub proof fn lemma_teardown_stops_exactly_once(before: HandleLifecycle, after: HandleLifecycle)
    requires
        !before.torn_down,
        before.stop_invocations < u64::MAX,
        // what `teardown` ensures of the transition it made:
        after.stop_invocations == before.stop_invocations + 1,
        after.torn_down,
    ensures
        before.stop_invocations == 0 ==> after.stop_invocations == 1,
        after.stop_invocations - before.stop_invocations == 1,
{
}

} // verus!
