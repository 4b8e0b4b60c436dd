//! The buffer lease: what WPE is told about a buffer it has handed out.
//!
//! The engine lends a buffer from its own pool and wants it back once the
//! compositor has read it. That is a two-step protocol, present then release,
//! and every lease has to go through both steps exactly once, however it ends.
//! A lease does not talk to the bridge itself: each operation returns the call
//! that the holder of the lease has to make.

use vstd::prelude::*;

verus! {

/// The fence descriptor that tells the bridge there is no fence to wait on.
pub const NO_FENCE: i32 = -1;

/// One call on the bridge about a leased buffer.
#[derive(Debug, Clone, Copy, PartialEq, Eq)]
pub enum BridgeCall {
    /// The frame has been imported or copied by the backend.
    FramePresented {
        /// The bridge's token for the buffer.
        token: usize,
    },
    /// The buffer goes back to the engine.
    FrameRelease {
        /// The bridge's token for the buffer.
        token: usize,
        /// A fence to wait on before reuse, [`NO_FENCE`] when there is none.
        fence_fd: i32,
    },
}

/// Exact WPE buffer ownership token.
#[derive(Debug, PartialEq, Eq)]
pub struct WpeFrameLease {
    token: usize,
    presented: bool,
    released: bool,
}

/// What a lease stands for.
pub struct LeaseView {
    /// The bridge's token for the buffer.
    pub token: usize,
    /// Whether the bridge was told that the frame has been read.
    pub presented: bool,
    /// Whether the buffer went back.
    pub released: bool,
}

impl LeaseView {
    /// Only a buffer whose frame was presented can have gone back.
    pub open spec fn wf(self) -> bool {
        self.released ==> self.presented
    }
}

impl View for WpeFrameLease {
    type V = LeaseView;

    closed spec fn view(&self) -> LeaseView {
        LeaseView { token: self.token, presented: self.presented, released: self.released }
    }
}

/// The lease on a buffer that nothing has been said about yet.
pub open spec fn fresh_lease(token: usize) -> LeaseView {
    LeaseView { token, presented: false, released: false }
}

/// The descriptor the bridge is handed for an optional fence.
pub open spec fn fence_descriptor(fence: Option<i32>) -> i32 {
    match fence {
        Some(fd) => fd,
        None => NO_FENCE,
    }
}

/// The calls that are still owed to the bridge when a lease is dropped.
pub open spec fn owed_calls(lease: LeaseView) -> Seq<BridgeCall> {
    let release = BridgeCall::FrameRelease { token: lease.token, fence_fd: NO_FENCE };
    if lease.released {
        seq![]
    } else if lease.presented {
        seq![release]
    } else {
        seq![BridgeCall::FramePresented { token: lease.token }, release]
    }
}

impl WpeFrameLease {
    /// Every lease is somewhere in the protocol.
    #[verifier::type_invariant]
    spec fn in_protocol(self) -> bool {
        self@.wf()
    }

    /// Takes over the buffer behind `token`.
    pub fn new(token: usize) -> (lease: Self)
        ensures
            lease@ == fresh_lease(token),
    {
        WpeFrameLease { token, presented: false, released: false }
    }

    /// The bridge's token for the buffer.
    #[must_use]
    pub fn token(&self) -> (token: usize)
        ensures
            token == self@.token,
    {
        self.token
    }

    /// Whether the frame was already presented.
    #[must_use]
    pub fn is_presented(&self) -> (presented: bool)
        ensures
            presented == self@.presented,
    {
        self.presented
    }

    /// Whether the buffer went back already.
    #[must_use]
    pub fn is_released(&self) -> (released: bool)
        ensures
            released == self@.released,
            self@.wf(),
    {
        proof {
            use_type_invariant(self);
        }
        self.released
    }

    /// Tells WPE the frame has been imported or copied by the backend.
    ///
    /// A frame is presented once.
    pub fn presented(&mut self) -> (call: BridgeCall)
        requires
            step_allowed(old(self)@, LeaseStep::Present),
        ensures
            call == step_call(old(self)@, LeaseStep::Present),
            final(self)@ == after_step(old(self)@, LeaseStep::Present),
        no_unwind
    {
        self.presented = true;
        BridgeCall::FramePresented { token: self.token }
    }

    /// Returns the buffer to WPE after backend GPU work has completed.
    ///
    /// A frame is presented before it is released, and released once.
    pub fn release(&mut self, release_fence: Option<i32>) -> (call: BridgeCall)
        requires
            step_allowed(old(self)@, LeaseStep::Release(release_fence)),
        ensures
            call == step_call(old(self)@, LeaseStep::Release(release_fence)),
            final(self)@ == after_step(old(self)@, LeaseStep::Release(release_fence)),
    {
        let fence_fd: i32 = match release_fence {
            Some(fd) => fd,
            None => NO_FENCE,
        };
        self.released = true;
        BridgeCall::FrameRelease { token: self.token, fence_fd }
    }

    /// The calls to make when the lease is dropped: whatever the protocol still
    /// owes, and nothing for a buffer that went back already.
    #[must_use]
    pub fn drop_calls(&self) -> (calls: Vec<BridgeCall>)
        ensures
            calls@ == owed_calls(self@),
    {
        let mut calls: Vec<BridgeCall> = Vec::new();
        if self.released {
            return calls;
        }
        if !self.presented {
            calls.push(BridgeCall::FramePresented { token: self.token });
        }
        calls.push(BridgeCall::FrameRelease { token: self.token, fence_fd: NO_FENCE });
        calls
    }
}

/// One operation on a lease.
pub enum LeaseStep {
    /// [`WpeFrameLease::presented`].
    Present,
    /// [`WpeFrameLease::release`] with this fence.
    Release(Option<i32>),
}

/// Whether the protocol allows `step` in this state of the lease.
pub open spec fn step_allowed(lease: LeaseView, step: LeaseStep) -> bool {
    match step {
        LeaseStep::Present => !lease.presented,
        LeaseStep::Release(_) => lease.presented && !lease.released,
    }
}

/// The lease after `step`.
pub open spec fn after_step(lease: LeaseView, step: LeaseStep) -> LeaseView {
    match step {
        LeaseStep::Present => LeaseView { presented: true, ..lease },
        LeaseStep::Release(_) => LeaseView { released: true, ..lease },
    }
}

/// The call that `step` makes.
pub open spec fn step_call(lease: LeaseView, step: LeaseStep) -> BridgeCall {
    match step {
        LeaseStep::Present => BridgeCall::FramePresented { token: lease.token },
        LeaseStep::Release(fence) => BridgeCall::FrameRelease {
            token: lease.token,
            fence_fd: fence_descriptor(fence),
        },
    }
}

/// Whether the protocol allows all of `steps`, one after the other.
pub open spec fn steps_allowed(lease: LeaseView, steps: Seq<LeaseStep>) -> bool
    decreases steps.len(),
{
    steps.len() == 0 || (step_allowed(lease, steps[0]) && steps_allowed(
        after_step(lease, steps[0]),
        steps.drop_first(),
    ))
}

/// Everything the bridge is told about a lease that goes through `steps` and is
/// dropped then.
pub open spec fn lifetime_calls(lease: LeaseView, steps: Seq<LeaseStep>) -> Seq<BridgeCall>
    decreases steps.len(),
{
    if steps.len() == 0 {
        owed_calls(lease)
    } else {
        seq![step_call(lease, steps[0])] + lifetime_calls(
            after_step(lease, steps[0]),
            steps.drop_first(),
        )
    }
}

/// The fence that goes back with the buffer: that of the release among `steps`,
/// none where the lease is dropped unreleased.
pub open spec fn final_fence(steps: Seq<LeaseStep>) -> Option<i32> {
    if steps.len() == 2 {
        match steps[1] {
            LeaseStep::Release(fence) => fence,
            LeaseStep::Present => None,
        }
    } else {
        None
    }
}

/// However a lease is used, and whenever it is dropped, the bridge is told
/// exactly two things about the buffer: that the frame was presented, and then
/// that the buffer goes back.
pub proof fn every_lease_presents_once_and_then_releases_once(token: usize, steps: Seq<LeaseStep>)
    requires
        steps_allowed(fresh_lease(token), steps),
    ensures
        lifetime_calls(fresh_lease(token), steps) == seq![
            BridgeCall::FramePresented { token },
            BridgeCall::FrameRelease { token, fence_fd: fence_descriptor(final_fence(steps)) },
        ],
{
    reveal_with_fuel(steps_allowed, 4);
    reveal_with_fuel(lifetime_calls, 4);
    let rest = steps.drop_first();
    let last = rest.drop_first();
    assert(steps.len() <= 2) by {
        if steps.len() > 2 {
            assert(rest[0] == steps[1]);
            assert(last[0] == steps[2]);
        }
    }
    if steps.len() == 2 {
        assert(rest[0] == steps[1]);
    }
}

} // verus!
