//! The renderer's command state machine.
//!
//! The renderer thread receives commands in order and asks [`Engine::ingest`]
//! what to do with each one; the returned [`Action`] is then carried out on
//! the GPU by the caller.

use vstd::prelude::*;

verus! {

/// Extent used for a presentation dimension that is configured as zero.
pub const FALLBACK_EXTENT: u32 = 256;

/// A command sent to the renderer of one overlay session.
pub enum Event<S> {
    /// The display server (re)configured the surface.
    Configure,
    /// Present the offscreen texture.
    Paint,
    /// Render a scene into the offscreen texture.
    Render(S),
    /// Stop the renderer and release its resources.
    Terminate,
}

/// Where the renderer stands.
#[derive(Clone, Copy, Debug, PartialEq, Eq, Structural)]
pub enum Phase {
    /// No `Configure` received yet: painting is skipped.
    Uninitialized,
    /// The presentation surface is bound: painting presents.
    Configured,
    /// `Terminate` was received: no further command is accepted.
    Terminated,
}

/// What the renderer must do for one command.
pub enum Action<S> {
    /// Nothing.
    Skip,
    /// Bind the presentation surface at this extent, then present the
    /// offscreen texture as it is.
    ConfigureAndPresent { width: u32, height: u32 },
    /// Render the scene into the offscreen texture, without presenting.
    Render(S),
    /// Present the offscreen texture.
    Present,
    /// Release the GPU resources and stop consuming commands.
    Shutdown,
}

/// The renderer's state: the panel size it was created with and its phase.
pub struct Engine {
    size: (u32, u32),
    phase: Phase,
}

/// The presentation extent for one configured dimension.
pub open spec fn extent_of(n: u32) -> u32 {
    if n == 0 {
        FALLBACK_EXTENT
    } else {
        n
    }
}

/// The phase after `event` in phase `p`.
pub open spec fn next_phase<S>(p: Phase, event: Event<S>) -> Phase {
    if p == Phase::Terminated {
        p
    } else {
        match event {
            Event::Configure => Phase::Configured,
            Event::Terminate => Phase::Terminated,
            _ => p,
        }
    }
}

/// The action for `event` in phase `p`, for a panel of `size`.
pub open spec fn action_for<S>(size: (u32, u32), p: Phase, event: Event<S>) -> Action<S> {
    if p == Phase::Terminated {
        Action::Skip
    } else {
        match event {
            Event::Configure => Action::ConfigureAndPresent {
                width: extent_of(size.0),
                height: extent_of(size.1),
            },
            Event::Paint => if p == Phase::Configured {
                Action::Present
            } else {
                Action::Skip
            },
            Event::Render(s) => Action::Render(s),
            Event::Terminate => Action::Shutdown,
        }
    }
}

impl Engine {
    /// The panel size the renderer was created with.
    pub closed spec fn size(&self) -> (u32, u32) {
        self.size
    }

    /// The renderer's phase.
    pub closed spec fn phase(&self) -> Phase {
        self.phase
    }

    /// A renderer for a panel of `size`, not configured yet.
    pub fn new(size: (u32, u32)) -> (r: Engine)
        ensures
            r.size() == size,
            r.phase() == Phase::Uninitialized,
    {
        Engine { size, phase: Phase::Uninitialized }
    }

    /// Whether `Paint` presents, that is whether a `Configure` has been
    /// received and no `Terminate`.
    pub fn is_ready(&self) -> (r: bool)
        ensures
            r == (self.phase() == Phase::Configured),
    {
        self.phase == Phase::Configured
    }

    /// Whether the renderer has stopped.
    pub fn is_terminated(&self) -> (r: bool)
        ensures
            r == (self.phase() == Phase::Terminated),
    {
        self.phase == Phase::Terminated
    }

    /// Decides what to do with the next command and moves to the next phase.
    /// The panel size never changes.
    pub fn ingest<S>(&mut self, event: Event<S>) -> (r: Action<S>)
        ensures
            final(self).size() == old(self).size(),
            final(self).phase() == next_phase(old(self).phase(), event),
            r == action_for(old(self).size(), old(self).phase(), event),
    {
        if self.phase == Phase::Terminated {
            return Action::Skip;
        }
        match event {
            Event::Configure => {
                let width = if self.size.0 == 0 { FALLBACK_EXTENT } else { self.size.0 };
                let height = if self.size.1 == 0 { FALLBACK_EXTENT } else { self.size.1 };
                self.phase = Phase::Configured;
                Action::ConfigureAndPresent { width, height }
            },
            Event::Paint => {
                if self.phase == Phase::Configured {
                    Action::Present
                } else {
                    Action::Skip
                }
            },
            Event::Render(scene) => Action::Render(scene),
            Event::Terminate => {
                self.phase = Phase::Terminated;
                Action::Shutdown
            },
        }
    }

    /// Ends the renderer after a failure it cannot recover from (a failed
    /// submission, a closed command channel).
    pub fn abort(&mut self)
        ensures
            final(self).size() == old(self).size(),
            final(self).phase() == Phase::Terminated,
    {
        self.phase = Phase::Terminated;
    }
}

/// Receiving `Configure` twice in a row leaves the renderer in the same phase
/// as receiving it once, and the second one asks for the same work as the
/// first.
pub proof fn lemma_configure_idempotent<S>(e: Engine)
    ensures
        next_phase(next_phase(e.phase(), Event::<S>::Configure), Event::<S>::Configure)
            == next_phase(e.phase(), Event::<S>::Configure),
        action_for(e.size(), next_phase(e.phase(), Event::<S>::Configure), Event::<S>::Configure)
            == action_for(e.size(), e.phase(), Event::<S>::Configure),
{
}

/// `Paint` before any `Configure` asks for nothing and leaves the phase as it
/// is.
pub proof fn lemma_paint_before_configure<S>(e: Engine)
    requires
        e.phase() == Phase::Uninitialized,
    ensures
        next_phase(e.phase(), Event::<S>::Paint) == Phase::Uninitialized,
        action_for(e.size(), e.phase(), Event::<S>::Paint) == Action::<S>::Skip,
{
}

} // verus!
