//! The orchestrator: it owns at most one live overlay session and decides,
//! for each event, whether to create one, what to send into it, when the
//! overlay hides, and when the session ends.

use vstd::prelude::*;
use crate::engine::Event as Command;
use crate::timer::{deadline, deadline_after};

verus! {

/// What reaches the orchestrator's loop.
pub enum Event<V> {
    /// The system output volume changed to this level.
    VolumeChanged(V),
    /// The quiet period ran out.
    Hide,
}

/// The orchestrator's state: the handle `W` of the live overlay session, if
/// there is one.
pub struct App<W> {
    wire: Option<W>,
}

impl<W> App<W> {
    /// The live session's handle, if there is one.
    pub closed spec fn view(&self) -> Option<W> {
        self.wire
    }

    /// An orchestrator with no session: the overlay is only set up at the
    /// first volume change.
    pub fn new() -> (r: App<W>)
        ensures
            r@ == None::<W>,
    {
        App { wire: None }
    }

    /// Whether a volume change has to set up a session first.
    pub fn needs_session(&self) -> (r: bool)
        ensures
            r == self@.is_none(),
    {
        self.wire.is_none()
    }

    /// The live session, to send the scene and the paint request into.
    pub fn session(&self) -> (r: Option<&W>)
        ensures
            r == match self@ {
                Some(w) => Some(&w),
                None => None::<&W>,
            },
    {
        match &self.wire {
            Some(w) => Some(w),
            None => None,
        }
    }

    /// Handles a volume change at `now` (milliseconds on a monotonic clock).
    /// `provisioned` is the session that was set up for it, when
    /// [`App::needs_session`] asked for one; `None` when setting it up failed
    /// or none was needed. A live session is kept and reused.
    ///
    /// Returns the new hide deadline when the overlay shows the change: the
    /// caller then sends the scene and a paint request into the session and
    /// arms the timer. Returns `None` when there is no session to show it in:
    /// nothing is sent and no session is retained.
    pub fn volume_changed(&mut self, now: u64, provisioned: Option<W>) -> (r: Option<u64>)
        requires
            old(self)@.is_some() ==> provisioned.is_none(),
        ensures
            old(self)@.is_some() ==> final(self)@ == old(self)@,
            old(self)@.is_none() ==> final(self)@ == provisioned,
            r == (if final(self)@.is_some() {
                Some(deadline_after(now))
            } else {
                None::<u64>
            }),
    {
        if self.wire.is_none() {
            self.wire = provisioned;
        }
        if self.wire.is_some() {
            Some(deadline(now))
        } else {
            None
        }
    }

    /// The commands that show `scene`: rendered into the live session's
    /// offscreen texture, then painted. Nothing without a live session.
    pub fn show<S>(&self, scene: S) -> (r: Vec<Command<S>>)
        ensures
            self@.is_some() ==> r@ == seq![Command::Render(scene), Command::<S>::Paint],
            self@.is_none() ==> r@.len() == 0,
    {
        let mut r: Vec<Command<S>> = Vec::new();
        if self.wire.is_some() {
            r.push(Command::Render(scene));
            r.push(Command::Paint);
        }
        r
    }

    /// Reports whether the commands of [`App::show`] reached the live
    /// session. When they did, it stays and the timer is armed with the
    /// deadline of [`App::volume_changed`]; `None` is returned. When they did
    /// not, the session broke: it is handed back with its last command,
    /// `Terminate`, and forgotten, so that the next volume change sets up a
    /// new one.
    pub fn sent<S>(&mut self, delivered: bool) -> (r: Option<(W, Command<S>)>)
        ensures
            delivered ==> r.is_none() && final(self)@ == old(self)@,
            !delivered ==> r == match old(self)@ {
                Some(w) => Some((w, Command::<S>::Terminate)),
                None => None::<(W, Command<S>)>,
            } && final(self)@ == None::<W>,
    {
        if delivered {
            None
        } else {
            self.dismiss()
        }
    }

    /// The quiet period ran out: hands back the live session with its last
    /// command, `Terminate`, and forgets it. The next volume change sets up
    /// a new one.
    pub fn dismiss<S>(&mut self) -> (r: Option<(W, Command<S>)>)
        ensures
            r == match old(self)@ {
                Some(w) => Some((w, Command::<S>::Terminate)),
                None => None::<(W, Command<S>)>,
            },
            final(self)@ == None::<W>,
    {
        match self.wire.take() {
            Some(w) => Some((w, Command::Terminate)),
            None => None,
        }
    }
}

} // verus!
