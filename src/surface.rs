//! The one-shot builder of the anchored overlay surface.
//!
//! It collects the display connection, the shell and compositor handles, the
//! dispatch queue handle, the settings and the GPU instance. Creating the
//! surface needs all of them: [`Builder::parts`] hands them over together, or
//! names the first one missing, so that nothing is built partially.

use vstd::prelude::*;
use crate::settings::Settings;

verus! {

/// An input that creating the surface needs.
#[derive(Clone, Copy, Debug, PartialEq, Eq, Structural)]
pub enum Missing {
    Settings,
    LayerShell,
    QueueHandle,
    Compositor,
    Connection,
    Instance,
}

/// The message for a missing input.
pub open spec fn message_of(m: Missing) -> Seq<char> {
    match m {
        Missing::Settings => "Settings not present"@,
        Missing::LayerShell => "LayerShell is missing"@,
        Missing::QueueHandle => "QueueHandle is missing"@,
        Missing::Compositor => "Compositor is missing"@,
        Missing::Connection => "Wayland connection is missing"@,
        Missing::Instance => "GPU Instance is missing"@,
    }
}

impl Missing {
    /// Describes the missing input.
    pub fn message(&self) -> (r: &'static str)
        ensures
            r@ == message_of(*self),
    {
        match self {
            Missing::Settings => "Settings not present",
            Missing::LayerShell => "LayerShell is missing",
            Missing::QueueHandle => "QueueHandle is missing",
            Missing::Compositor => "Compositor is missing",
            Missing::Connection => "Wayland connection is missing",
            Missing::Instance => "GPU Instance is missing",
        }
    }
}

/// Everything creating the surface needs, all present.
pub struct Parts<C, L, K, Q, G> {
    pub connection: C,
    pub layer_shell: L,
    pub compositor: K,
    pub queue_handle: Q,
    pub settings: Settings,
    pub instance: G,
}

/// Collects the inputs of the surface: a connection `C`, a layer shell `L`,
/// a compositor `K`, a queue handle `Q` and a GPU instance `G`, with the
/// settings.
pub struct Builder<C, L, K, Q, G> {
    pub connection: Option<C>,
    pub layer_shell: Option<L>,
    pub compositor: Option<K>,
    pub queue_handle: Option<Q>,
    pub settings: Option<Settings>,
    pub instance: Option<G>,
}

/// The first missing input of `b`, in the order settings, layer shell, queue
/// handle, compositor, connection, instance.
pub open spec fn first_missing<C, L, K, Q, G>(b: Builder<C, L, K, Q, G>) -> Option<Missing> {
    if b.settings.is_none() {
        Some(Missing::Settings)
    } else if b.layer_shell.is_none() {
        Some(Missing::LayerShell)
    } else if b.queue_handle.is_none() {
        Some(Missing::QueueHandle)
    } else if b.compositor.is_none() {
        Some(Missing::Compositor)
    } else if b.connection.is_none() {
        Some(Missing::Connection)
    } else if b.instance.is_none() {
        Some(Missing::Instance)
    } else {
        None
    }
}

impl<C, L, K, Q, G> Builder<C, L, K, Q, G> {
    /// A builder with no input yet.
    pub fn new() -> (r: Self)
        ensures
            r.connection.is_none() && r.layer_shell.is_none() && r.compositor.is_none()
                && r.queue_handle.is_none() && r.settings.is_none() && r.instance.is_none(),
    {
        Builder {
            connection: None,
            layer_shell: None,
            compositor: None,
            queue_handle: None,
            settings: None,
            instance: None,
        }
    }

    /// Sets the display connection.
    pub fn with_connection(self, conn: C) -> (r: Self)
        ensures
            r == (Builder { connection: Some(conn), ..self }),
    {
        Builder { connection: Some(conn), ..self }
    }

    /// Sets the layer shell.
    pub fn with_layer_shell(self, layer_shell: L) -> (r: Self)
        ensures
            r == (Builder { layer_shell: Some(layer_shell), ..self }),
    {
        Builder { layer_shell: Some(layer_shell), ..self }
    }

    /// Sets the compositor.
    pub fn with_compositor(self, compositor: K) -> (r: Self)
        ensures
            r == (Builder { compositor: Some(compositor), ..self }),
    {
        Builder { compositor: Some(compositor), ..self }
    }

    /// Sets the dispatch queue handle.
    pub fn with_queue_handle(self, qh: Q) -> (r: Self)
        ensures
            r == (Builder { queue_handle: Some(qh), ..self }),
    {
        Builder { queue_handle: Some(qh), ..self }
    }

    /// Sets the settings.
    pub fn with_settings(self, settings: Settings) -> (r: Self)
        ensures
            r == (Builder { settings: Some(settings), ..self }),
    {
        Builder { settings: Some(settings), ..self }
    }

    /// Sets the GPU instance.
    pub fn with_instance(self, instance: G) -> (r: Self)
        ensures
            r == (Builder { instance: Some(instance), ..self }),
    {
        Builder { instance: Some(instance), ..self }
    }

    /// Hands over all inputs, or names the first one missing.
    pub fn parts(self) -> (r: Result<Parts<C, L, K, Q, G>, Missing>)
        ensures
            match first_missing(self) {
                Some(m) => r == Err::<Parts<C, L, K, Q, G>, Missing>(m),
                None => r is Ok && self.connection == Some(r->Ok_0.connection) && self.layer_shell
                    == Some(r->Ok_0.layer_shell) && self.compositor == Some(r->Ok_0.compositor)
                    && self.queue_handle == Some(r->Ok_0.queue_handle) && self.instance == Some(
                    r->Ok_0.instance,
                ) && self.settings == Some(r->Ok_0.settings),
            },
    {
        let settings = match self.settings {
            Some(s) => s,
            None => return Err(Missing::Settings),
        };
        let layer_shell = match self.layer_shell {
            Some(l) => l,
            None => return Err(Missing::LayerShell),
        };
        let queue_handle = match self.queue_handle {
            Some(q) => q,
            None => return Err(Missing::QueueHandle),
        };
        let compositor = match self.compositor {
            Some(k) => k,
            None => return Err(Missing::Compositor),
        };
        let connection = match self.connection {
            Some(c) => c,
            None => return Err(Missing::Connection),
        };
        let instance = match self.instance {
            Some(g) => g,
            None => return Err(Missing::Instance),
        };
        Ok(Parts { connection, layer_shell, compositor, queue_handle, settings, instance })
    }
}

} // verus!
