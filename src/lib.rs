//! Lifecycle logic of a transient volume overlay: the renderer's command
//! state machine, the orchestrator that owns at most one live overlay
//! session, the debounce timer that hides it after a quiet period, the
//! sink list kept by the volume monitor, the surface builder's input check
//! and the clamping of user settings.

pub mod engine;
pub mod app;
pub mod timer;
pub mod audio;
pub mod settings;
pub mod surface;
