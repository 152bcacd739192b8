//! A safety layer over an immediate-mode GUI library's C interface and its
//! windowing backend, built around an explicit model of the foreign
//! library's process-wide state.
//!
//! The foreign library keeps one implicit "current context" as global state.
//! This crate makes that singleton explicit: a [`ForeignGui`] value stands
//! for the foreign process-wide state, every handle operation takes it, and
//! each operation's contract says exactly how that state moves. The
//! contracts pin down the lifecycle rules that the foreign library otherwise
//! leaves to undefined behavior: a context is created before use and
//! destroyed exactly once, configuration flags accumulate monotonically and
//! are never cleared, the per-frame calls follow the required order, and the
//! platform backend is torn down while its context is still alive.

use vstd::prelude::*;

pub mod backend;
pub mod context;
pub mod draw_data;
pub mod flags;
pub mod foreign;

pub use backend::IgSDL2Renderer;
pub use backend::PlatformEvent;
pub use context::IgContext;
pub use draw_data::IgDrawData;
pub use flags::IgNavInputFlags;
pub use foreign::ForeignGui;
pub use foreign::FramePhase;
pub use foreign::IgError;
pub use foreign::IgStyle;

verus! {

/// Submits the foreign library's debug demo window for the current frame,
/// passing the caller's open/closed toggle through. Like every
/// immediate-mode call, it belongs between the context's frame start and its
/// render call.
pub fn show_demo_window(gui: &mut foreign::ForeignGui, open: &mut bool)
    requires
        old(gui).context_live,
        old(gui).phase == foreign::FramePhase::ContextFrame,
    ensures
        *final(gui) == (foreign::ForeignGui { demo_window_requested: *old(open), ..*old(gui) }),
        *final(open) == *old(open),
{
    gui.demo_window_requested = *open;
}

} // verus!
