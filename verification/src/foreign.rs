use vstd::prelude::*;

verus! {

/// The two built-in style palettes the foreign library offers.
#[derive(Clone, Copy, Debug, PartialEq, Eq, Structural)]
pub enum IgStyle {
    Light,
    Dark,
}

/// Where the strict per-frame call sequence currently stands.
///
/// The required order each frame is: platform backend frame start, context
/// frame start, immediate-mode calls, context render, draw-data retrieval,
/// platform backend draw call. Each handle operation moves the phase one
/// step; its precondition refuses calls out of order.
#[derive(Clone, Copy, Debug, PartialEq, Eq, Structural)]
pub enum FramePhase {
    /// No frame in flight.
    Idle,
    /// The platform backend has signalled its frame start.
    BackendFrame,
    /// The context has signalled its frame start; immediate-mode calls are
    /// being accumulated.
    ContextFrame,
    /// The frame's draw command list has been finalized and may be retrieved
    /// and rasterized.
    Rendered,
}

/// A construction failure. Every other operation succeeds under the
/// preconditions stated on it.
#[derive(Clone, Copy, Debug, PartialEq, Eq, Structural)]
pub enum IgError {
    /// The foreign library returned a null context.
    ContextAllocationFailed,
    /// The window-bound input sub-backend reported failure.
    InputBackendInitFailed,
    /// The surface-bound render sub-backend reported failure.
    RenderBackendInitFailed,
}

/// The foreign GUI library's process-wide state, made explicit.
///
/// The foreign library owns one implicit current context, its configuration,
/// its style, and the current frame's draw data as global state. This type
/// stands for that singleton: exactly one value of it should exist in a
/// process, every handle operation takes it, and each operation's contract
/// says how the global state moves. The creation and destruction counters
/// make resource release observable: a context or backend is released
/// exactly once when the counters come out equal.
pub struct ForeignGui {
    /// Whether a foreign GUI context is currently allocated.
    pub context_live: bool,
    /// How many foreign contexts were ever allocated.
    pub contexts_created: u64,
    /// How many foreign contexts were ever released.
    pub contexts_destroyed: u64,
    /// Whether the platform backend pair (input and render) is initialized.
    pub backend_live: bool,
    /// How many platform backends were ever initialized.
    pub backends_created: u64,
    /// How many platform backends were ever shut down.
    pub backends_destroyed: u64,
    /// The bitmask last written into the global configuration-flags field.
    pub config_flags: u32,
    /// The palette last applied to the global style object, if any.
    pub style: Option<IgStyle>,
    /// Where the per-frame call sequence stands.
    pub phase: FramePhase,
    /// How many frames have been started since process start. Draw data is
    /// only valid for the frame it was retrieved in.
    pub frame: u64,
    /// How many platform events were handed to the foreign event processor.
    pub events_forwarded: u64,
    /// Whether the debug demo window was requested during the current frame.
    pub demo_window_requested: bool,
}

impl ForeignGui {
    /// Consistency of the global state: release counts never pass creation
    /// counts, at most one context and one backend are live at a time, a
    /// backend only exists while a context does, and a frame is only in
    /// flight while a context is live.
    pub open spec fn wf(self) -> bool {
        &&& self.contexts_destroyed <= self.contexts_created
        &&& self.contexts_created <= self.contexts_destroyed + 1
        &&& (self.context_live <==> self.contexts_created == self.contexts_destroyed + 1)
        &&& self.backends_destroyed <= self.backends_created
        &&& self.backends_created <= self.backends_destroyed + 1
        &&& (self.backend_live <==> self.backends_created == self.backends_destroyed + 1)
        &&& (self.backend_live ==> self.context_live)
        &&& (self.phase != FramePhase::Idle ==> self.context_live)
        &&& (self.phase == FramePhase::BackendFrame ==> self.backend_live)
    }

    /// The state of a process in which the foreign library has not been
    /// touched yet: nothing allocated, nothing configured, no frame in
    /// flight.
    pub fn startup() -> (r: ForeignGui)
        ensures
            r.wf(),
            !r.context_live,
            r.contexts_created == 0,
            r.contexts_destroyed == 0,
            !r.backend_live,
            r.backends_created == 0,
            r.backends_destroyed == 0,
            r.config_flags == 0,
            r.style is None,
            r.phase == FramePhase::Idle,
            r.frame == 0,
            r.events_forwarded == 0,
            !r.demo_window_requested,
    {
        ForeignGui {
            context_live: false,
            contexts_created: 0,
            contexts_destroyed: 0,
            backend_live: false,
            backends_created: 0,
            backends_destroyed: 0,
            config_flags: 0,
            style: Option::None,
            phase: FramePhase::Idle,
            frame: 0,
            events_forwarded: 0,
            demo_window_requested: false,
        }
    }
}

} // verus!
