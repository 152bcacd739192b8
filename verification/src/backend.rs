use vstd::prelude::*;

use crate::draw_data::IgDrawData;
use crate::foreign::{ForeignGui, FramePhase, IgError};

verus! {

/// What the wrapper reads of one platform input event.
///
/// The platform's own event type is opaque here; the event-processing logic
/// depends on exactly two facts about it: whether the windowing layer can
/// lower it to the foreign low-level event representation at all, and, if it
/// is lowered and forwarded, whether the foreign event processor reports it
/// as used.
#[derive(Clone, Copy, Debug, PartialEq, Eq, Structural)]
pub struct PlatformEvent {
    /// Whether this event kind has a foreign equivalent. Some platform event
    /// kinds cannot be lowered; those are skipped, which is not an error.
    pub translatable: bool,
    /// What the foreign event processor reports for this event once it is
    /// forwarded: true when the GUI consumed it.
    pub consumed_by_gui: bool,
}

/// Exclusive ownership of the platform-integration sublayer: the input
/// sub-backend bound to one window and the render sub-backend bound to one
/// rendering surface.
///
/// The handle is created by [`IgSDL2Renderer::new`] while a context is live
/// and released exactly once by [`IgSDL2Renderer::destroy`], which consumes
/// it and must run while the bound context is still alive.
pub struct IgSDL2Renderer {
    // private marker: a handle comes only out of `new` and is consumed by
    // `destroy`, so it cannot be forged or duplicated by callers
    marker: bool,
}

impl IgSDL2Renderer {
    /// Initializes the input sub-backend against the window, then the render
    /// sub-backend against the rendering surface.
    ///
    /// `input_init_ok` and `render_init_ok` report what each foreign
    /// sub-initialization returned. Failure of either is fatal for the
    /// construction: no handle is produced, nothing is left half
    /// initialized, and the error names the sub-backend that failed. The
    /// render sub-backend is only attempted once the input one has
    /// succeeded.
    pub fn new(gui: &mut ForeignGui, input_init_ok: bool, render_init_ok: bool) -> (r: Result<
        IgSDL2Renderer,
        IgError,
    >)
        requires
            old(gui).wf(),
            old(gui).context_live,
            !old(gui).backend_live,
            old(gui).phase == FramePhase::Idle,
            old(gui).backends_created < u64::MAX,
        ensures
            final(gui).wf(),
            (input_init_ok && render_init_ok) ==> (r is Ok && *final(gui) == (ForeignGui {
                backend_live: true,
                backends_created: (old(gui).backends_created + 1) as u64,
                ..*old(gui)
            })),
            !input_init_ok ==> (r matches Err(e) && e == IgError::InputBackendInitFailed
                && *final(gui) == *old(gui)),
            (input_init_ok && !render_init_ok) ==> (r matches Err(e) && e
                == IgError::RenderBackendInitFailed && *final(gui) == *old(gui)),
    {
        if !input_init_ok {
            Err(IgError::InputBackendInitFailed)
        } else if !render_init_ok {
            Err(IgError::RenderBackendInitFailed)
        } else {
            gui.backend_live = true;
            gui.backends_created = gui.backends_created + 1;
            Ok(IgSDL2Renderer { marker: true })
        }
    }

    /// Accepts one optional platform event.
    ///
    /// With no event, nothing is processed and nothing changes. An event
    /// with no foreign equivalent is likewise skipped without reaching the
    /// foreign event processor. Otherwise the event is forwarded and the
    /// result is what the foreign processor reported: true when the GUI
    /// consumed the event.
    pub fn process_events(&self, gui: &mut ForeignGui, event: Option<&PlatformEvent>) -> (r: bool)
        requires
            event matches Some(e) && e.translatable ==> old(gui).context_live
                && old(gui).backend_live && old(gui).events_forwarded < u64::MAX,
        ensures
            event is None ==> (!r && *final(gui) == *old(gui)),
            event matches Some(e) && !e.translatable ==> !r && *final(gui) == *old(gui),
            event matches Some(e) ==> (e.translatable ==> r == e.consumed_by_gui && *final(gui)
                == (ForeignGui {
                events_forwarded: (old(gui).events_forwarded + 1) as u64,
                ..*old(gui)
            })),
    {
        match event {
            Option::None => false,
            Option::Some(e) => {
                if e.translatable {
                    gui.events_forwarded = gui.events_forwarded + 1;
                    e.consumed_by_gui
                } else {
                    false
                }
            },
        }
    }

    /// Signals both sub-backends to begin a new frame: the render
    /// sub-backend first, then the input sub-backend, whose per-frame setup
    /// reads renderer-reported state. Must precede the context's own frame
    /// start.
    pub fn new_frame(&self, gui: &mut ForeignGui)
        requires
            old(gui).context_live,
            old(gui).backend_live,
            old(gui).phase == FramePhase::Idle,
        ensures
            *final(gui) == (ForeignGui { phase: FramePhase::BackendFrame, ..*old(gui) }),
    {
        gui.phase = FramePhase::BackendFrame;
    }

    /// Consumes the current frame's draw-data snapshot and issues the
    /// foreign renderer's draw call onto the bound rendering surface. The
    /// snapshot must belong to the current frame.
    pub fn render_draw_data(&self, gui: &mut ForeignGui, draw_data: IgDrawData)
        requires
            old(gui).context_live,
            old(gui).backend_live,
            old(gui).phase == FramePhase::Rendered,
            draw_data.frame_id() == old(gui).frame,
        ensures
            *final(gui) == (ForeignGui { phase: FramePhase::Idle, ..*old(gui) }),
    {
        gui.phase = FramePhase::Idle;
    }

    /// Shuts the backend down, exactly once: the render sub-backend first,
    /// then the input sub-backend, releasing backend-internal resources. The
    /// handle is consumed; the bound context must still be alive, since the
    /// foreign shutdown routines read its global state.
    pub fn destroy(self, gui: &mut ForeignGui)
        requires
            old(gui).wf(),
            old(gui).context_live,
            old(gui).backend_live,
            old(gui).phase == FramePhase::Idle,
        ensures
            final(gui).wf(),
            *final(gui) == (ForeignGui {
                backend_live: false,
                backends_destroyed: (old(gui).backends_destroyed + 1) as u64,
                ..*old(gui)
            }),
    {
        gui.backend_live = false;
        gui.backends_destroyed = gui.backends_destroyed + 1;
    }
}

} // verus!
