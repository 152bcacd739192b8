use vstd::prelude::*;

use crate::flags::{lemma_or_all_contains_each, lemma_or_all_push, or_all, IgNavInputFlags};
use crate::foreign::{ForeignGui, FramePhase, IgError, IgStyle};

verus! {

/// Exclusive ownership of one live foreign GUI context, together with the
/// flag sets accumulated onto it.
///
/// The handle is created by [`IgContext::new`] and released exactly once by
/// [`IgContext::destroy`], which consumes it; a released handle cannot be
/// used or released again.
pub struct IgContext {
    config_flags: IgNavInputFlags,
    applied: Ghost<Seq<u32>>,
}

impl IgContext {
    /// The accumulated flag set, as it was last written into the foreign
    /// configuration field.
    pub closed spec fn flags(self) -> IgNavInputFlags {
        self.config_flags
    }

    /// The history of flag masks applied through `set_flags`, oldest first.
    pub closed spec fn applied(self) -> Seq<u32> {
        self.applied@
    }

    /// The stored flag set is exactly the union of everything ever applied.
    pub open spec fn wf(self) -> bool {
        self.flags()@ == or_all(self.applied())
    }

    /// The accumulated flag set.
    pub fn config_flags(&self) -> (r: IgNavInputFlags)
        ensures
            r == self.flags(),
    {
        self.config_flags
    }

    /// Allocates the one foreign GUI context, with no font atlas supplied.
    ///
    /// `alloc_ok` reports whether the foreign allocation returned a usable
    /// (non-null) context; on failure no handle is produced and the global
    /// state is untouched. A fresh context starts with empty configuration
    /// flags and the default style palette.
    pub fn new(gui: &mut ForeignGui, alloc_ok: bool) -> (r: Result<IgContext, IgError>)
        requires
            old(gui).wf(),
            !old(gui).context_live,
            old(gui).contexts_created < u64::MAX,
        ensures
            final(gui).wf(),
            alloc_ok ==> (r matches Ok(c) && c.wf() && c.applied() == Seq::<u32>::empty()
                && c.flags()@ == 0 && *final(gui) == (ForeignGui {
                context_live: true,
                contexts_created: (old(gui).contexts_created + 1) as u64,
                config_flags: 0,
                style: Option::None,
                phase: FramePhase::Idle,
                ..*old(gui)
            })),
            !alloc_ok ==> (r matches Err(e) && e == IgError::ContextAllocationFailed && *final(gui)
                == *old(gui)),
    {
        if alloc_ok {
            gui.context_live = true;
            gui.contexts_created = gui.contexts_created + 1;
            gui.config_flags = 0;
            gui.style = Option::None;
            let context = IgContext {
                config_flags: IgNavInputFlags::empty(),
                applied: Ghost(Seq::empty()),
            };
            Ok(context)
        } else {
            Err(IgError::ContextAllocationFailed)
        }
    }

    /// Merges `flags` into the accumulated flag set and writes the merged
    /// bitmask into the foreign global configuration field. Bits are only
    /// ever added, never cleared.
    pub fn set_flags(&mut self, gui: &mut ForeignGui, flags: IgNavInputFlags)
        requires
            old(self).wf(),
            old(gui).context_live,
        ensures
            final(self).wf(),
            final(self).applied() == old(self).applied().push(flags@),
            final(self).flags()@ == (old(self).flags()@ | flags@),
            *final(gui) == (ForeignGui { config_flags: final(self).flags()@, ..*old(gui) }),
    {
        let merged = self.config_flags.combine(flags);
        self.config_flags = merged;
        self.applied = Ghost(self.applied@.push(flags@));
        gui.config_flags = merged.bits();
        proof {
            lemma_or_all_push(old(self).applied@, flags@);
        }
    }

    /// Applies one of the two built-in palettes to the foreign style object.
    /// The last palette applied wins; nothing is blended.
    pub fn set_style(&self, gui: &mut ForeignGui, style: IgStyle)
        requires
            old(gui).context_live,
        ensures
            *final(gui) == (ForeignGui { style: Option::Some(style), ..*old(gui) }),
    {
        gui.style = Option::Some(style);
    }

    /// Signals the foreign library to begin accumulating a new frame's
    /// immediate-mode calls. When a platform backend is live, its own frame
    /// start must come first; the previous frame's draw data becomes invalid
    /// here.
    pub fn new_frame(&self, gui: &mut ForeignGui)
        requires
            old(gui).context_live,
            old(gui).backend_live ==> old(gui).phase == FramePhase::BackendFrame,
            !old(gui).backend_live ==> (old(gui).phase == FramePhase::Idle || old(gui).phase
                == FramePhase::Rendered),
            old(gui).frame < u64::MAX,
        ensures
            *final(gui) == (ForeignGui {
                phase: FramePhase::ContextFrame,
                frame: (old(gui).frame + 1) as u64,
                demo_window_requested: false,
                ..*old(gui)
            }),
    {
        gui.phase = FramePhase::ContextFrame;
        gui.frame = gui.frame + 1;
        gui.demo_window_requested = false;
    }

    /// Finalizes the current frame's draw command list from the accumulated
    /// immediate-mode calls. Must come after this frame's `new_frame` and
    /// before the draw data is retrieved.
    pub fn render(&self, gui: &mut ForeignGui)
        requires
            old(gui).context_live,
            old(gui).phase == FramePhase::ContextFrame,
        ensures
            *final(gui) == (ForeignGui { phase: FramePhase::Rendered, ..*old(gui) }),
    {
        gui.phase = FramePhase::Rendered;
    }

    /// Releases the foreign context, exactly once: the handle is consumed.
    ///
    /// Every platform backend bound to this context must already have been
    /// destroyed, since backend shutdown reads the context's global state.
    pub fn destroy(self, gui: &mut ForeignGui)
        requires
            old(gui).wf(),
            old(gui).context_live,
            !old(gui).backend_live,
            old(gui).phase == FramePhase::Idle || old(gui).phase == FramePhase::Rendered,
        ensures
            final(gui).wf(),
            *final(gui) == (ForeignGui {
                context_live: false,
                contexts_destroyed: (old(gui).contexts_destroyed + 1) as u64,
                config_flags: 0,
                style: Option::None,
                phase: FramePhase::Idle,
                ..*old(gui)
            }),
    {
        gui.context_live = false;
        gui.contexts_destroyed = gui.contexts_destroyed + 1;
        gui.config_flags = 0;
        gui.style = Option::None;
        gui.phase = FramePhase::Idle;
    }
}

/// Monotonic accumulation: the stored flag set still contains every mask
/// that was ever applied through `set_flags`; bits are never cleared while
/// the context lives.
pub proof fn lemma_flags_monotonic(c: IgContext, i: int)
    requires
        c.wf(),
        0 <= i < c.applied().len(),
    ensures
        c.flags()@ & c.applied()[i] == c.applied()[i],
{
    lemma_or_all_contains_each(c.applied(), i);
}

} // verus!
