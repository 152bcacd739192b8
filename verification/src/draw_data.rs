use vstd::prelude::*;

use crate::foreign::{ForeignGui, FramePhase};

verus! {

/// A borrowed, per-frame snapshot of the foreign library's finalized draw
/// command list.
///
/// The handle carries no ownership. It is tagged with the frame it was
/// retrieved in: the foreign library reuses the backing memory at the next
/// frame start, so the platform backend only accepts a snapshot whose tag
/// matches the current frame.
pub struct IgDrawData {
    frame: u64,
}

impl IgDrawData {
    /// The frame this snapshot was retrieved in.
    pub closed spec fn frame_id(self) -> u64 {
        self.frame
    }

    /// The frame this snapshot was retrieved in.
    pub fn frame_index(&self) -> (r: u64)
        ensures
            r == self.frame_id(),
    {
        self.frame
    }

    /// Retrieves the current frame's finalized draw command list. The
    /// frame's render call must already have happened; the snapshot is only
    /// good for this frame.
    pub fn get(gui: &ForeignGui) -> (r: IgDrawData)
        requires
            gui.phase == FramePhase::Rendered,
        ensures
            r.frame_id() == gui.frame,
    {
        IgDrawData { frame: gui.frame }
    }
}

} // verus!
