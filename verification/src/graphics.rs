pub mod gl;
pub mod gx;
pub mod primitive;
pub mod texture;

use vstd::prelude::*;
use crate::hooks::{Detour, InitPlan, MemoryWrite};

verus! {

/// What a frame of the overlay does before the client renders it.
#[derive(Clone, Copy, Debug, PartialEq, Eq)]
pub struct FramePlan {
    /// Set up the overlay's context and resources first.
    pub initialize: bool,
    /// Draw the overlay.
    pub draw: bool,
}

/// The overlay drawn over the client's frames: set up on the first frame,
/// drawn on every frame while enabled.
#[derive(Clone, Copy, Debug, PartialEq, Eq)]
pub struct OverlayState {
    pub initialized: bool,
    pub enabled: bool,
}

/// The overlay with its `enabled` flag flipped.
pub open spec fn toggled(s: OverlayState) -> OverlayState {
    OverlayState { initialized: s.initialized, enabled: !s.enabled }
}

/// What a frame does in state `s`: set up if not yet done, draw if enabled.
pub open spec fn frame_plan(s: OverlayState) -> FramePlan {
    FramePlan { initialize: !s.initialized, draw: s.enabled }
}

/// The state after a frame: set up, enabled as before.
pub open spec fn after_frame(s: OverlayState) -> OverlayState {
    OverlayState { initialized: true, enabled: s.enabled }
}

impl OverlayState {
    /// Not yet set up, enabled.
    pub fn new() -> (res: Self)
        ensures
            !res.initialized,
            res.enabled,
    {
        OverlayState { initialized: false, enabled: true }
    }

    /// Switches the overlay on or off.
    pub fn toggle(&mut self)
        ensures
            *final(self) == toggled(*old(self)),
    {
        self.enabled = !self.enabled;
    }

    /// Plans one frame and records that the overlay is set up.
    pub fn frame(&mut self) -> (res: FramePlan)
        ensures
            res == frame_plan(*old(self)),
            *final(self) == after_frame(*old(self)),
    {
        let plan = FramePlan { initialize: !self.initialized, draw: self.enabled };
        self.initialized = true;
        plan
    }
}

/// Switching the overlay twice leaves it as it was.
pub proof fn lemma_toggle_twice(s: OverlayState)
    ensures
        toggled(toggled(s)) == s,
{
}

/// The overlay is set up at most once: no frame after a first one sets it
/// up again, switching it on or off included.
pub proof fn lemma_initialize_once(s: OverlayState)
    ensures
        !frame_plan(after_frame(s)).initialize,
        !frame_plan(after_frame(after_frame(s))).initialize,
        !frame_plan(toggled(after_frame(s))).initialize,
        after_frame(s).initialized,
{
}

/// Where the client keeps the name of its default renderer, twice.
pub const RENDERER_NAME_ADDRESSES: (u32, u32) = (0x0080E138, 0x00864F7C);

/// The renderer name written over the client's default: "OpenGL" with its
/// terminating NUL.
pub open spec fn opengl_name_spec() -> Seq<u8> {
    seq![0x4Fu8, 0x70u8, 0x65u8, 0x6Eu8, 0x47u8, 0x4Cu8, 0x00u8]
}

fn opengl_name() -> (res: Vec<u8>)
    ensures
        res@ == opengl_name_spec(),
{
    let res: Vec<u8> = vec![0x4Fu8, 0x70u8, 0x65u8, 0x6Eu8, 0x47u8, 0x4Cu8, 0x00u8];
    assert(res@ =~= opengl_name_spec());
    res
}

/// Setting up graphics makes the client default to OpenGL and detours its
/// frame end, window creation and window title.
pub fn init() -> (res: InitPlan)
    ensures
        res.writes@.len() == 2,
        res.writes@[0] matches MemoryWrite::Bytes { address, bytes }
            && address == RENDERER_NAME_ADDRESSES.0 && bytes@ == opengl_name_spec(),
        res.writes@[1] matches MemoryWrite::Bytes { address, bytes }
            && address == RENDERER_NAME_ADDRESSES.1 && bytes@ == opengl_name_spec(),
        res.detours@ == seq![Detour::RenderFrame, Detour::RecreateWindow, Detour::WindowTitle],
{
    let mut writes: Vec<MemoryWrite> = Vec::new();
    writes.push(MemoryWrite::Bytes { address: RENDERER_NAME_ADDRESSES.0, bytes: opengl_name() });
    writes.push(MemoryWrite::Bytes { address: RENDERER_NAME_ADDRESSES.1, bytes: opengl_name() });
    let detours: Vec<Detour> = vec![Detour::RenderFrame, Detour::RecreateWindow, Detour::WindowTitle];
    assert(detours@ =~= seq![Detour::RenderFrame, Detour::RecreateWindow, Detour::WindowTitle]);
    InitPlan { writes, detours }
}

/// A frame draws exactly when the overlay is enabled, sets it up exactly
/// when it was not yet, and leaves it set up with its switch unchanged;
/// switching flips the switch and nothing else.
pub proof fn lemma_frame_follows_switches(s: OverlayState)
    ensures
        frame_plan(s).draw == s.enabled,
        frame_plan(s).initialize == !s.initialized,
        after_frame(s).initialized,
        after_frame(s).enabled == s.enabled,
        toggled(s).enabled == !s.enabled,
        toggled(s).initialized == s.initialized,
{
}

} // verus!
