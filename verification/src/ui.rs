use vstd::prelude::*;
use crate::graphics::FramePlan;

verus! {

/// The overlay UI's switches: on or off, and whether its context and
/// primitives are set up yet.
#[derive(Clone, Copy, Debug, PartialEq, Eq)]
pub struct UiFlags {
    pub enabled: bool,
    pub initialized: bool,
}

/// What drawing the UI does with flags `f`: nothing while disabled;
/// otherwise set up if not yet done, and draw.
pub open spec fn ui_draw_plan(f: UiFlags) -> FramePlan {
    if f.enabled {
        FramePlan { initialize: !f.initialized, draw: true }
    } else {
        FramePlan { initialize: false, draw: false }
    }
}

/// The flags after drawing: set up if the UI was enabled.
pub open spec fn ui_after_draw(f: UiFlags) -> UiFlags {
    UiFlags { enabled: f.enabled, initialized: f.initialized || f.enabled }
}

impl UiFlags {
    /// Enabled and not yet set up.
    pub fn new() -> (res: Self)
        ensures
            res.enabled,
            !res.initialized,
    {
        UiFlags { enabled: true, initialized: false }
    }

    /// Plans one draw of the UI and records the set-up.
    pub fn draw(&mut self) -> (res: FramePlan)
        ensures
            res == ui_draw_plan(*old(self)),
            *final(self) == ui_after_draw(*old(self)),
    {
        if !self.enabled {
            return FramePlan { initialize: false, draw: false };
        }
        let plan = FramePlan { initialize: !self.initialized, draw: true };
        self.initialized = true;
        plan
    }
}

/// The UI is set up at most once, and never while disabled.
pub proof fn lemma_ui_initialize_once(f: UiFlags)
    ensures
        !ui_draw_plan(ui_after_draw(ui_after_draw(f))).initialize || !f.enabled,
        ui_draw_plan(f).initialize ==> !ui_draw_plan(ui_after_draw(f)).initialize,
        !f.enabled ==> ui_after_draw(f) == f && !ui_draw_plan(f).initialize,
{
}

/// A draw plan draws exactly when the UI is enabled; a disabled UI neither
/// draws nor sets up, and its flags stay as they were; an enabled UI is set
/// up exactly when it was not yet, and is set up afterwards.
pub proof fn lemma_ui_draws_only_when_enabled(f: UiFlags)
    ensures
        ui_draw_plan(f).draw == f.enabled,
        ui_draw_plan(f).initialize == (f.enabled && !f.initialized),
        !f.enabled ==> ui_draw_plan(f) == (FramePlan { initialize: false, draw: false }),
        !f.enabled ==> ui_after_draw(f) == f,
        f.enabled ==> ui_after_draw(f).initialized && ui_after_draw(f).enabled,
{
}

} // verus!
