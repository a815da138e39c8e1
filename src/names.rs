use vstd::prelude::*;

verus! {

/// Whether a fullscreen window is minimized when it loses key focus.
pub const VIDEO_MINIMIZE_ON_FOCUS_LOSS: &'static str = "SDL_VIDEO_MINIMIZE_ON_FOCUS_LOSS";

} // verus!
