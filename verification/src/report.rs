//! The codes the native sides report with. The number alone says what a report is; the text that
//! comes with it is its payload.
use vstd::prelude::*;

verus! {

/// The session stopped.
pub const STOPPED: i32 = 0;

/// The session is being configured and started.
pub const STARTING: i32 = 1;

/// The preview is live.
pub const RUNNING: i32 = 2;

/// The device has no usable camera.
pub const UNAVAILABLE: i32 = 3;

/// The permission is refused.
pub const DENIED: i32 = 4;

/// The native side failed; `text` is its message.
pub const ERROR: i32 = 5;

/// A photo landed on disk. `text` is `path`, `width` and `height`, 0x1F-separated.
pub const PHOTO: i32 = 6;

/// HarmonyOS only: the ArkTS side's preview surface exists; `text` is its surface id.
pub const SURFACE: i32 = 7;

/// The codes count up from the stopped session to the surface, so that no two reports share one.
pub proof fn law_codes_count_up()
    ensures
        STOPPED == 0,
        STARTING == STOPPED + 1,
        RUNNING == STARTING + 1,
        UNAVAILABLE == RUNNING + 1,
        DENIED == UNAVAILABLE + 1,
        ERROR == DENIED + 1,
        PHOTO == ERROR + 1,
        SURFACE == PHOTO + 1,
{
}

} // verus!
