//! What Rust tells the native camera: the props it is made with, and the commands that follow.
use vstd::prelude::*;
use crate::facing::Facing;

verus! {

/// Full props (realize). `active` is whether the session should run from the first frame; it is
/// only ever true when the permission is already held.
#[derive(Clone, Copy, Debug, PartialEq, Eq, Structural)]
pub struct CameraProps {
    pub facing: Facing,
    pub active: bool,
}

impl Default for CameraProps {
    fn default() -> (props: Self)
        ensures
            props == (CameraProps { facing: Facing::Back, active: false }),
    {
        CameraProps { facing: Facing::Back, active: false }
    }
}

/// Sparse reconcile patch: the commands Rust sends the native camera after build.
#[derive(Debug, PartialEq)]
pub enum CameraPatch {
    /// Run the session. Sent only once the permission is held.
    Start,
    /// Stop the session and release the camera.
    Stop,
    /// Take one photo; the native side answers with a photo report.
    Capture,
    /// Switch cameras, live.
    Facing(Facing),
    /// HarmonyOS only: the ArkTS surface the preview renders into is ready; the text is its id.
    /// Every other backend ignores it.
    Surface(String),
}

/// A [`CameraPatch`] with its text as a sequence of characters.
pub enum PatchView {
    Start,
    Stop,
    Capture,
    Facing(Facing),
    Surface(Seq<char>),
}

impl View for CameraPatch {
    type V = PatchView;

    open spec fn view(&self) -> PatchView {
        match self {
            CameraPatch::Start => PatchView::Start,
            CameraPatch::Stop => PatchView::Stop,
            CameraPatch::Capture => PatchView::Capture,
            CameraPatch::Facing(facing) => PatchView::Facing(*facing),
            CameraPatch::Surface(id) => PatchView::Surface(id@),
        }
    }
}

impl Clone for CameraPatch {
    fn clone(&self) -> (copy: Self)
        ensures
            copy@ == self@,
    {
        match self {
            CameraPatch::Start => CameraPatch::Start,
            CameraPatch::Stop => CameraPatch::Stop,
            CameraPatch::Capture => CameraPatch::Capture,
            CameraPatch::Facing(facing) => CameraPatch::Facing(*facing),
            CameraPatch::Surface(id) => CameraPatch::Surface(id.clone()),
        }
    }
}

/// A patch is seen as itself: no two kinds look alike, and what a patch carries is seen with it.
pub proof fn law_patches_are_seen_as_they_are(patch: CameraPatch)
    ensures
        patch@ is Start <==> patch is Start,
        patch@ is Stop <==> patch is Stop,
        patch@ is Capture <==> patch is Capture,
        patch@ is Facing <==> patch is Facing,
        patch@ is Surface <==> patch is Surface,
        patch matches CameraPatch::Facing(facing) ==> patch@ == PatchView::Facing(facing),
        patch matches CameraPatch::Surface(id) ==> patch@ == PatchView::Surface(id@),
{
}

/// A copy of a patch is that patch, and props that nobody chose show the rear camera and do not run.
pub proof fn law_copied_patches_and_first_props(
    patch: CameraPatch,
    copy: CameraPatch,
    first: CameraProps,
)
    requires
        call_ensures(CameraPatch::clone, (&patch,), copy),
        call_ensures(CameraProps::default, (), first),
    ensures
        copy@ == patch@,
        first.facing is Back,
        !first.active,
{
}

} // verus!
