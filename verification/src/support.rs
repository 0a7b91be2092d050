//! What a build of the viewfinder can show.
use vstd::prelude::*;

verus! {

/// What a backend realizes.
#[derive(Clone, Copy, Debug, PartialEq, Eq, Structural)]
pub enum Support {
    /// A camera arm is compiled in.
    Native,
    /// There is none, and the kind renders a placeholder leaf.
    Unsupported,
}

/// The toolkits a build was made with, and the platform it was made for.
#[derive(Clone, Copy, Debug, PartialEq, Eq, Structural)]
pub struct Build {
    /// With the UIKit toolkit.
    pub uikit: bool,
    /// With the Android toolkit.
    pub mdc: bool,
    /// With the ArkUI toolkit.
    pub arkui: bool,
    /// For iOS.
    pub ios: bool,
    /// For Android.
    pub android: bool,
    /// For HarmonyOS.
    pub ohos: bool,
}

impl Build {
    /// Whether the build has a camera arm: a toolkit together with the platform it belongs to.
    pub open spec fn has_camera_arm(self) -> bool {
        ||| self.uikit && self.ios
        ||| self.mdc && self.android
        ||| self.arkui && self.ohos
    }
}

/// What a build realizes: `Native` where a camera arm is compiled in, `Unsupported` elsewhere.
/// `Native` is a promise about the code, not the hardware.
pub fn support(build: Build) -> (support: Support)
    ensures
        support == (if build.has_camera_arm() {
            Support::Native
        } else {
            Support::Unsupported
        }),
{
    if (build.uikit && build.ios) || (build.mdc && build.android) || (build.arkui && build.ohos) {
        Support::Native
    } else {
        Support::Unsupported
    }
}

/// A desktop or web build has no camera arm, whatever toolkits it was made with.
pub proof fn law_no_camera_off_mobile(build: Build)
    requires
        !build.ios,
        !build.android,
        !build.ohos,
    ensures
        !build.has_camera_arm(),
{
}

/// A build shows a camera exactly if one of its toolkits is that of its platform: a toolkit on a
/// platform that is not its own brings none, and neither does a platform without its toolkit.
pub proof fn law_camera_needs_toolkit_on_its_platform(build: Build, realized: Support)
    requires
        call_ensures(support, (build,), realized),
    ensures
        build.uikit && build.ios ==> realized is Native,
        build.mdc && build.android ==> realized is Native,
        build.arkui && build.ohos ==> realized is Native,
        !(build.uikit && build.ios) && !(build.mdc && build.android) && !(build.arkui
            && build.ohos) ==> realized is Unsupported,
{
}

} // verus!
