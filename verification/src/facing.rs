//! Which of the device's cameras is meant.
use vstd::prelude::*;

verus! {

/// Which camera the viewfinder shows.
#[derive(Clone, Copy, Debug, PartialEq, Eq, Structural)]
pub enum Facing {
    /// The rear camera, the one a photo is usually taken with.
    Back,
    /// The screen-side camera.
    Front,
}

impl Default for Facing {
    fn default() -> (facing: Self)
        ensures
            facing == Facing::Back,
    {
        Facing::Back
    }
}

impl Facing {
    /// The number that stands for this camera on the native side.
    pub open spec fn spec_code(self) -> i32 {
        match self {
            Facing::Back => 0,
            Facing::Front => 1,
        }
    }

    /// The camera on the other side of the device.
    pub open spec fn spec_flipped(self) -> Facing {
        match self {
            Facing::Back => Facing::Front,
            Facing::Front => Facing::Back,
        }
    }

    /// The value that crosses the native boundary: 0 back, 1 front.
    pub fn code(self) -> (code: i32)
        ensures
            code == self.spec_code(),
    {
        match self {
            Facing::Back => 0,
            Facing::Front => 1,
        }
    }

    /// The other camera.
    pub fn flipped(self) -> (other: Facing)
        ensures
            other == self.spec_flipped(),
    {
        match self {
            Facing::Back => Facing::Front,
            Facing::Front => Facing::Back,
        }
    }
}

/// Flipping leads to a different camera, and flipping twice leads back.
pub proof fn law_flipping_twice_returns(facing: Facing)
    ensures
        facing.spec_flipped() != facing,
        facing.spec_flipped().spec_flipped() == facing,
{
}

/// The code tells the cameras apart: different cameras never cross the boundary as one number.
pub proof fn law_codes_tell_cameras_apart(a: Facing, b: Facing)
    ensures
        a.spec_code() == b.spec_code() ==> a == b,
{
}

/// The rear camera crosses the boundary as 0 and the screen-side one as 1.
pub proof fn law_camera_codes(facing: Facing, code: i32)
    requires
        call_ensures(Facing::code, (facing,), code),
    ensures
        code == 0 <==> facing is Back,
        code == 1 <==> facing is Front,
{
}

/// Flipping gives a camera that is not this one, and flipping that gives this one back.
pub proof fn law_flipping_changes_sides(facing: Facing, other: Facing, again: Facing)
    requires
        call_ensures(Facing::flipped, (facing,), other),
        call_ensures(Facing::flipped, (other,), again),
    ensures
        other != facing,
        again == facing,
{
}

/// The camera that nobody chose is the rear one.
pub proof fn law_first_camera(first: Facing)
    requires
        call_ensures(Facing::default, (), first),
    ensures
        first is Back,
{
}

} // verus!
