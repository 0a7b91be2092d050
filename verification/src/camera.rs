//! The viewfinder as an app describes it: which camera, when to run, and where its news goes.
use day_pieces::Reactive;
use day_reactive::{Signal, Trigger};
use vstd::prelude::*;
use crate::facing::Facing;
use crate::photo::Photo;
use crate::state::CameraState;

verus! {

/// The kind under which the renderers register.
pub const KIND: &'static str = "day.piece.camera";

/// `day_pieces::Reactive`: a value that stays as it is, or the source of one that changes. It is
/// carried from the app to the viewfinder and not looked into here.
#[verifier::external_type_specification]
#[verifier::external_body]
#[verifier::reject_recursive_types(T)]
pub struct ExReactive<T: Clone + 'static>(day_pieces::Reactive<T>);

/// `day_reactive::Signal`: a handle to a value the app observes. It is carried and not looked into
/// here.
#[verifier::external_type_specification]
#[verifier::external_body]
#[verifier::reject_recursive_types(T)]
pub struct ExSignal<T: 'static>(day_reactive::Signal<T>);

/// `day_reactive::Trigger`: a handle to an event the app fires. It is carried and not looked into
/// here.
#[verifier::external_type_specification]
#[verifier::external_body]
pub struct ExTrigger(day_reactive::Trigger);

/// `Reactive::Const` of a camera.
pub uninterp spec fn constant_facing(facing: Facing) -> Reactive<Facing>;

/// `Reactive::Const` of a truth value.
pub uninterp spec fn constant_flag(flag: bool) -> Reactive<bool>;

/// Applies the constructor `day_pieces::Reactive::Const` to a camera. What it makes is a function
/// of the camera alone.
#[verifier::external_body]
fn always_facing(facing: Facing) -> (source: Reactive<Facing>)
    ensures
        source == constant_facing(facing),
{
    Reactive::Const(facing)
}

/// Applies the constructor `day_pieces::Reactive::Const` to a truth value. What it makes is a
/// function of the value alone.
#[verifier::external_body]
fn always_flag(flag: bool) -> (source: Reactive<bool>)
    ensures
        source == constant_flag(flag),
{
    Reactive::Const(flag)
}

/// A native camera viewfinder. Bind the session to `.active(..)`, take photos with
/// `.capture(trigger)`, and read them back through `.photo(signal)`.
pub struct Camera {
    /// Which camera to show.
    pub facing: Reactive<Facing>,
    /// Whether the session should run.
    pub active: Reactive<bool>,
    /// Whether to ask for an undecided permission when the session is wanted.
    pub auto_request: bool,
    /// What takes a photo when it fires.
    pub capture: Option<Trigger>,
    /// Where the camera reports what it is doing.
    pub state: Option<Signal<CameraState>>,
    /// Where each capture lands.
    pub photo: Option<Signal<Option<Photo>>>,
}

/// `camera()`: the rear camera's live preview, running whenever the permission is held.
pub fn camera() -> (camera: Camera)
    ensures
        camera == (Camera {
            facing: constant_facing(Facing::Back),
            active: constant_flag(true),
            auto_request: false,
            capture: None,
            state: None,
            photo: None,
        }),
{
    Camera {
        facing: always_facing(Facing::Back),
        active: always_flag(true),
        auto_request: false,
        capture: None,
        state: None,
        photo: None,
    }
}

impl Camera {
    /// This viewfinder with another source for the camera it shows.
    pub open spec fn with_facing(self, facing: Reactive<Facing>) -> Camera {
        Camera { facing, ..self }
    }

    /// This viewfinder with another source for whether it runs.
    pub open spec fn with_active(self, active: Reactive<bool>) -> Camera {
        Camera { active, ..self }
    }

    /// This viewfinder, asking for an undecided permission.
    pub open spec fn with_auto_request(self) -> Camera {
        Camera { auto_request: true, ..self }
    }

    /// This viewfinder with another trigger.
    pub open spec fn with_capture(self, trigger: Trigger) -> Camera {
        Camera { capture: Some(trigger), ..self }
    }

    /// This viewfinder with another state signal.
    pub open spec fn with_state(self, state: Signal<CameraState>) -> Camera {
        Camera { state: Some(state), ..self }
    }

    /// This viewfinder with another photo signal.
    pub open spec fn with_photo(self, photo: Signal<Option<Photo>>) -> Camera {
        Camera { photo: Some(photo), ..self }
    }

    /// Which camera to show. Where the source changes, the viewfinder switches live.
    pub fn facing(self, facing: Reactive<Facing>) -> (camera: Self)
        ensures
            camera == self.with_facing(facing),
    {
        Camera { facing, ..self }
    }

    /// Whether the session should run. The session runs only while this is true and the permission
    /// is held; `false` stops it and releases the camera.
    pub fn active(self, active: Reactive<bool>) -> (camera: Self)
        ensures
            camera == self.with_active(active),
    {
        Camera { active, ..self }
    }

    /// Ask for the camera permission the first time the session is wanted and the OS has not
    /// decided yet. An app that wants its own rationale screen first requests the permission
    /// itself and leaves this off.
    pub fn auto_request(self) -> (camera: Self)
        ensures
            camera == self.with_auto_request(),
    {
        Camera { auto_request: true, ..self }
    }

    /// Take a photo whenever `trigger` fires.
    pub fn capture(self, trigger: Trigger) -> (camera: Self)
        ensures
            camera == self.with_capture(trigger),
    {
        Camera { capture: Some(trigger), ..self }
    }

    /// Where the camera reports what it is doing.
    pub fn state(self, state: Signal<CameraState>) -> (camera: Self)
        ensures
            camera == self.with_state(state),
    {
        Camera { state: Some(state), ..self }
    }

    /// Where each capture lands.
    pub fn photo(self, photo: Signal<Option<Photo>>) -> (camera: Self)
        ensures
            camera == self.with_photo(photo),
    {
        Camera { photo: Some(photo), ..self }
    }
}

/// [`Camera`]'s own builders, for anything that holds a viewfinder and forwards them to it.
pub trait CameraBuilder: Sized {
    /// The viewfinder that is built.
    spec fn built(self) -> Camera;

    fn facing(self, facing: Reactive<Facing>) -> (holder: Self)
        ensures
            holder.built() == self.built().with_facing(facing),
    ;

    fn active(self, active: Reactive<bool>) -> (holder: Self)
        ensures
            holder.built() == self.built().with_active(active),
    ;

    fn auto_request(self) -> (holder: Self)
        ensures
            holder.built() == self.built().with_auto_request(),
    ;

    fn capture(self, trigger: Trigger) -> (holder: Self)
        ensures
            holder.built() == self.built().with_capture(trigger),
    ;

    fn state(self, state: Signal<CameraState>) -> (holder: Self)
        ensures
            holder.built() == self.built().with_state(state),
    ;

    fn photo(self, photo: Signal<Option<Photo>>) -> (holder: Self)
        ensures
            holder.built() == self.built().with_photo(photo),
    ;
}

impl CameraBuilder for Camera {
    open spec fn built(self) -> Camera {
        self
    }

    fn facing(self, facing: Reactive<Facing>) -> (holder: Self) {
        Camera::facing(self, facing)
    }

    fn active(self, active: Reactive<bool>) -> (holder: Self) {
        Camera::active(self, active)
    }

    fn auto_request(self) -> (holder: Self) {
        Camera::auto_request(self)
    }

    fn capture(self, trigger: Trigger) -> (holder: Self) {
        Camera::capture(self, trigger)
    }

    fn state(self, state: Signal<CameraState>) -> (holder: Self) {
        Camera::state(self, state)
    }

    fn photo(self, photo: Signal<Option<Photo>>) -> (holder: Self) {
        Camera::photo(self, photo)
    }
}

/// The builders chain in any order: no two of them get in each other's way.
pub proof fn law_builders_chain_in_any_order(
    camera: Camera,
    facing: Reactive<Facing>,
    active: Reactive<bool>,
    trigger: Trigger,
    state: Signal<CameraState>,
    photo: Signal<Option<Photo>>,
)
    ensures
        camera.with_facing(facing).with_active(active) == camera.with_active(active).with_facing(
            facing,
        ),
        camera.with_facing(facing).with_auto_request() == camera.with_auto_request().with_facing(
            facing,
        ),
        camera.with_facing(facing).with_capture(trigger) == camera.with_capture(
            trigger,
        ).with_facing(facing),
        camera.with_facing(facing).with_state(state) == camera.with_state(state).with_facing(
            facing,
        ),
        camera.with_facing(facing).with_photo(photo) == camera.with_photo(photo).with_facing(
            facing,
        ),
        camera.with_active(active).with_auto_request() == camera.with_auto_request().with_active(
            active,
        ),
        camera.with_active(active).with_capture(trigger) == camera.with_capture(
            trigger,
        ).with_active(active),
        camera.with_active(active).with_state(state) == camera.with_state(state).with_active(
            active,
        ),
        camera.with_active(active).with_photo(photo) == camera.with_photo(photo).with_active(
            active,
        ),
        camera.with_auto_request().with_capture(trigger) == camera.with_capture(
            trigger,
        ).with_auto_request(),
        camera.with_auto_request().with_state(state) == camera.with_state(
            state,
        ).with_auto_request(),
        camera.with_auto_request().with_photo(photo) == camera.with_photo(
            photo,
        ).with_auto_request(),
        camera.with_capture(trigger).with_state(state) == camera.with_state(state).with_capture(
            trigger,
        ),
        camera.with_capture(trigger).with_photo(photo) == camera.with_photo(photo).with_capture(
            trigger,
        ),
        camera.with_state(state).with_photo(photo) == camera.with_photo(photo).with_state(state),
{
}

/// Choosing a source for the camera shown chooses that, and leaves the rest as it was.
pub proof fn law_facing_sets_one_thing(camera: Camera, facing: Reactive<Facing>, built: Camera)
    requires
        call_ensures(Camera::facing, (camera, facing), built),
    ensures
        built.facing == facing,
        built.active == camera.active,
        built.auto_request == camera.auto_request,
        built.capture == camera.capture,
        built.state == camera.state,
        built.photo == camera.photo,
{
}

/// Choosing when to run chooses that, and leaves the rest as it was.
pub proof fn law_active_sets_one_thing(camera: Camera, active: Reactive<bool>, built: Camera)
    requires
        call_ensures(Camera::active, (camera, active), built),
    ensures
        built.active == active,
        built.facing == camera.facing,
        built.auto_request == camera.auto_request,
        built.capture == camera.capture,
        built.state == camera.state,
        built.photo == camera.photo,
{
}

/// Opting in to being asked opts in, and leaves the rest as it was.
pub proof fn law_auto_request_sets_one_thing(camera: Camera, built: Camera)
    requires
        call_ensures(Camera::auto_request, (camera,), built),
    ensures
        built.auto_request,
        built.facing == camera.facing,
        built.active == camera.active,
        built.capture == camera.capture,
        built.state == camera.state,
        built.photo == camera.photo,
{
}

/// Giving a trigger gives that one, and leaves the rest as it was.
pub proof fn law_capture_sets_one_thing(camera: Camera, trigger: Trigger, built: Camera)
    requires
        call_ensures(Camera::capture, (camera, trigger), built),
    ensures
        built.capture == Some(trigger),
        built.facing == camera.facing,
        built.active == camera.active,
        built.auto_request == camera.auto_request,
        built.state == camera.state,
        built.photo == camera.photo,
{
}

/// Binding the state binds it to that signal, and leaves the rest as it was: an app that reads the
/// state has not opted in to anything.
pub proof fn law_state_sets_one_thing(camera: Camera, state: Signal<CameraState>, built: Camera)
    requires
        call_ensures(Camera::state, (camera, state), built),
    ensures
        built.state == Some(state),
        built.facing == camera.facing,
        built.active == camera.active,
        built.auto_request == camera.auto_request,
        built.capture == camera.capture,
        built.photo == camera.photo,
{
}

/// Binding the photos binds them to that signal, and leaves the rest as it was.
pub proof fn law_photo_sets_one_thing(camera: Camera, photo: Signal<Option<Photo>>, built: Camera)
    requires
        call_ensures(Camera::photo, (camera, photo), built),
    ensures
        built.photo == Some(photo),
        built.facing == camera.facing,
        built.active == camera.active,
        built.auto_request == camera.auto_request,
        built.capture == camera.capture,
        built.state == camera.state,
{
}

/// A viewfinder that nobody configured shows the rear camera, runs when it may, asks for nothing and
/// reports to nobody.
pub proof fn law_plain_viewfinder(plain: Camera)
    requires
        call_ensures(camera, (), plain),
    ensures
        plain.facing == constant_facing(Facing::Back),
        plain.active == constant_flag(true),
        !plain.auto_request,
        plain.capture is None,
        plain.state is None,
        plain.photo is None,
{
}

/// A viewfinder holds itself, so what its forwarded builders do is what its own do.
pub proof fn law_viewfinder_holds_itself(camera: Camera)
    ensures
        camera.built() == camera,
{
}

/// Whatever holds a viewfinder, only opting in opts in: each other builder leaves the held one
/// asking exactly as it did.
pub proof fn law_only_opting_in_opts_in(
    camera: Camera,
    facing: Reactive<Facing>,
    active: Reactive<bool>,
    trigger: Trigger,
    state: Signal<CameraState>,
    photo: Signal<Option<Photo>>,
)
    ensures
        camera.with_auto_request().auto_request,
        camera.with_facing(facing).auto_request == camera.auto_request,
        camera.with_active(active).auto_request == camera.auto_request,
        camera.with_capture(trigger).auto_request == camera.auto_request,
        camera.with_state(state).auto_request == camera.auto_request,
        camera.with_photo(photo).auto_request == camera.auto_request,
{
}

} // verus!
