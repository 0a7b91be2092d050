//! The viewfinder's session: what to do when the app or the native side changes something.
//!
//! A [`Session`] decides and does nothing itself. Each thing that can happen to a viewfinder is a
//! method that returns the [`Action`]s to perform, in order. The methods that need to know whether
//! the camera may be used ask the OS; each has a twin, named `_with`, that is told.
use vstd::prelude::*;
use crate::camera::Camera;
use crate::facing::Facing;
use crate::patch::{CameraPatch, CameraProps, PatchView};
use crate::permission::{camera_status, Status};
use crate::photo::{reported_photo, Photo};
use crate::report;
use crate::state::{reported_state, CameraState, StateView};

verus! {

/// One thing to do for a viewfinder.
#[derive(Debug, PartialEq)]
pub enum Action {
    /// Send the native camera a command.
    Patch(CameraPatch),
    /// Write the app's state signal.
    SetState(CameraState),
    /// Ask the OS for the camera permission.
    Request,
    /// Write the app's photo signal.
    SetPhoto(Photo),
}

/// An [`Action`] with its texts as sequences of characters.
pub enum ActionView {
    Patch(PatchView),
    SetState(StateView),
    Request,
    SetPhoto(Photo),
}

impl View for Action {
    type V = ActionView;

    open spec fn view(&self) -> ActionView {
        match self {
            Action::Patch(patch) => ActionView::Patch(patch@),
            Action::SetState(state) => ActionView::SetState(state@),
            Action::Request => ActionView::Request,
            Action::SetPhoto(photo) => ActionView::SetPhoto(*photo),
        }
    }
}

/// The views of a list of actions.
pub open spec fn actions_view(actions: Seq<Action>) -> Seq<ActionView> {
    actions.map_values(|action: Action| action@)
}

/// The view of what the app's state signal shows, if the app gave one.
pub open spec fn shown_view(shown: Option<&CameraState>) -> Option<StateView> {
    match shown {
        Some(state) => Some(state@),
        None => None,
    }
}

/// How far the one request that a viewfinder makes for the permission has come.
#[derive(Clone, Copy, Debug, PartialEq, Eq, Structural)]
pub enum Question {
    /// The OS has not been asked.
    Unasked,
    /// The OS has been asked and has not answered.
    Open,
    /// The OS answered with anything but a grant.
    Refused,
    /// The OS answered with a grant.
    Granted,
}

/// What a viewfinder remembers between the things that happen to it.
#[derive(Clone, Copy, Debug, PartialEq, Eq, Structural)]
pub struct Session {
    /// Whether to ask for an undecided permission.
    pub auto_request: bool,
    /// Whether it has been asked for. The OS is asked once in a viewfinder's life.
    pub question: Question,
    /// Whether the app gave a signal for its photos.
    pub keeps_photo: bool,
    /// Whether the app wants the session to run.
    pub wanted: bool,
    /// The camera the app wants to see.
    pub facing: Facing,
}

/// How a session moves when the app says whether it should run.
enum Move {
    /// Nothing changed.
    Stay,
    /// It should run now.
    Start,
    /// It should stop now.
    Stop,
}

/// Writing `next` to a state signal that shows `shown`: nothing where there is no signal, or where
/// it shows that already.
pub open spec fn state_write(shown: Option<StateView>, next: StateView) -> Seq<ActionView> {
    if shown is Some && shown != Some(next) {
        seq![ActionView::SetState(next)]
    } else {
        Seq::empty()
    }
}

impl Session {
    /// Whether starting under `status` asks the OS: the app opted in, nobody has decided, and the
    /// OS has not been asked before.
    pub open spec fn asks(self, status: Status) -> bool {
        status == Status::Prompt && self.auto_request && self.question == Question::Unasked
    }

    /// The state of a wanted session whose permission is undecided: idle where asking is left to
    /// the app, starting while the OS is asked, and denied once it has refused.
    pub open spec fn undecided_state(self) -> StateView {
        if !self.auto_request {
            StateView::Idle
        } else {
            match self.question {
                Question::Unasked | Question::Open => StateView::Starting,
                Question::Refused => StateView::Denied,
                Question::Granted => StateView::Idle,
            }
        }
    }

    /// What starting takes under a permission's status.
    pub open spec fn start_actions(
        self,
        status: Status,
        shown: Option<StateView>,
    ) -> Seq<ActionView> {
        match status {
            Status::Granted => seq![ActionView::Patch(PatchView::Start)],
            Status::Prompt => if self.asks(status) {
                state_write(shown, self.undecided_state()).push(ActionView::Request)
            } else {
                state_write(shown, self.undecided_state())
            },
            Status::Denied | Status::Restricted => state_write(shown, StateView::Denied),
            Status::Unsupported | Status::Unknown => state_write(shown, StateView::Unavailable),
        }
    }

    /// The session after starting under a permission's status.
    pub open spec fn after_start(self, status: Status) -> Session {
        if self.asks(status) {
            Session { question: Question::Open, ..self }
        } else {
            self
        }
    }

    /// The props a viewfinder is made with: the session runs from the first frame only where it is
    /// wanted and the permission is already held.
    pub open spec fn spec_props(self, status: Status) -> CameraProps {
        CameraProps { facing: self.facing, active: self.wanted && status == Status::Granted }
    }

    /// What follows once the viewfinder exists: a session that is wanted and did not run from the
    /// first frame is started.
    pub open spec fn opened_actions(
        self,
        props: CameraProps,
        status: Status,
        shown: Option<StateView>,
    ) -> Seq<ActionView> {
        if self.wanted && !props.active {
            self.start_actions(status, shown)
        } else {
            Seq::empty()
        }
    }

    /// The session once the viewfinder exists.
    pub open spec fn after_opened(self, props: CameraProps, status: Status) -> Session {
        if self.wanted && !props.active {
            self.after_start(status)
        } else {
            self
        }
    }

    /// The session after the app said whether it should run.
    pub open spec fn after_active(self, now: bool, status: Status) -> Session {
        if now && !self.wanted {
            Session { wanted: true, ..self }.after_start(status)
        } else {
            Session { wanted: now, ..self }
        }
    }

    /// What follows when the app says whether the session should run: only a change does anything.
    pub open spec fn active_actions(
        self,
        now: bool,
        status: Status,
        shown: Option<StateView>,
    ) -> Seq<ActionView> {
        if now == self.wanted {
            Seq::empty()
        } else if now {
            self.start_actions(status, shown)
        } else {
            seq![ActionView::Patch(PatchView::Stop)]
        }
    }

    /// What follows when the OS answers a request: a grant starts the session if it is still
    /// wanted, and anything else is reported as a refusal.
    pub open spec fn answer_actions(self, status: Status, reports: bool) -> Seq<ActionView> {
        if status == Status::Granted {
            if self.wanted {
                seq![ActionView::Patch(PatchView::Start)]
            } else {
                Seq::empty()
            }
        } else if reports {
            seq![ActionView::SetState(StateView::Denied)]
        } else {
            Seq::empty()
        }
    }

    /// The session after the OS answered a request.
    pub open spec fn after_answer(self, status: Status) -> Session {
        Session {
            question: if status == Status::Granted {
                Question::Granted
            } else {
                Question::Refused
            },
            ..self
        }
    }

    /// The session after the app chose a camera.
    pub open spec fn after_facing(self, facing: Facing) -> Session {
        Session { facing, ..self }
    }

    /// What follows when the app chooses a camera: only a change is sent.
    pub open spec fn facing_actions(self, facing: Facing) -> Seq<ActionView> {
        if facing == self.facing {
            Seq::empty()
        } else {
            seq![ActionView::Patch(PatchView::Facing(facing))]
        }
    }

    /// What follows a report of the native side.
    pub open spec fn report_actions(
        self,
        num: i32,
        text: Seq<char>,
        shown: Option<StateView>,
    ) -> Seq<ActionView> {
        if num == report::SURFACE {
            seq![ActionView::Patch(PatchView::Surface(text))]
        } else if num == report::PHOTO {
            match reported_photo(text) {
                Some(photo) if self.keeps_photo => seq![ActionView::SetPhoto(photo)],
                _ => Seq::empty(),
            }
        } else {
            match reported_state(num, text) {
                Some(state) => state_write(shown, state),
                None => Seq::empty(),
            }
        }
    }
}

/// One action, as a list.
fn only(action: Action) -> (actions: Vec<Action>)
    ensures
        actions_view(actions@) == seq![action@],
{
    let mut actions: Vec<Action> = Vec::new();
    actions.push(action);
    assert(actions_view(actions@) =~= seq![action@]);
    actions
}

/// No action at all.
fn nothing() -> (actions: Vec<Action>)
    ensures
        actions_view(actions@) == Seq::<ActionView>::empty(),
{
    let actions: Vec<Action> = Vec::new();
    assert(actions_view(actions@) =~= Seq::<ActionView>::empty());
    actions
}

/// Writes `next` to the state signal, unless there is none or it shows that already.
fn set_state(shown: Option<&CameraState>, next: CameraState) -> (actions: Vec<Action>)
    ensures
        actions_view(actions@) == state_write(shown_view(shown), next@),
{
    match shown {
        Some(state) => {
            if *state == next {
                nothing()
            } else {
                only(Action::SetState(next))
            }
        },
        None => nothing(),
    }
}

impl Session {
    /// Opens a session for a viewfinder whose app asked for `facing` and `active`, where `status`
    /// is the permission's, and says with which props the native camera is made.
    pub fn open_with(
        auto_request: bool,
        keeps_photo: bool,
        facing: Facing,
        active: bool,
        status: Status,
    ) -> (opened: (Session, CameraProps))
        ensures
            opened.0 == (Session {
                auto_request,
                question: Question::Unasked,
                keeps_photo,
                wanted: active,
                facing,
            }),
            opened.1 == opened.0.spec_props(status),
    {
        let held = status == Status::Granted;
        (
            Session {
                auto_request,
                question: Question::Unasked,
                keeps_photo,
                wanted: active,
                facing,
            },
            CameraProps { facing, active: active && held },
        )
    }

    /// Opens a session for `camera`, which shows `facing` and wants to run if `active`, under the
    /// status that the OS gives the permission.
    pub fn open(camera: &Camera, facing: Facing, active: bool) -> (opened: (Session, CameraProps))
        ensures
            opened.0 == (Session {
                auto_request: camera.auto_request,
                question: Question::Unasked,
                keeps_photo: camera.photo is Some,
                wanted: active,
                facing,
            }),
            exists|status: Status| #[trigger]
                call_ensures(camera_status, (), status) && opened.1 == opened.0.spec_props(status),
    {
        Session::open_with(
            camera.auto_request,
            camera.photo.is_some(),
            facing,
            active,
            camera_status(),
        )
    }

    /// Whether a viewfinder made with `props` still has to be started.
    pub fn needs_start(&self, props: CameraProps) -> (needs: bool)
        ensures
            needs == (self.wanted && !props.active),
    {
        self.wanted && !props.active
    }

    /// Starts the session under the permission's status: run where it is granted, ask where it is
    /// undecided, the app opted in and the OS was not asked before, and say in the state why it
    /// does not run otherwise.
    fn start_with(&mut self, status: Status, shown: Option<&CameraState>) -> (actions: Vec<Action>)
        ensures
            *final(self) == old(self).after_start(status),
            actions_view(actions@) == old(self).start_actions(status, shown_view(shown)),
    {
        match status {
            Status::Granted => only(Action::Patch(CameraPatch::Start)),
            Status::Prompt => {
                if !self.auto_request {
                    return set_state(shown, CameraState::Idle);
                }
                match self.question {
                    Question::Unasked => {
                        self.question = Question::Open;
                        let mut actions: Vec<Action> = set_state(shown, CameraState::Starting);
                        let ghost before = actions@;
                        actions.push(Action::Request);
                        assert(actions_view(actions@) =~= actions_view(before).push(
                            ActionView::Request,
                        ));
                        actions
                    },
                    Question::Open => set_state(shown, CameraState::Starting),
                    Question::Refused => set_state(shown, CameraState::Denied),
                    Question::Granted => set_state(shown, CameraState::Idle),
                }
            },
            Status::Denied | Status::Restricted => set_state(shown, CameraState::Denied),
            Status::Unsupported | Status::Unknown => set_state(shown, CameraState::Unavailable),
        }
    }

    /// What to do once the viewfinder made with `props` exists, where `status` is the permission's.
    pub fn opened_with(
        &mut self,
        props: CameraProps,
        status: Status,
        shown: Option<&CameraState>,
    ) -> (actions: Vec<Action>)
        ensures
            *final(self) == old(self).after_opened(props, status),
            actions_view(actions@) == old(self).opened_actions(props, status, shown_view(shown)),
    {
        if self.needs_start(props) {
            self.start_with(status, shown)
        } else {
            nothing()
        }
    }

    /// What to do once the viewfinder made with `props` exists. The permission is read anew where
    /// the session has to be started.
    pub fn opened(&mut self, props: CameraProps, shown: Option<&CameraState>) -> (actions: Vec<
        Action,
    >)
        ensures
            old(self).wanted && !props.active ==> exists|status: Status| #[trigger]
                call_ensures(camera_status, (), status) && *final(self) == old(self).after_opened(
                    props,
                    status,
                ) && actions_view(actions@) == old(self).opened_actions(
                    props,
                    status,
                    shown_view(shown),
                ),
            !(old(self).wanted && !props.active) ==> {
                &&& *final(self) == *old(self)
                &&& actions_view(actions@) == Seq::<ActionView>::empty()
            },
    {
        if self.needs_start(props) {
            let status: Status = camera_status();
            self.start_with(status, shown)
        } else {
            nothing()
        }
    }

    /// Takes note of whether the session should run, and says how that moves it.
    fn note_active(&mut self, now: bool) -> (moved: Move)
        ensures
            *final(self) == (Session { wanted: now, ..*old(self) }),
            moved == (if now == old(self).wanted {
                Move::Stay
            } else if now {
                Move::Start
            } else {
                Move::Stop
            }),
    {
        if now == self.wanted {
            Move::Stay
        } else {
            self.wanted = now;
            if now {
                Move::Start
            } else {
                Move::Stop
            }
        }
    }

    /// The app says whether the session should run, where `status` is the permission's. Only a
    /// change moves the session: starting a camera that runs would reconfigure it.
    pub fn active_changed_with(
        &mut self,
        now: bool,
        status: Status,
        shown: Option<&CameraState>,
    ) -> (actions: Vec<Action>)
        ensures
            *final(self) == old(self).after_active(now, status),
            actions_view(actions@) == old(self).active_actions(now, status, shown_view(shown)),
    {
        match self.note_active(now) {
            Move::Stay => nothing(),
            Move::Start => self.start_with(status, shown),
            Move::Stop => only(Action::Patch(CameraPatch::Stop)),
        }
    }

    /// The app says whether the session should run. The permission is read where it should start.
    pub fn active_changed(&mut self, now: bool, shown: Option<&CameraState>) -> (actions: Vec<
        Action,
    >)
        ensures
            now && !old(self).wanted ==> exists|status: Status| #[trigger]
                call_ensures(camera_status, (), status) && *final(self) == old(self).after_active(
                    now,
                    status,
                ) && actions_view(actions@) == old(self).active_actions(
                    now,
                    status,
                    shown_view(shown),
                ),
            !(now && !old(self).wanted) ==> {
                &&& *final(self) == (Session { wanted: now, ..*old(self) })
                &&& actions_view(actions@) == (if now == old(self).wanted {
                    Seq::empty()
                } else {
                    seq![ActionView::Patch(PatchView::Stop)]
                })
            },
    {
        match self.note_active(now) {
            Move::Stay => nothing(),
            Move::Start => {
                let status: Status = camera_status();
                self.start_with(status, shown)
            },
            Move::Stop => only(Action::Patch(CameraPatch::Stop)),
        }
    }

    /// The OS answers a request; `reports` is whether the app gave a state signal. A grant starts
    /// the session, unless the app stopped wanting it while the question was open.
    pub fn permission_answered(&mut self, status: Status, reports: bool) -> (actions: Vec<Action>)
        ensures
            *final(self) == old(self).after_answer(status),
            actions_view(actions@) == old(self).answer_actions(status, reports),
    {
        if status == Status::Granted {
            self.question = Question::Granted;
            if self.wanted {
                only(Action::Patch(CameraPatch::Start))
            } else {
                nothing()
            }
        } else {
            self.question = Question::Refused;
            if reports {
                only(Action::SetState(CameraState::Denied))
            } else {
                nothing()
            }
        }
    }

    /// The app chooses a camera.
    pub fn facing_changed(&mut self, facing: Facing) -> (actions: Vec<Action>)
        ensures
            *final(self) == old(self).after_facing(facing),
            actions_view(actions@) == old(self).facing_actions(facing),
    {
        if facing != self.facing {
            self.facing = facing;
            only(Action::Patch(CameraPatch::Facing(facing)))
        } else {
            nothing()
        }
    }

    /// The app fires its capture trigger: each fire takes one photo.
    pub fn capture_fired(&self) -> (actions: Vec<Action>)
        ensures
            actions_view(actions@) == seq![ActionView::Patch(PatchView::Capture)],
    {
        only(Action::Patch(CameraPatch::Capture))
    }

    /// The native side reports `num` with `text`.
    pub fn native_report(&self, num: i32, text: &str, shown: Option<&CameraState>) -> (actions: Vec<
        Action,
    >)
        ensures
            actions_view(actions@) == self.report_actions(num, text@, shown_view(shown)),
            num == report::SURFACE ==> actions_view(actions@) == seq![
                ActionView::Patch(PatchView::Surface(text@)),
            ],
    {
        if num == report::SURFACE {
            return only(Action::Patch(CameraPatch::Surface(text.to_owned())));
        }
        if num == report::PHOTO {
            if self.keeps_photo {
                if let Some(photo) = Photo::from_report(text) {
                    return only(Action::SetPhoto(photo));
                }
            }
            return nothing();
        }
        match CameraState::from_report(num, text) {
            Some(state) => set_state(shown, state),
            None => nothing(),
        }
    }
}

/// The views of a list of actions are the actions, one for one: each kind of action is seen as
/// itself, with what it carries.
pub proof fn law_actions_are_seen_as_they_are(actions: Seq<Action>, i: int)
    requires
        0 <= i < actions.len(),
    ensures
        actions_view(actions).len() == actions.len(),
        actions_view(actions)[i] is Patch <==> actions[i] is Patch,
        actions_view(actions)[i] is SetState <==> actions[i] is SetState,
        actions_view(actions)[i] is Request <==> actions[i] is Request,
        actions_view(actions)[i] is SetPhoto <==> actions[i] is SetPhoto,
        actions[i] matches Action::Patch(patch) ==> actions_view(actions)[i]->Patch_0 == patch@,
        actions[i] matches Action::SetState(state) ==> actions_view(actions)[i]->SetState_0
            == state@,
        actions[i] matches Action::SetPhoto(photo) ==> actions_view(actions)[i]->SetPhoto_0
            == photo,
{
}

/// What the app's state signal shows is seen as it is.
pub proof fn law_shown_state_is_seen_as_it_is(shown: Option<&CameraState>)
    ensures
        shown_view(shown) is Some <==> shown is Some,
        shown matches Some(state) ==> shown_view(shown) == Some(state@),
{
}

/// A session opens as the app described it, with the OS not asked; the native camera is made for
/// the app's camera, and runs from the first frame only where the app wants it and the permission
/// is held.
pub proof fn law_session_opens_as_described(
    auto_request: bool,
    keeps_photo: bool,
    facing: Facing,
    active: bool,
    status: Status,
    opened: (Session, CameraProps),
)
    requires
        call_ensures(Session::open_with, (auto_request, keeps_photo, facing, active, status), opened),
    ensures
        opened.0.auto_request == auto_request,
        opened.0.keeps_photo == keeps_photo,
        opened.0.wanted == active,
        opened.0.facing == facing,
        opened.0.question == Question::Unasked,
        opened.1.facing == facing,
        opened.1.active ==> active && status == Status::Granted,
        active && status == Status::Granted ==> opened.1.active,
{
}

/// A viewfinder's session asks only if the viewfinder does, keeps photos only if the viewfinder has
/// a place for them, and runs from the first frame only if the OS said that it may.
pub proof fn law_viewfinder_opens_its_session(
    camera: Camera,
    facing: Facing,
    active: bool,
    opened: (Session, CameraProps),
)
    requires
        call_ensures(Session::open, (&camera, facing, active), opened),
    ensures
        opened.0.auto_request == camera.auto_request,
        opened.0.keeps_photo <==> camera.photo is Some,
        opened.0.wanted == active,
        opened.0.facing == facing,
        opened.0.question == Question::Unasked,
        opened.1.facing == facing,
        opened.1.active ==> active && call_ensures(camera_status, (), Status::Granted),
        active && !opened.1.active ==> exists|status: Status|
            status != Status::Granted && #[trigger] call_ensures(camera_status, (), status),
{
}

/// A viewfinder has still to be started exactly if its session is wanted and the native camera was
/// not made running.
pub proof fn law_what_needs_a_start(session: Session, props: CameraProps, needs: bool)
    requires
        call_ensures(Session::needs_start, (&session, props), needs),
    ensures
        needs ==> session.wanted && !props.active,
        session.wanted && !needs ==> props.active,
{
}

/// Whether `actions` start a session rightly. On a grant the camera is told to run and nothing
/// else happens. Without one the camera is told nothing; the state signal, if there is one, comes to
/// show why, and is not written where it shows that; and the OS is asked, last, exactly if nobody
/// has decided, the app opted in and the OS was not asked before. Of the session, only how far the
/// question has come changes, and only by asking.
pub open spec fn starts_rightly(
    before: Session,
    after: Session,
    status: Status,
    shown: Option<StateView>,
    actions: Seq<ActionView>,
) -> bool {
    let asking = status == Status::Prompt && before.auto_request && before.question
        == Question::Unasked;
    let why = if status == Status::Denied || status == Status::Restricted {
        StateView::Denied
    } else if status == Status::Unsupported || status == Status::Unknown {
        StateView::Unavailable
    } else if !before.auto_request || before.question == Question::Granted {
        StateView::Idle
    } else if before.question == Question::Refused {
        StateView::Denied
    } else {
        StateView::Starting
    };
    let written = status != Status::Granted && shown is Some && shown != Some(why);
    &&& after.auto_request == before.auto_request
    &&& after.keeps_photo == before.keeps_photo
    &&& after.facing == before.facing
    &&& after.wanted
    &&& asking ==> after.question == Question::Open
    &&& !asking ==> after.question == before.question
    &&& status == Status::Granted ==> actions == seq![ActionView::Patch(PatchView::Start)]
    &&& written && asking ==> actions == seq![ActionView::SetState(why), ActionView::Request]
    &&& written && !asking ==> actions == seq![ActionView::SetState(why)]
    &&& !written && asking ==> actions == seq![ActionView::Request]
    &&& status != Status::Granted && !written && !asking ==> actions.len() == 0
}

/// Every start is right.
proof fn lemma_starts_rightly()
    ensures
        forall|before: Session, status: Status, shown: Option<StateView>|
            starts_rightly(
                before,
                Session { wanted: true, ..before }.after_start(status),
                status,
                shown,
                #[trigger] before.start_actions(status, shown),
            ),
{
    assert forall|before: Session, status: Status, shown: Option<StateView>| starts_rightly(
        before,
        Session { wanted: true, ..before }.after_start(status),
        status,
        shown,
        #[trigger] before.start_actions(status, shown),
    ) by {
        let actions = before.start_actions(status, shown);
        let why = before.undecided_state();
        if before.asks(status) {
            if shown is Some && shown != Some(why) {
                assert(actions =~= seq![ActionView::SetState(why), ActionView::Request]);
            } else {
                assert(actions =~= seq![ActionView::Request]);
            }
        }
    }
}

/// Once a viewfinder exists, its session is started if it still has to be, and otherwise nothing
/// happens and nothing changes.
pub proof fn law_opened_viewfinder_is_started_once(
    props: CameraProps,
    status: Status,
    shown: Option<&CameraState>,
)
    ensures
        forall|session: &mut Session, actions: Vec<Action>|
            #[trigger] call_ensures(Session::opened_with, (session, props, status, shown), actions)
                ==> if session.wanted && !props.active {
                starts_rightly(
                    *session,
                    *final(session),
                    status,
                    shown_view(shown),
                    actions_view(actions@),
                )
            } else {
                *final(session) == *session && actions@.len() == 0
            },
{
    lemma_starts_rightly();
    assert forall|session: &mut Session, actions: Vec<Action>|
        #[trigger] call_ensures(
            Session::opened_with,
            (session, props, status, shown),
            actions,
        ) && !(session.wanted && !props.active) implies actions@.len() == 0 by {
        assert(actions_view(actions@).len() == actions@.len());
    }
}

/// The same where the OS is asked for the status: what happens is what is right under a status that
/// the OS gave.
pub proof fn law_opened_viewfinder_asks_the_os(props: CameraProps, shown: Option<&CameraState>)
    ensures
        forall|session: &mut Session, actions: Vec<Action>|
            #[trigger] call_ensures(Session::opened, (session, props, shown), actions) ==> if session.wanted
                && !props.active {
                exists|status: Status|
                    {
                        &&& #[trigger] call_ensures(camera_status, (), status)
                        &&& starts_rightly(
                            *session,
                            *final(session),
                            status,
                            shown_view(shown),
                            actions_view(actions@),
                        )
                    }
            } else {
                *final(session) == *session && actions@.len() == 0
            },
{
    lemma_starts_rightly();
    assert forall|session: &mut Session, actions: Vec<Action>|
        #[trigger] call_ensures(Session::opened, (session, props, shown), actions) && !(
        session.wanted && !props.active) implies actions@.len() == 0 by {
        assert(actions_view(actions@).len() == actions@.len());
    }
}

/// Only a change of what the app wants moves the session: wanting it starts it, not wanting it any
/// more stops it with one command, and saying the same again does nothing.
pub proof fn law_only_a_change_moves_the_session(
    now: bool,
    status: Status,
    shown: Option<&CameraState>,
)
    ensures
        forall|session: &mut Session, actions: Vec<Action>|
            #[trigger] call_ensures(
                Session::active_changed_with,
                (session, now, status, shown),
                actions,
            ) ==> {
                &&& !session.wanted && now ==> starts_rightly(
                    *session,
                    *final(session),
                    status,
                    shown_view(shown),
                    actions_view(actions@),
                )
                &&& session.wanted && !now ==> {
                    &&& *final(session) == (Session { wanted: false, ..*session })
                    &&& actions_view(actions@) == seq![ActionView::Patch(PatchView::Stop)]
                }
                &&& session.wanted == now ==> *final(session) == *session && actions@.len() == 0
            },
{
    lemma_starts_rightly();
    assert forall|session: &mut Session, actions: Vec<Action>|
        #[trigger] call_ensures(
            Session::active_changed_with,
            (session, now, status, shown),
            actions,
        ) && session.wanted == now implies actions@.len() == 0 by {
        assert(actions_view(actions@).len() == actions@.len());
    }
}

/// The same where the OS is asked for the status.
pub proof fn law_a_change_to_wanted_asks_the_os(now: bool, shown: Option<&CameraState>)
    ensures
        forall|session: &mut Session, actions: Vec<Action>|
            #[trigger] call_ensures(Session::active_changed, (session, now, shown), actions) ==> {
                &&& !session.wanted && now ==> exists|status: Status|
                    {
                        &&& #[trigger] call_ensures(camera_status, (), status)
                        &&& starts_rightly(
                            *session,
                            *final(session),
                            status,
                            shown_view(shown),
                            actions_view(actions@),
                        )
                    }
                &&& session.wanted && !now ==> {
                    &&& *final(session) == (Session { wanted: false, ..*session })
                    &&& actions_view(actions@) == seq![ActionView::Patch(PatchView::Stop)]
                }
                &&& session.wanted == now ==> *final(session) == *session && actions@.len() == 0
            },
{
    lemma_starts_rightly();
    assert forall|session: &mut Session, actions: Vec<Action>|
        #[trigger] call_ensures(Session::active_changed, (session, now, shown), actions)
            && session.wanted == now implies actions@.len() == 0 by {
        assert(actions_view(actions@).len() == actions@.len());
    }
}

/// A grant starts a session that is wanted and touches nothing else; anything but a grant never
/// starts it, and reads as denied where there is a signal to read. Only the question is settled by
/// an answer, and each answer settles it.
pub proof fn law_answer_settles_the_question(status: Status, reports: bool)
    ensures
        forall|session: &mut Session, actions: Vec<Action>|
            #[trigger] call_ensures(
                Session::permission_answered,
                (session, status, reports),
                actions,
            ) ==> {
                let granted = status == Status::Granted;
                &&& final(session).question == Question::Granted <==> granted
                &&& final(session).question == Question::Refused <==> !granted
                &&& final(session).auto_request == session.auto_request
                &&& final(session).keeps_photo == session.keeps_photo
                &&& final(session).wanted == session.wanted
                &&& final(session).facing == session.facing
                &&& granted && session.wanted ==> actions_view(actions@) == seq![
                    ActionView::Patch(PatchView::Start),
                ]
                &&& !granted && reports ==> actions_view(actions@) == seq![
                    ActionView::SetState(StateView::Denied),
                ]
                &&& (granted && !session.wanted) || (!granted && !reports) ==> actions@.len() == 0
            },
{
    assert forall|session: &mut Session, actions: Vec<Action>|
        #[trigger] call_ensures(
            Session::permission_answered,
            (session, status, reports),
            actions,
        ) implies actions_view(actions@).len() == actions@.len() by {}
}

/// Choosing a camera is remembered and touches nothing else of the session, least of all whether
/// the OS was asked; a different camera is one command that names it, and the same one is none.
pub proof fn law_choosing_a_camera_changes_nothing_else(facing: Facing)
    ensures
        forall|session: &mut Session, actions: Vec<Action>|
            #[trigger] call_ensures(Session::facing_changed, (session, facing), actions) ==> {
                &&& final(session).facing == facing
                &&& final(session).auto_request == session.auto_request
                &&& final(session).question == session.question
                &&& final(session).keeps_photo == session.keeps_photo
                &&& final(session).wanted == session.wanted
                &&& facing != session.facing ==> actions_view(actions@) == seq![
                    ActionView::Patch(PatchView::Facing(facing)),
                ]
                &&& facing == session.facing ==> actions@.len() == 0
            },
{
    assert forall|session: &mut Session, actions: Vec<Action>|
        #[trigger] call_ensures(
            Session::facing_changed,
            (session, facing),
            actions,
        ) implies actions_view(actions@).len() == actions@.len() by {}
}

/// Each fire is one command to take a photo, whatever the session is like.
pub proof fn law_each_fire_is_one_capture(session: Session, actions: Vec<Action>)
    requires
        call_ensures(Session::capture_fired, (&session,), actions),
    ensures
        actions@.len() == 1,
        actions@[0] matches Action::Patch(CameraPatch::Capture),
{
    assert(actions_view(actions@).len() == actions@.len());
    assert(actions_view(actions@)[0] == actions@[0]@);
}

/// Every surface is forwarded as it was reported, whatever the session is like at that moment and
/// whatever the app shows.
pub proof fn law_every_surface_is_forwarded(
    session: Session,
    text: &str,
    shown: Option<&CameraState>,
    actions: Vec<Action>,
)
    requires
        call_ensures(Session::native_report, (&session, report::SURFACE, text, shown), actions),
    ensures
        actions@.len() == 1,
        actions@[0] matches Action::Patch(CameraPatch::Surface(id)) && id@ == text@,
{
    assert(actions_view(actions@).len() == actions@.len());
    assert(actions_view(actions@)[0] == actions@[0]@);
}

/// A photo report lands in the app's photo signal, as the photo it tells of, exactly if the app
/// gave a signal and the report tells of a photo; it does nothing else.
pub proof fn law_a_photo_lands_where_it_is_kept(
    session: Session,
    text: &str,
    shown: Option<&CameraState>,
    actions: Vec<Action>,
    told: Option<Photo>,
)
    requires
        call_ensures(Session::native_report, (&session, report::PHOTO, text, shown), actions),
        call_ensures(Photo::from_report, (text,), told),
    ensures
        session.keeps_photo && told is Some ==> {
            &&& actions@.len() == 1
            &&& actions@[0] matches Action::SetPhoto(photo) && photo == told->0
        },
        !session.keeps_photo || told is None ==> actions@.len() == 0,
{
    assert(actions_view(actions@).len() == actions@.len());
    if actions@.len() > 0 {
        assert(actions_view(actions@)[0] == actions@[0]@);
    }
}

/// A report of a state comes to be what the app's signal shows, with one write where it shows
/// something else and none where it shows that or there is no signal; a report of nothing known
/// does nothing. Which session it reaches makes no difference.
pub proof fn law_a_reported_state_is_shown(
    session: Session,
    num: i32,
    text: &str,
    shown: Option<&CameraState>,
    actions: Vec<Action>,
    told: Option<CameraState>,
)
    requires
        num != report::SURFACE,
        num != report::PHOTO,
        call_ensures(Session::native_report, (&session, num, text, shown), actions),
        call_ensures(CameraState::from_report, (num, text), told),
    ensures
        told is Some && shown is Some && shown->0@ != told->0@ ==> {
            &&& actions@.len() == 1
            &&& actions@[0] matches Action::SetState(next) && next@ == told->0@
        },
        told is Some && shown is Some && shown->0@ == told->0@ ==> actions@.len() == 0,
        told is None || shown is None ==> actions@.len() == 0,
{
    assert(actions_view(actions@).len() == actions@.len());
    if actions@.len() > 0 {
        assert(actions_view(actions@)[0] == actions@[0]@);
    }
}

} // verus!
