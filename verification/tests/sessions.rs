use std::path::PathBuf;

use day_part_permissions::Permission;
use day_piece_camera::{
    camera, report, Action, Camera, CameraBuilder, CameraPatch, CameraProps, CameraState, Facing,
    Photo, Question, Session, Status, KIND,
};
use day_pieces::Reactive;
use day_reactive::{Signal, Trigger};

const NOT_GRANTED: [Status; 5] =
    [Status::Denied, Status::Prompt, Status::Restricted, Status::Unsupported, Status::Unknown];

fn start() -> Action {
    Action::Patch(CameraPatch::Start)
}

fn stop() -> Action {
    Action::Patch(CameraPatch::Stop)
}

fn session(auto_request: bool, wanted: bool) -> Session {
    Session {
        auto_request,
        question: Question::Unasked,
        keeps_photo: true,
        wanted,
        facing: Facing::Back,
    }
}

#[test]
fn camera_starts_out_with_the_rear_camera_running() {
    let camera = camera();
    assert!(matches!(camera.facing, Reactive::Const(Facing::Back)));
    assert!(matches!(camera.active, Reactive::Const(true)));
    assert!(!camera.auto_request);
    assert!(camera.capture.is_none() && camera.state.is_none() && camera.photo.is_none());
    assert_eq!(KIND, "day.piece.camera");
}

#[test]
fn builders_set_what_they_name() {
    let state = Signal::new(CameraState::Idle);
    let photo: Signal<Option<Photo>> = Signal::new(None);
    let built = camera()
        .facing(Reactive::Const(Facing::Front))
        .active(Reactive::Const(false))
        .auto_request()
        .capture(Trigger::new())
        .state(state)
        .photo(photo);
    assert!(matches!(built.facing, Reactive::Const(Facing::Front)));
    assert!(matches!(built.active, Reactive::Const(false)));
    assert!(built.auto_request);
    assert!(built.capture.is_some() && built.state.is_some() && built.photo.is_some());
}

#[test]
fn builders_chain_in_any_order() {
    fn through<B: CameraBuilder>(holder: B) -> B {
        holder.auto_request().active(Reactive::Const(false)).facing(Reactive::Const(Facing::Front))
    }
    let a: Camera = through(camera()).capture(Trigger::new());
    let b: Camera = through(camera().capture(Trigger::new()));
    for camera in [a, b] {
        assert!(matches!(camera.facing, Reactive::Const(Facing::Front)));
        assert!(matches!(camera.active, Reactive::Const(false)));
        assert!(camera.auto_request && camera.capture.is_some());
        assert!(camera.state.is_none() && camera.photo.is_none());
    }
}

#[test]
fn first_frame_runs_only_with_the_permission() {
    let (mut opened, props) =
        Session::open_with(true, false, Facing::Front, true, Status::Granted);
    assert_eq!(
        opened,
        Session { keeps_photo: false, facing: Facing::Front, ..session(true, true) }
    );
    assert_eq!(props, CameraProps { facing: Facing::Front, active: true });
    assert!(!opened.needs_start(props));
    assert_eq!(opened.opened_with(props, Status::Granted, None), vec![]);

    for status in NOT_GRANTED {
        let (opened, props) = Session::open_with(true, false, Facing::Back, true, status);
        assert_eq!(props, CameraProps::default());
        assert!(opened.needs_start(props));
    }
    let (opened, props) = Session::open_with(true, true, Facing::Back, false, Status::Granted);
    assert!(!props.active && !opened.needs_start(props));
}

#[test]
fn opening_reads_the_permission() {
    let granted =
        day_part_permissions::status(Permission::Camera) == day_part_permissions::Status::Granted;
    let viewfinder = camera().auto_request().photo(Signal::new(None));
    let (mut opened, props) = Session::open(&viewfinder, Facing::Front, true);
    assert_eq!(opened, Session { facing: Facing::Front, ..session(true, true) });
    assert_eq!(props, CameraProps { facing: Facing::Front, active: granted });

    let late = CameraProps { facing: Facing::Front, active: false };
    assert_eq!(opened.opened(late, None) == vec![start()], granted);
    assert_eq!(opened.opened(CameraProps { active: true, ..late }, None), vec![]);
    let mut idle = Session { wanted: false, ..opened };
    let moved = idle.active_changed(true, None);
    assert_eq!(moved == vec![start()], granted);
    assert!(idle.wanted);
    assert_eq!(idle.active_changed(true, None), vec![]);
    assert_eq!(idle.active_changed(false, None), vec![stop()]);
    assert!(!idle.wanted);
}

#[test]
fn state_says_why_a_wanted_session_does_not_run() {
    let props = CameraProps::default();
    let start_under = |auto: bool, status: Status, shown: Option<&CameraState>| {
        session(auto, true).opened_with(props, status, shown)
    };
    let running = CameraState::Running;
    assert_eq!(start_under(false, Status::Granted, Some(&running)), vec![start()]);
    assert_eq!(
        start_under(false, Status::Prompt, Some(&running)),
        vec![Action::SetState(CameraState::Idle)]
    );
    assert_eq!(
        start_under(true, Status::Prompt, Some(&running)),
        vec![Action::SetState(CameraState::Starting), Action::Request]
    );
    for status in [Status::Denied, Status::Restricted] {
        assert_eq!(
            start_under(true, status, Some(&running)),
            vec![Action::SetState(CameraState::Denied)]
        );
    }
    for status in [Status::Unsupported, Status::Unknown] {
        assert_eq!(
            start_under(true, status, Some(&running)),
            vec![Action::SetState(CameraState::Unavailable)]
        );
    }
}

#[test]
fn state_is_written_only_on_a_change_and_only_where_it_is_bound() {
    let props = CameraProps::default();
    let mut wanted = session(true, true);
    assert_eq!(wanted.opened_with(props, Status::Denied, Some(&CameraState::Denied)), vec![]);
    assert_eq!(wanted.opened_with(props, Status::Denied, None), vec![]);
    assert_eq!(
        wanted.opened_with(props, Status::Prompt, Some(&CameraState::Starting)),
        vec![Action::Request]
    );
    assert_eq!(
        session(true, true).opened_with(props, Status::Prompt, None),
        vec![Action::Request]
    );
    let shown = CameraState::Error("boom".into());
    assert_eq!(wanted.native_report(report::ERROR, "boom", Some(&shown)), vec![]);
    assert_eq!(
        wanted.native_report(report::ERROR, "bang", Some(&shown)),
        vec![Action::SetState(CameraState::Error("bang".into()))]
    );
    assert_eq!(wanted.native_report(report::RUNNING, "", None), vec![]);
}

#[test]
fn only_a_change_of_active_moves_the_session() {
    let mut s = session(false, true);
    assert_eq!(s.active_changed_with(true, Status::Granted, None), vec![]);
    assert_eq!(s.active_changed_with(false, Status::Granted, None), vec![stop()]);
    assert_eq!(s.active_changed_with(false, Status::Granted, None), vec![]);
    assert_eq!(s.active_changed_with(true, Status::Granted, None), vec![start()]);
    assert_eq!(s, session(false, true));
}

#[test]
fn the_os_is_asked_only_for_an_app_that_opted_in() {
    for status in NOT_GRANTED {
        let mut s = session(false, false);
        let actions = s.active_changed_with(true, status, Some(&CameraState::Running));
        assert!(!actions.contains(&Action::Request));
        assert!(!actions.contains(&start()));
    }
    let mut s = session(true, false);
    assert_eq!(s.active_changed_with(true, Status::Prompt, None), vec![Action::Request]);
}

#[test]
fn a_grant_starts_the_session_and_a_refusal_reads_as_denied() {
    let mut s = session(true, true);
    assert_eq!(s.permission_answered(Status::Granted, true), vec![start()]);
    assert_eq!(s.question, Question::Granted);
    for status in NOT_GRANTED {
        let mut s = Session { question: Question::Open, ..session(true, true) };
        assert_eq!(
            s.permission_answered(status, true),
            vec![Action::SetState(CameraState::Denied)]
        );
        assert_eq!(s.permission_answered(status, false), vec![]);
        assert_eq!(s.question, Question::Refused);
    }
}

#[test]
fn the_os_is_asked_once_however_often_the_session_is_wanted() {
    let (mut s, props) = Session::open_with(true, true, Facing::Back, true, Status::Prompt);
    let mut shown = CameraState::Idle;
    let mut actions = s.opened_with(props, Status::Prompt, Some(&shown));
    assert_eq!(actions, vec![Action::SetState(CameraState::Starting), Action::Request]);
    shown = CameraState::Starting;
    for _ in 0..3 {
        actions.extend(s.active_changed_with(false, Status::Prompt, Some(&shown)));
        actions.extend(s.active_changed_with(true, Status::Prompt, Some(&shown)));
    }
    assert_eq!(actions.iter().filter(|action| **action == Action::Request).count(), 1);
    assert_eq!(s.question, Question::Open);
}

#[test]
fn an_undecided_permission_that_was_asked_for_reads_as_its_answer() {
    let idle = CameraState::Idle;
    let again = |question: Question| {
        let mut s = Session { question, ..session(true, false) };
        let actions = s.active_changed_with(true, Status::Prompt, Some(&idle));
        assert_eq!(s, Session { question, ..session(true, true) });
        actions
    };
    assert_eq!(again(Question::Open), vec![Action::SetState(CameraState::Starting)]);
    assert_eq!(again(Question::Refused), vec![Action::SetState(CameraState::Denied)]);
    assert_eq!(again(Question::Granted), vec![]);
}

#[test]
fn a_grant_does_not_start_a_session_that_is_no_longer_wanted() {
    let mut s = session(true, false);
    assert_eq!(s.active_changed_with(true, Status::Prompt, None), vec![Action::Request]);
    assert_eq!(s.active_changed_with(false, Status::Prompt, None), vec![stop()]);
    assert_eq!(s.permission_answered(Status::Granted, true), vec![]);
    assert_eq!(s.active_changed_with(true, Status::Granted, None), vec![start()]);
}

#[test]
fn only_a_change_of_camera_is_sent() {
    let mut s = session(false, true);
    assert_eq!(s.facing_changed(Facing::Back), vec![]);
    assert_eq!(
        s.facing_changed(Facing::Front),
        vec![Action::Patch(CameraPatch::Facing(Facing::Front))]
    );
    assert_eq!(s.facing, Facing::Front);
    assert_eq!(s.facing_changed(Facing::Front), vec![]);
}

#[test]
fn a_row_of_values_sends_its_changes_in_order() {
    let (mut s, props) = Session::open_with(false, true, Facing::Back, true, Status::Granted);
    let mut sent = s.opened_with(props, Status::Granted, None);
    for now in [true, false, false, true, true, false] {
        sent.extend(s.active_changed_with(now, Status::Granted, None));
    }
    assert_eq!(sent, vec![stop(), start(), stop()]);

    let face = |facing: Facing| Action::Patch(CameraPatch::Facing(facing));
    let mut sent = vec![];
    for facing in [Facing::Back, Facing::Front, Facing::Front, Facing::Back] {
        sent.extend(s.facing_changed(facing));
    }
    assert_eq!(sent, vec![face(Facing::Front), face(Facing::Back)]);
}

#[test]
fn every_fire_takes_one_photo() {
    let s = session(false, true);
    assert_eq!(s.capture_fired(), vec![Action::Patch(CameraPatch::Capture)]);
    assert_eq!(s.capture_fired(), vec![Action::Patch(CameraPatch::Capture)]);
}

#[test]
fn native_reports_go_where_they_belong() {
    let s = session(false, true);
    let idle = CameraState::Idle;
    assert_eq!(
        s.native_report(report::SURFACE, "42", Some(&idle)),
        vec![Action::Patch(CameraPatch::Surface("42".into()))]
    );
    let photo = Photo { path: PathBuf::from("/p.jpg"), width: 4, height: 3 };
    assert_eq!(
        s.native_report(report::PHOTO, "/p.jpg\u{1f}4\u{1f}3", Some(&idle)),
        vec![Action::SetPhoto(photo)]
    );
    assert_eq!(s.native_report(report::PHOTO, "", Some(&idle)), vec![]);
    let careless = Session { keeps_photo: false, ..s };
    assert_eq!(careless.native_report(report::PHOTO, "/p.jpg", Some(&idle)), vec![]);
    assert_eq!(
        s.native_report(report::STARTING, "", Some(&idle)),
        vec![Action::SetState(CameraState::Starting)]
    );
    assert_eq!(s.native_report(report::STOPPED, "", Some(&idle)), vec![]);
    assert_eq!(s.native_report(8, "x", Some(&idle)), vec![]);
}
