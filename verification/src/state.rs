//! What the camera is doing.
use vstd::prelude::*;
use crate::report;

verus! {

/// What the camera is doing, as the native side reports it.
#[derive(Debug, Eq)]
pub enum CameraState {
    /// No session: never started, stopped, or waiting for a permission the app has not asked for.
    Idle,
    /// The session is being configured and started.
    Starting,
    /// The preview is live and a capture will succeed.
    Running,
    /// This device has no usable camera.
    Unavailable,
    /// The permission was refused, or the OS restricts it, so the session cannot start.
    Denied,
    /// The native side failed; the text is its message.
    Error(String),
}

/// A [`CameraState`] with its text as a sequence of characters.
pub enum StateView {
    Idle,
    Starting,
    Running,
    Unavailable,
    Denied,
    Error(Seq<char>),
}

impl View for CameraState {
    type V = StateView;

    open spec fn view(&self) -> StateView {
        match self {
            CameraState::Idle => StateView::Idle,
            CameraState::Starting => StateView::Starting,
            CameraState::Running => StateView::Running,
            CameraState::Unavailable => StateView::Unavailable,
            CameraState::Denied => StateView::Denied,
            CameraState::Error(text) => StateView::Error(text@),
        }
    }
}

impl PartialEq for CameraState {
    fn eq(&self, other: &CameraState) -> (same: bool) {
        match (self, other) {
            (CameraState::Idle, CameraState::Idle) => true,
            (CameraState::Starting, CameraState::Starting) => true,
            (CameraState::Running, CameraState::Running) => true,
            (CameraState::Unavailable, CameraState::Unavailable) => true,
            (CameraState::Denied, CameraState::Denied) => true,
            (CameraState::Error(a), CameraState::Error(b)) => *a == *b,
            _ => false,
        }
    }
}

impl vstd::std_specs::cmp::PartialEqSpecImpl for CameraState {
    open spec fn obeys_eq_spec() -> bool {
        true
    }

    open spec fn eq_spec(&self, other: &CameraState) -> bool {
        self@ == other@
    }
}

impl Clone for CameraState {
    fn clone(&self) -> (copy: Self)
        ensures
            copy@ == self@,
    {
        match self {
            CameraState::Idle => CameraState::Idle,
            CameraState::Starting => CameraState::Starting,
            CameraState::Running => CameraState::Running,
            CameraState::Unavailable => CameraState::Unavailable,
            CameraState::Denied => CameraState::Denied,
            CameraState::Error(text) => CameraState::Error(text.clone()),
        }
    }
}

impl Default for CameraState {
    fn default() -> (state: Self)
        ensures
            state == CameraState::Idle,
    {
        CameraState::Idle
    }
}

impl StateView {
    /// The word for a state. An error is called that whatever its message.
    pub open spec fn spec_label(self) -> Seq<char> {
        match self {
            StateView::Idle => "idle"@,
            StateView::Starting => "starting"@,
            StateView::Running => "running"@,
            StateView::Unavailable => "unavailable"@,
            StateView::Denied => "denied"@,
            StateView::Error(_) => "error"@,
        }
    }
}

/// The state that a native report means, if it is a report of a state at all.
pub open spec fn reported_state(num: i32, text: Seq<char>) -> Option<StateView> {
    if num == report::STOPPED {
        Some(StateView::Idle)
    } else if num == report::STARTING {
        Some(StateView::Starting)
    } else if num == report::RUNNING {
        Some(StateView::Running)
    } else if num == report::UNAVAILABLE {
        Some(StateView::Unavailable)
    } else if num == report::DENIED {
        Some(StateView::Denied)
    } else if num == report::ERROR {
        Some(StateView::Error(text))
    } else {
        None
    }
}

impl CameraState {
    /// The locale-independent label a script can assert on.
    pub fn label(&self) -> (label: &'static str)
        ensures
            label@ == self@.spec_label(),
    {
        match self {
            CameraState::Idle => "idle",
            CameraState::Starting => "starting",
            CameraState::Running => "running",
            CameraState::Unavailable => "unavailable",
            CameraState::Denied => "denied",
            CameraState::Error(_) => "error",
        }
    }

    /// The state a native report means. [`report::PHOTO`] is not a state and maps to `None`.
    pub fn from_report(num: i32, text: &str) -> (state: Option<CameraState>)
        ensures
            match state {
                Some(state) => reported_state(num, text@) == Some(state@),
                None => reported_state(num, text@) is None,
            },
    {
        if num == report::STOPPED {
            Some(CameraState::Idle)
        } else if num == report::STARTING {
            Some(CameraState::Starting)
        } else if num == report::RUNNING {
            Some(CameraState::Running)
        } else if num == report::UNAVAILABLE {
            Some(CameraState::Unavailable)
        } else if num == report::DENIED {
            Some(CameraState::Denied)
        } else if num == report::ERROR {
            Some(CameraState::Error(text.to_owned()))
        } else {
            None
        }
    }
}

/// Exactly the codes from [`report::STOPPED`] to [`report::ERROR`] report a state; a photo and a
/// surface are none, and neither is a number that stands for nothing.
pub proof fn law_which_reports_are_states(num: i32, text: Seq<char>)
    ensures
        reported_state(num, text) is Some <==> report::STOPPED <= num <= report::ERROR,
        reported_state(report::PHOTO, text) is None,
        reported_state(report::SURFACE, text) is None,
{
}

/// Every state can be reported: for each there is a code and a text that mean it, and no other
/// code means it.
pub proof fn law_every_state_has_one_report(state: StateView) -> (report: (i32, Seq<char>))
    ensures
        reported_state(report.0, report.1) == Some(state),
        forall|num: i32, text: Seq<char>|
            reported_state(num, text) == Some(state) ==> num == report.0,
{
    match state {
        StateView::Idle => (report::STOPPED, Seq::empty()),
        StateView::Starting => (report::STARTING, Seq::empty()),
        StateView::Running => (report::RUNNING, Seq::empty()),
        StateView::Unavailable => (report::UNAVAILABLE, Seq::empty()),
        StateView::Denied => (report::DENIED, Seq::empty()),
        StateView::Error(text) => (report::ERROR, text),
    }
}

/// The label tells the states apart: only two errors share one, whatever their messages.
pub proof fn law_labels_tell_states_apart(a: StateView, b: StateView)
    ensures
        a.spec_label() == b.spec_label() <==> a == b || (a is Error && b is Error),
{
    reveal_strlit("idle");
    reveal_strlit("starting");
    reveal_strlit("running");
    reveal_strlit("unavailable");
    reveal_strlit("denied");
    reveal_strlit("error");
    assert("idle"@[0] == 'i');
    assert("starting"@[0] == 's');
    assert("running"@[0] == 'r');
    assert("unavailable"@[0] == 'u');
    assert("denied"@[0] == 'd');
    assert("error"@[0] == 'e');
}

/// A state is seen as itself: no two kinds of state look alike, and an error shows its message.
pub proof fn law_states_are_seen_as_they_are(state: CameraState)
    ensures
        state@ is Idle <==> state is Idle,
        state@ is Starting <==> state is Starting,
        state@ is Running <==> state is Running,
        state@ is Unavailable <==> state is Unavailable,
        state@ is Denied <==> state is Denied,
        state@ is Error <==> state is Error,
        state matches CameraState::Error(text) ==> state@ == StateView::Error(text@),
{
}

/// Two states are equal exactly if they are of one kind and, where they are errors, have one
/// message.
pub proof fn law_equal_states(a: CameraState, b: CameraState)
    ensures
        vstd::std_specs::cmp::PartialEqSpec::eq_spec(&a, &b) <==> {
            ||| a is Idle && b is Idle
            ||| a is Starting && b is Starting
            ||| a is Running && b is Running
            ||| a is Unavailable && b is Unavailable
            ||| a is Denied && b is Denied
            ||| a is Error && b is Error && a->Error_0@ == b->Error_0@
        },
{
}

/// Each code means one state: a report means the state exactly if it has its code. An error has the
/// text of the report as its message, all of it, and no other state depends on the text.
pub proof fn law_each_code_means_one_state(num: i32, text: &str, state: Option<CameraState>)
    requires
        call_ensures(CameraState::from_report, (num, text), state),
    ensures
        state is Some && state->0 is Idle <==> num == report::STOPPED,
        state is Some && state->0 is Starting <==> num == report::STARTING,
        state is Some && state->0 is Running <==> num == report::RUNNING,
        state is Some && state->0 is Unavailable <==> num == report::UNAVAILABLE,
        state is Some && state->0 is Denied <==> num == report::DENIED,
        state is Some && state->0 is Error <==> num == report::ERROR,
        num == report::ERROR ==> state->0->Error_0@ == text@,
        state is None <==> num < report::STOPPED || num > report::ERROR,
{
}

/// Each state has its word, and an error has the same one whatever its message.
pub proof fn law_words_for_states(state: CameraState, label: &'static str)
    requires
        call_ensures(CameraState::label, (&state,), label),
    ensures
        state is Idle <==> label@ == "idle"@,
        state is Starting <==> label@ == "starting"@,
        state is Running <==> label@ == "running"@,
        state is Unavailable <==> label@ == "unavailable"@,
        state is Denied <==> label@ == "denied"@,
        state is Error <==> label@ == "error"@,
{
    law_labels_tell_states_apart(state@, StateView::Idle);
    law_labels_tell_states_apart(state@, StateView::Starting);
    law_labels_tell_states_apart(state@, StateView::Running);
    law_labels_tell_states_apart(state@, StateView::Unavailable);
    law_labels_tell_states_apart(state@, StateView::Denied);
    law_labels_tell_states_apart(state@, StateView::Error(Seq::empty()));
}

/// A copy of a state is that state, and what a state is to begin with is idle.
pub proof fn law_copied_and_first_states(state: CameraState, copy: CameraState, first: CameraState)
    requires
        call_ensures(CameraState::clone, (&state,), copy),
        call_ensures(CameraState::default, (), first),
    ensures
        copy@ == state@,
        first is Idle,
{
}

} // verus!
