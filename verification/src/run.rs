//! What holds of a viewfinder over its whole life, whatever happens to it and in whatever order.
use vstd::prelude::*;
use crate::facing::Facing;
use crate::patch::{CameraProps, PatchView};
use crate::permission::Status;
use crate::photo::{reported_photo, Photo};
use crate::report;
use crate::session::{state_write, ActionView, Question, Session};
use crate::state::{reported_state, StateView};

verus! {

/// One thing that can happen to a viewfinder, with what the OS says of the permission where that
/// is asked.
pub enum Event {
    /// The viewfinder made with `props` exists.
    Opened { props: CameraProps, status: Status },
    /// The app says whether the session should run.
    Active { now: bool, status: Status },
    /// The OS answers a request.
    Answered { status: Status },
    /// The app chooses a camera.
    Facing { facing: Facing },
    /// The app fires its capture trigger.
    Capture,
    /// The native side reports.
    Reported { num: i32, text: Seq<char> },
}

/// An event, and what the app's state signal shows when it happens, if the app gave one.
pub struct Moment {
    pub event: Event,
    pub shown: Option<StateView>,
}

/// The actions a session answers a moment with.
pub open spec fn actions_at(session: Session, moment: Moment) -> Seq<ActionView> {
    match moment.event {
        Event::Opened { props, status } => session.opened_actions(props, status, moment.shown),
        Event::Active { now, status } => session.active_actions(now, status, moment.shown),
        Event::Answered { status } => session.answer_actions(status, moment.shown is Some),
        Event::Facing { facing } => session.facing_actions(facing),
        Event::Capture => seq![ActionView::Patch(PatchView::Capture)],
        Event::Reported { num, text } => session.report_actions(num, text, moment.shown),
    }
}

/// The session after a moment.
pub open spec fn session_after(session: Session, moment: Moment) -> Session {
    match moment.event {
        Event::Opened { props, status } => session.after_opened(props, status),
        Event::Active { now, status } => session.after_active(now, status),
        Event::Answered { status } => session.after_answer(status),
        Event::Facing { facing } => session.after_facing(facing),
        _ => session,
    }
}

/// Whether a moment brings the news that the permission is granted.
pub open spec fn brings_grant(moment: Moment) -> bool {
    match moment.event {
        Event::Opened { status, .. } => status == Status::Granted,
        Event::Active { status, .. } => status == Status::Granted,
        Event::Answered { status } => status == Status::Granted,
        _ => false,
    }
}

/// What the native camera was last told.
pub struct Told {
    /// To run, and not to stop since.
    pub run: bool,
    /// Which camera to show.
    pub facing: Facing,
}

/// What the native camera was last told, after one more action.
pub open spec fn told_by(told: Told, action: ActionView) -> Told {
    match action {
        ActionView::Patch(PatchView::Start) => Told { run: true, ..told },
        ActionView::Patch(PatchView::Stop) => Told { run: false, ..told },
        ActionView::Patch(PatchView::Facing(facing)) => Told { facing, ..told },
        _ => told,
    }
}

/// What the native camera was last told, after a list of actions.
pub open spec fn told_by_all(told: Told, actions: Seq<ActionView>) -> Told
    decreases actions.len(),
{
    if actions.len() == 0 {
        told
    } else {
        told_by(told_by_all(told, actions.drop_last()), actions.last())
    }
}

/// How many of a list of actions ask the OS for the permission.
pub open spec fn requests_in(actions: Seq<ActionView>) -> nat
    decreases actions.len(),
{
    if actions.len() == 0 {
        0
    } else {
        requests_in(actions.drop_last()) + (if actions.last() is Request {
            1nat
        } else {
            0
        })
    }
}

/// The patches in a list of actions, in order.
pub open spec fn patches_in(actions: Seq<ActionView>) -> Seq<PatchView>
    decreases actions.len(),
{
    if actions.len() == 0 {
        Seq::empty()
    } else {
        let before = patches_in(actions.drop_last());
        match actions.last() {
            ActionView::Patch(patch) => before.push(patch),
            _ => before,
        }
    }
}

/// A viewfinder in the course of its life.
pub struct Life {
    pub session: Session,
    pub told: Told,
    /// The patches that the native camera was sent, in order.
    pub sent: Seq<PatchView>,
    /// How often the OS was asked for the permission.
    pub requests: nat,
    /// Whether the permission was ever found granted.
    pub granted: bool,
}

/// A viewfinder as it is made, where `status` is the permission's.
pub open spec fn born(session: Session, status: Status) -> Life {
    let props = session.spec_props(status);
    Life {
        session,
        told: Told { run: props.active, facing: props.facing },
        sent: Seq::empty(),
        requests: 0,
        granted: status == Status::Granted,
    }
}

/// A viewfinder after one more moment.
pub open spec fn lived(life: Life, moment: Moment) -> Life {
    Life {
        session: session_after(life.session, moment),
        told: told_by_all(life.told, actions_at(life.session, moment)),
        sent: life.sent + patches_in(actions_at(life.session, moment)),
        requests: life.requests + requests_in(actions_at(life.session, moment)),
        granted: life.granted || brings_grant(moment),
    }
}

/// A viewfinder after a row of moments.
pub open spec fn life_after(session: Session, status: Status, moments: Seq<Moment>) -> Life
    decreases moments.len(),
{
    if moments.len() == 0 {
        born(session, status)
    } else {
        lived(life_after(session, status, moments.drop_last()), moments.last())
    }
}

/// The shape of what a session answers a moment with: nothing, one action, or a state and then the
/// request.
proof fn lemma_shape_at(session: Session, moment: Moment)
    ensures
        ({
            let actions = actions_at(session, moment);
            &&& actions.len() <= 2
            &&& actions.len() == 1 ==> actions.drop_last() == Seq::<ActionView>::empty()
            &&& actions.len() == 2 ==> {
                &&& actions.last() == ActionView::Request
                &&& actions.drop_last() == seq![ActionView::SetState(session.undecided_state())]
                &&& actions.drop_last().drop_last() == Seq::<ActionView>::empty()
            }
        }),
{
    let actions = actions_at(session, moment);
    if actions.len() == 1 {
        assert(actions.drop_last() =~= Seq::empty());
    } else if actions.len() == 2 {
        let first = state_write(moment.shown, session.undecided_state());
        assert(actions.drop_last() =~= first);
        assert(first.drop_last() =~= Seq::empty());
    }
}

/// What the actions of one moment tell the native camera.
proof fn lemma_told_at(told: Told, session: Session, moment: Moment)
    ensures
        ({
            let actions = actions_at(session, moment);
            let after = told_by_all(told, actions);
            let next = session_after(session, moment);
            &&& after.run ==> told.run || (brings_grant(moment) && next.wanted)
            &&& !next.wanted && (told.run ==> session.wanted) ==> !after.run
            &&& told.facing == session.facing ==> after.facing == next.facing
        }),
{
    reveal_with_fuel(told_by_all, 3);
    lemma_shape_at(session, moment);
}

/// The session runs only while the app wants it and only on a permission: whatever happens, a
/// native camera that was last told to run is one that the app wants to run, and whose permission
/// was found granted.
pub proof fn law_runs_only_while_wanted_and_granted(
    session: Session,
    status: Status,
    moments: Seq<Moment>,
)
    ensures
        ({
            let life = life_after(session, status, moments);
            life.told.run ==> life.session.wanted && life.granted
        }),
    decreases moments.len(),
{
    if moments.len() > 0 {
        let before = life_after(session, status, moments.drop_last());
        law_runs_only_while_wanted_and_granted(session, status, moments.drop_last());
        lemma_told_at(before.told, before.session, moments.last());
    }
}

/// A session that is not wanted does not run: once the app says so, the camera is told to stop,
/// and nothing but the app wanting it again tells it to run.
pub proof fn law_unwanted_session_is_stopped(
    session: Session,
    status: Status,
    moments: Seq<Moment>,
    now_status: Status,
    shown: Option<StateView>,
)
    ensures
        ({
            let off = Moment { event: Event::Active { now: false, status: now_status }, shown };
            !life_after(session, status, moments.push(off)).told.run
        }),
{
    let off = Moment { event: Event::Active { now: false, status: now_status }, shown };
    law_runs_only_while_wanted_and_granted(session, status, moments.push(off));
    assert(moments.push(off).drop_last() =~= moments);
}

/// The session does run where it may: a viewfinder that finds the permission granted, when it is
/// made or right after, is told to run exactly if it is wanted; and later the app's wanting it on a
/// granted permission, or a grant that finds it wanted, tells it to run.
pub proof fn law_granted_and_wanted_session_runs(
    session: Session,
    status: Status,
    moments: Seq<Moment>,
    shown: Option<StateView>,
)
    ensures
        ({
            let props = session.spec_props(status);
            let opened = Moment {
                event: Event::Opened { props, status: Status::Granted },
                shown,
            };
            let active = Moment {
                event: Event::Active { now: true, status: Status::Granted },
                shown,
            };
            let answered = Moment { event: Event::Answered { status: Status::Granted }, shown };
            let before = life_after(session, status, moments);
            &&& born(session, Status::Granted).told.run == session.wanted
            &&& lived(born(session, status), opened).told.run == session.wanted
            &&& !before.session.wanted ==> lived(before, active).told.run
            &&& before.session.wanted ==> lived(before, answered).told.run
        }),
{
    reveal_with_fuel(told_by_all, 2);
    assert(seq![ActionView::Patch(PatchView::Start)].drop_last() =~= Seq::empty());
}

/// The native camera shows the camera the app chose last, from the first frame on.
pub proof fn law_shows_the_chosen_camera(session: Session, status: Status, moments: Seq<Moment>)
    ensures
        ({
            let life = life_after(session, status, moments);
            life.told.facing == life.session.facing
        }),
    decreases moments.len(),
{
    if moments.len() > 0 {
        let before = life_after(session, status, moments.drop_last());
        law_shows_the_chosen_camera(session, status, moments.drop_last());
        lemma_told_at(before.told, before.session, moments.last());
    }
}

/// What the app chose is not forgotten: whether to ask for the permission and whether photos are
/// kept stay as they were, and what is wanted is what the app said last. Nor is it forgotten that
/// the OS was asked.
pub proof fn law_choices_stay(session: Session, moment: Moment)
    ensures
        ({
            let next = session_after(session, moment);
            &&& next.auto_request == session.auto_request
            &&& next.keeps_photo == session.keeps_photo
            &&& session.question != Question::Unasked ==> next.question != Question::Unasked
            &&& next.wanted == (if let Event::Active { now, .. } = moment.event {
                now
            } else {
                session.wanted
            })
            &&& next.facing == (if let Event::Facing { facing } = moment.event {
                facing
            } else {
                session.facing
            })
        }),
{
}

/// The camera is told to start only by a moment that finds the permission granted and leaves the
/// session wanted.
pub proof fn law_start_needs_grant(session: Session, moment: Moment)
    ensures
        actions_at(session, moment).contains(ActionView::Patch(PatchView::Start)) ==> {
            &&& brings_grant(moment)
            &&& session_after(session, moment).wanted
        },
{
}

/// The OS is asked only for an app that opted in, when the session is wanted, nobody has decided
/// and the OS was not asked before; and then it is remembered that it was.
pub proof fn law_asks_only_when_opted_in(session: Session, moment: Moment)
    ensures
        actions_at(session, moment).contains(ActionView::Request) ==> {
            &&& session.auto_request
            &&& session.question == Question::Unasked
            &&& session_after(session, moment).question == Question::Open
            &&& session_after(session, moment).wanted
            &&& match moment.event {
                Event::Opened { status, .. } => status == Status::Prompt,
                Event::Active { status, .. } => status == Status::Prompt,
                _ => false,
            }
        },
{
}

/// How often the actions of one moment ask the OS.
proof fn lemma_requests_at(session: Session, moment: Moment)
    ensures
        ({
            let count = requests_in(actions_at(session, moment));
            let next = session_after(session, moment);
            &&& count <= 1
            &&& count == 1 ==> session.auto_request && session.question == Question::Unasked
                && next.question != Question::Unasked
            &&& session.question != Question::Unasked ==> next.question != Question::Unasked
            &&& next.auto_request == session.auto_request
        }),
{
    reveal_with_fuel(requests_in, 3);
    lemma_shape_at(session, moment);
}

/// The OS is asked at most once in a viewfinder's whole life, however often the app stops wanting
/// the session and wants it again; and never for an app that did not opt in.
pub proof fn law_asks_at_most_once(session: Session, status: Status, moments: Seq<Moment>)
    ensures
        ({
            let life = life_after(session, status, moments);
            &&& life.requests <= 1
            &&& life.requests == 1 ==> session.auto_request && life.session.question
                != Question::Unasked
            &&& life.session.auto_request == session.auto_request
        }),
    decreases moments.len(),
{
    if moments.len() > 0 {
        let before = life_after(session, status, moments.drop_last());
        law_asks_at_most_once(session, status, moments.drop_last());
        lemma_requests_at(before.session, moments.last());
    }
}

/// An app that opted in has the OS asked the first time the session is wanted and nobody has
/// decided, whether that is from the first frame or from a later change.
pub proof fn law_asks_when_first_wanted(
    session: Session,
    props: CameraProps,
    shown: Option<StateView>,
)
    requires
        session.auto_request,
        session.question == Question::Unasked,
    ensures
        session.wanted && !props.active ==> actions_at(
            session,
            Moment { event: Event::Opened { props, status: Status::Prompt }, shown },
        ).last() == ActionView::Request,
        !session.wanted ==> actions_at(
            session,
            Moment { event: Event::Active { now: true, status: Status::Prompt }, shown },
        ).last() == ActionView::Request,
{
}

/// Reading the source of `active` again without a change does nothing, so a camera that runs is
/// not started anew; the same holds of the chosen camera.
pub proof fn law_only_changes_are_sent(
    session: Session,
    status: Status,
    shown: Option<StateView>,
)
    ensures
        actions_at(
            session,
            Moment { event: Event::Active { now: session.wanted, status }, shown },
        ).len() == 0,
        actions_at(
            session,
            Moment { event: Event::Facing { facing: session.facing }, shown },
        ).len() == 0,
{
}

/// The value that was given last: the last of `row`, or `first` where `row` is empty.
pub open spec fn latest<A>(first: A, row: Seq<A>) -> A {
    if row.len() == 0 {
        first
    } else {
        row.last()
    }
}

/// The changes in a row of values that begins after `first`: each value that differs from the one
/// before it, in order.
pub open spec fn changes<A>(first: A, row: Seq<A>) -> Seq<A>
    decreases row.len(),
{
    if row.len() == 0 {
        Seq::empty()
    } else {
        let before = changes(first, row.drop_last());
        if row.last() == latest(first, row.drop_last()) {
            before
        } else {
            before.push(row.last())
        }
    }
}

/// What the app said of whether the session should run, in order.
pub open spec fn actives_in(moments: Seq<Moment>) -> Seq<bool>
    decreases moments.len(),
{
    if moments.len() == 0 {
        Seq::empty()
    } else {
        let before = actives_in(moments.drop_last());
        match moments.last().event {
            Event::Active { now, .. } => before.push(now),
            _ => before,
        }
    }
}

/// The cameras that the app chose, in order.
pub open spec fn facings_in(moments: Seq<Moment>) -> Seq<Facing>
    decreases moments.len(),
{
    if moments.len() == 0 {
        Seq::empty()
    } else {
        let before = facings_in(moments.drop_last());
        match moments.last().event {
            Event::Facing { facing } => before.push(facing),
            _ => before,
        }
    }
}

/// How often the app fired its capture trigger.
pub open spec fn fires_in(moments: Seq<Moment>) -> nat
    decreases moments.len(),
{
    if moments.len() == 0 {
        0
    } else {
        fires_in(moments.drop_last()) + (if moments.last().event is Capture {
            1nat
        } else {
            0
        })
    }
}

/// The starts and stops among a row of patches, in order: true for a start, false for a stop.
pub open spec fn runs_sent(sent: Seq<PatchView>) -> Seq<bool>
    decreases sent.len(),
{
    if sent.len() == 0 {
        Seq::empty()
    } else {
        let before = runs_sent(sent.drop_last());
        match sent.last() {
            PatchView::Start => before.push(true),
            PatchView::Stop => before.push(false),
            _ => before,
        }
    }
}

/// The cameras that a row of patches chooses, in order.
pub open spec fn facings_sent(sent: Seq<PatchView>) -> Seq<Facing>
    decreases sent.len(),
{
    if sent.len() == 0 {
        Seq::empty()
    } else {
        let before = facings_sent(sent.drop_last());
        match sent.last() {
            PatchView::Facing(facing) => before.push(facing),
            _ => before,
        }
    }
}

/// The surfaces that the native side reported, in order.
pub open spec fn surfaces_in(moments: Seq<Moment>) -> Seq<Seq<char>>
    decreases moments.len(),
{
    if moments.len() == 0 {
        Seq::empty()
    } else {
        let before = surfaces_in(moments.drop_last());
        match moments.last().event {
            Event::Reported { num, text } if num == report::SURFACE => before.push(text),
            _ => before,
        }
    }
}

/// The surfaces that a row of patches hands over, in order.
pub open spec fn surfaces_sent(sent: Seq<PatchView>) -> Seq<Seq<char>>
    decreases sent.len(),
{
    if sent.len() == 0 {
        Seq::empty()
    } else {
        let before = surfaces_sent(sent.drop_last());
        match sent.last() {
            PatchView::Surface(id) => before.push(id),
            _ => before,
        }
    }
}

/// How many of a row of patches take a photo.
pub open spec fn captures_sent(sent: Seq<PatchView>) -> nat
    decreases sent.len(),
{
    if sent.len() == 0 {
        0
    } else {
        captures_sent(sent.drop_last()) + (if sent.last() is Capture {
            1nat
        } else {
            0
        })
    }
}

/// What one moment adds to the patches sent before it: one at most.
proof fn lemma_sent_at(sent: Seq<PatchView>, session: Session, moment: Moment)
    ensures
        ({
            let actions = actions_at(session, moment);
            let after = sent + patches_in(actions);
            if actions.len() == 1 && actions[0] is Patch {
                after == sent.push(actions[0]->Patch_0)
            } else {
                after == sent
            }
        }),
{
    reveal_with_fuel(patches_in, 3);
    lemma_shape_at(session, moment);
    let actions = actions_at(session, moment);
    let after = sent + patches_in(actions);
    if actions.len() == 1 && actions[0] is Patch {
        assert(after =~= sent.push(actions[0]->Patch_0));
    } else {
        assert(after =~= sent);
    }
}

/// One patch sent more, seen through what is read off a row of patches.
proof fn lemma_sent_push(sent: Seq<PatchView>, patch: PatchView)
    ensures
        runs_sent(sent.push(patch)) == (match patch {
            PatchView::Start => runs_sent(sent).push(true),
            PatchView::Stop => runs_sent(sent).push(false),
            _ => runs_sent(sent),
        }),
        facings_sent(sent.push(patch)) == (match patch {
            PatchView::Facing(facing) => facings_sent(sent).push(facing),
            _ => facings_sent(sent),
        }),
        surfaces_sent(sent.push(patch)) == (match patch {
            PatchView::Surface(id) => surfaces_sent(sent).push(id),
            _ => surfaces_sent(sent),
        }),
        captures_sent(sent.push(patch)) == captures_sent(sent) + (if patch is Capture {
            1nat
        } else {
            0
        }),
{
    assert(sent.push(patch).drop_last() =~= sent);
}

/// Whether the `i`th moment of a session's life fits one that is lived under a grant: the
/// viewfinder, if it is told that it exists, is told so first and was made under the grant; the
/// permission is found granted whenever it is read; and no request is answered, since none is made.
pub open spec fn granted_at(session: Session, moment: Moment, i: int) -> bool {
    match moment.event {
        Event::Opened { props, .. } => i == 0 && props == session.spec_props(Status::Granted),
        Event::Active { status, .. } => status == Status::Granted,
        Event::Answered { .. } => false,
        _ => true,
    }
}

/// Each change of `active` is one start or stop, in order: over a life under a grant, the starts
/// and stops that the native camera is sent are the changes in what the app said.
pub proof fn law_one_start_or_stop_per_change(
    session: Session,
    status: Status,
    moments: Seq<Moment>,
)
    requires
        forall|i: int|
            0 <= i < moments.len() ==> granted_at(session, #[trigger] moments[i], i),
    ensures
        ({
            let life = life_after(session, status, moments);
            &&& runs_sent(life.sent) == changes(session.wanted, actives_in(moments))
            &&& life.session.wanted == latest(session.wanted, actives_in(moments))
        }),
    decreases moments.len(),
{
    if moments.len() > 0 {
        let front = moments.drop_last();
        let before = life_after(session, status, front);
        let moment = moments.last();
        assert(granted_at(session, moment, moments.len() - 1));
        assert forall|i: int| 0 <= i < front.len() implies granted_at(
            session,
            #[trigger] front[i],
            i,
        ) by {
            assert(front[i] == moments[i]);
        }
        law_one_start_or_stop_per_change(session, status, front);
        lemma_sent_at(before.sent, before.session, moment);
        let actions = actions_at(before.session, moment);
        if actions.len() == 1 && actions[0] is Patch {
            lemma_sent_push(before.sent, actions[0]->Patch_0);
        }
        if let Event::Active { now, .. } = moment.event {
            assert(actives_in(moments).drop_last() =~= actives_in(front));
        }
    }
}

/// Each change of the chosen camera is one patch, in order, whatever else happens: the cameras that
/// the native side is told to show are the changes in what the app chose.
pub proof fn law_one_facing_patch_per_change(
    session: Session,
    status: Status,
    moments: Seq<Moment>,
)
    ensures
        ({
            let life = life_after(session, status, moments);
            &&& facings_sent(life.sent) == changes(session.facing, facings_in(moments))
            &&& life.session.facing == latest(session.facing, facings_in(moments))
        }),
    decreases moments.len(),
{
    if moments.len() > 0 {
        let front = moments.drop_last();
        let before = life_after(session, status, front);
        let moment = moments.last();
        law_one_facing_patch_per_change(session, status, front);
        lemma_sent_at(before.sent, before.session, moment);
        let actions = actions_at(before.session, moment);
        if actions.len() == 1 && actions[0] is Patch {
            lemma_sent_push(before.sent, actions[0]->Patch_0);
        }
        if let Event::Facing { facing } = moment.event {
            assert(facings_in(moments).drop_last() =~= facings_in(front));
        }
    }
}

/// Each fire of the capture trigger takes one photo, whatever else happens.
pub proof fn law_one_capture_per_fire(session: Session, status: Status, moments: Seq<Moment>)
    ensures
        captures_sent(life_after(session, status, moments).sent) == fires_in(moments),
    decreases moments.len(),
{
    if moments.len() > 0 {
        let before = life_after(session, status, moments.drop_last());
        let moment = moments.last();
        law_one_capture_per_fire(session, status, moments.drop_last());
        lemma_sent_at(before.sent, before.session, moment);
        let actions = actions_at(before.session, moment);
        if actions.len() == 1 && actions[0] is Patch {
            lemma_sent_push(before.sent, actions[0]->Patch_0);
        }
    }
}

/// Every surface that the native side reports is handed back to it, in order and once, whatever
/// else happens and whether or not the session is wanted.
pub proof fn law_every_surface_is_handed_over(
    session: Session,
    status: Status,
    moments: Seq<Moment>,
)
    ensures
        surfaces_sent(life_after(session, status, moments).sent) == surfaces_in(moments),
    decreases moments.len(),
{
    if moments.len() > 0 {
        let before = life_after(session, status, moments.drop_last());
        let moment = moments.last();
        law_every_surface_is_handed_over(session, status, moments.drop_last());
        lemma_sent_at(before.sent, before.session, moment);
        let actions = actions_at(before.session, moment);
        if actions.len() == 1 && actions[0] is Patch {
            lemma_sent_push(before.sent, actions[0]->Patch_0);
        }
    }
}

/// Each patch has one kind of cause, and follows whenever that is there: a start follows a grant
/// that finds the session wanted and not running, a stop the app's not wanting it any more, a
/// capture a fire, a switch the choice of another camera, and a surface the report of it.
pub proof fn law_each_patch_has_its_cause(
    session: Session,
    moment: Moment,
    facing: Facing,
    id: Seq<char>,
)
    ensures
        ({
            let actions = actions_at(session, moment);
            &&& actions.contains(ActionView::Patch(PatchView::Start)) <==> {
                &&& brings_grant(moment)
                &&& match moment.event {
                    Event::Opened { props, .. } => session.wanted && !props.active,
                    Event::Active { now, .. } => now && !session.wanted,
                    _ => session.wanted,
                }
            }
            &&& actions.contains(ActionView::Patch(PatchView::Stop)) <==> {
                &&& moment.event matches Event::Active { now, .. }
                &&& !now
                &&& session.wanted
            }
            &&& actions.contains(ActionView::Patch(PatchView::Capture)) <==> moment.event is Capture
            &&& actions.contains(ActionView::Patch(PatchView::Facing(facing))) <==> {
                &&& moment.event matches Event::Facing { facing: chosen }
                &&& chosen == facing
                &&& session.facing != facing
            }
            &&& actions.contains(ActionView::Patch(PatchView::Surface(id))) <==> {
                &&& moment.event matches Event::Reported { num, text }
                &&& num == report::SURFACE
                &&& text == id
            }
        }),
{
    let actions = actions_at(session, moment);
    lemma_shape_at(session, moment);
    if actions.len() == 1 {
        assert(actions.contains(actions[0]));
    } else if actions.len() == 2 {
        assert(actions[0] == actions.drop_last()[0]);
    }
}

/// How far the question has come changes only by asking, which opens it, and by an answer, which
/// settles it; nothing else that happens touches it.
pub proof fn law_question_moves_by_asking_and_answers(session: Session, moment: Moment)
    ensures
        ({
            let next = session_after(session, moment);
            if actions_at(session, moment).contains(ActionView::Request) {
                next.question == Question::Open
            } else if let Event::Answered { status } = moment.event {
                next.question == (if status == Status::Granted {
                    Question::Granted
                } else {
                    Question::Refused
                })
            } else {
                next.question == session.question
            }
        }),
{
    let actions = actions_at(session, moment);
    lemma_shape_at(session, moment);
    if actions.len() > 0 {
        assert(actions.contains(actions.last()));
    }
}

/// Whether a moment finds the session newly wanted while nobody has decided.
pub open spec fn newly_wanted_undecided(session: Session, moment: Moment) -> bool {
    match moment.event {
        Event::Opened { props, status } => {
            &&& session.wanted
            &&& !props.active
            &&& status == Status::Prompt
        },
        Event::Active { now, status } => {
            &&& now
            &&& !session.wanted
            &&& status == Status::Prompt
        },
        _ => false,
    }
}

/// Whether some moment of a life finds the session newly wanted while nobody has decided.
pub open spec fn ever_newly_wanted_undecided(
    session: Session,
    status: Status,
    moments: Seq<Moment>,
) -> bool
    decreases moments.len(),
{
    if moments.len() == 0 {
        false
    } else {
        ||| ever_newly_wanted_undecided(session, status, moments.drop_last())
        ||| newly_wanted_undecided(
            life_after(session, status, moments.drop_last()).session,
            moments.last(),
        )
    }
}

/// Whether the answers in a life are answers to something: none comes before the OS was asked.
pub open spec fn answers_follow_requests(
    session: Session,
    status: Status,
    moments: Seq<Moment>,
) -> bool
    decreases moments.len(),
{
    if moments.len() == 0 {
        true
    } else {
        &&& answers_follow_requests(session, status, moments.drop_last())
        &&& moments.last().event is Answered ==> life_after(
            session,
            status,
            moments.drop_last(),
        ).requests > 0
    }
}

/// An app that opted in has the OS asked by the first moment that finds the session newly wanted
/// while nobody has decided, whatever came before it; and by no other moment.
pub proof fn law_first_wanted_moment_asks(session: Session, status: Status, moments: Seq<Moment>)
    requires
        session.auto_request,
        session.question == Question::Unasked,
        answers_follow_requests(session, status, moments),
    ensures
        ({
            let life = life_after(session, status, moments);
            &&& life.requests == (if ever_newly_wanted_undecided(session, status, moments) {
                1nat
            } else {
                0
            })
            &&& life.session.question == Question::Unasked <==> life.requests == 0
            &&& life.session.auto_request
        }),
    decreases moments.len(),
{
    if moments.len() > 0 {
        let before = life_after(session, status, moments.drop_last());
        let moment = moments.last();
        law_first_wanted_moment_asks(session, status, moments.drop_last());
        reveal_with_fuel(requests_in, 3);
        lemma_shape_at(before.session, moment);
        lemma_requests_at(before.session, moment);
    }
}

/// The state signal is written only where the app gave one, and, but for a refused request, only
/// with something it does not show yet.
pub proof fn law_state_is_written_on_change(session: Session, moment: Moment, next: StateView)
    ensures
        actions_at(session, moment).contains(ActionView::SetState(next)) ==> {
            &&& moment.shown is Some
            &&& moment.event is Answered || moment.shown != Some(next)
        },
{
}

/// What the app's state signal shows after a list of actions.
pub open spec fn shown_after(shown: Option<StateView>, actions: Seq<ActionView>) -> Option<StateView>
    decreases actions.len(),
{
    if actions.len() == 0 {
        shown
    } else {
        match actions.last() {
            ActionView::SetState(state) => Some(state),
            _ => shown_after(shown, actions.drop_last()),
        }
    }
}

/// A session that is wanted and cannot run at once says why in the state: a refused or restricted
/// permission reads as denied, one that is undecided as starting while the OS is asked, as denied
/// once it has refused and as idle otherwise, and a target without a camera as unavailable.
pub proof fn law_state_says_why(
    session: Session,
    props: CameraProps,
    status: Status,
    shown: StateView,
)
    ensures
        ({
            let opened = Moment { event: Event::Opened { props, status }, shown: Some(shown) };
            let active = Moment {
                event: Event::Active { now: true, status },
                shown: Some(shown),
            };
            let why = match status {
                Status::Granted => shown,
                Status::Prompt => if !session.auto_request {
                    StateView::Idle
                } else {
                    match session.question {
                        Question::Unasked | Question::Open => StateView::Starting,
                        Question::Refused => StateView::Denied,
                        Question::Granted => StateView::Idle,
                    }
                },
                Status::Denied | Status::Restricted => StateView::Denied,
                Status::Unsupported | Status::Unknown => StateView::Unavailable,
            };
            &&& session.wanted && !props.active ==> shown_after(
                Some(shown),
                actions_at(session, opened),
            ) == Some(why)
            &&& !session.wanted ==> shown_after(Some(shown), actions_at(session, active)) == Some(
                why,
            )
        }),
{
    reveal_with_fuel(shown_after, 3);
    let first = state_write(Some(shown), StateView::Starting);
    assert(first.push(ActionView::Request).drop_last() =~= first);
    assert(first.drop_last() =~= Seq::empty() || first.len() == 0);
    assert(seq![ActionView::Patch(PatchView::Start)].drop_last() =~= Seq::empty());
}

/// A request that is not granted reads as denied, and a report of a state reads as that state.
pub proof fn law_state_follows_answers_and_reports(
    session: Session,
    status: Status,
    num: i32,
    text: Seq<char>,
    shown: StateView,
)
    ensures
        ({
            let answered = Moment { event: Event::Answered { status }, shown: Some(shown) };
            let reported = Moment { event: Event::Reported { num, text }, shown: Some(shown) };
            &&& status != Status::Granted ==> shown_after(
                Some(shown),
                actions_at(session, answered),
            ) == Some(StateView::Denied)
            &&& reported_state(num, text) matches Some(state) ==> shown_after(
                Some(shown),
                actions_at(session, reported),
            ) == Some(state)
        }),
{
    reveal_with_fuel(shown_after, 2);
}

/// The photo signal is written only where the app gave one, and only with the photo that a photo
/// report tells of.
pub proof fn law_photos_come_from_photo_reports(
    session: Session,
    moment: Moment,
    photo: Photo,
)
    ensures
        actions_at(session, moment).contains(ActionView::SetPhoto(photo)) <==> {
            &&& session.keeps_photo
            &&& moment.event matches Event::Reported { num, text }
            &&& num == report::PHOTO
            &&& reported_photo(text) == Some(photo)
        },
{
    if let Event::Reported { num, text } = moment.event {
        if num == report::PHOTO && session.keeps_photo && reported_photo(text)
            == Some(photo) {
            assert(actions_at(session, moment)[0] == ActionView::SetPhoto(photo));
        }
    }
}

} // verus!
