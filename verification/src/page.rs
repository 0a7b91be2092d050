//! The camera page of an app: the permission's row, the shutter, the camera switch and the last
//! photo's caption.
use vstd::prelude::*;
use crate::permission::{camera_can_prompt, camera_gate, camera_status, Gate, Status};
use crate::patch::PatchView;
use crate::photo::{path_of, shown_name, shown_path, slashed, Photo};
use crate::session::{ActionView, Session};
use crate::state::{CameraState, StateView};

verus! {

/// What the button of the permission's row says, and does.
#[derive(Clone, Copy, Debug, PartialEq, Eq, Structural)]
pub enum PermissionButton {
    /// Ask the OS for the permission.
    Allow,
    /// Open the OS page where the permission can be changed.
    OpenSettings,
}

/// The row that shows the camera permission's status and, where there is something to do about it,
/// a button.
#[derive(Clone, Copy, Debug, PartialEq, Eq, Structural)]
pub struct PermissionRow {
    /// The status shown.
    pub status: Status,
    /// Whether asking would put a prompt on screen.
    pub can_prompt: bool,
    /// Whether the target has such a capability at all.
    pub gated: bool,
}

impl PermissionRow {
    /// What the button says, and does: ask where that can help, open the settings where not.
    pub open spec fn spec_button(self) -> PermissionButton {
        if self.can_prompt {
            PermissionButton::Allow
        } else {
            PermissionButton::OpenSettings
        }
    }

    /// The row under the given answers of the OS.
    pub open spec fn spec_open(status: Status, can_prompt: bool, gate: Gate) -> PermissionRow {
        PermissionRow { status, can_prompt, gated: gate != Gate::Absent }
    }

    /// This row showing another status.
    pub open spec fn showing(self, status: Status) -> PermissionRow {
        PermissionRow { status, ..self }
    }

    /// The row under the given answers of the OS.
    pub fn open_with(status: Status, can_prompt: bool, gate: Gate) -> (row: PermissionRow)
        ensures
            row == PermissionRow::spec_open(status, can_prompt, gate),
    {
        PermissionRow { status, can_prompt, gated: gate != Gate::Absent }
    }

    /// The row under the present answers of the OS.
    pub fn open() -> (row: PermissionRow)
        ensures
            exists|status: Status, can_prompt: bool, gate: Gate|
                {
                    &&& #[trigger] call_ensures(camera_status, (), status)
                    &&& #[trigger] call_ensures(camera_can_prompt, (), can_prompt)
                    &&& #[trigger] call_ensures(camera_gate, (), gate)
                    &&& row == PermissionRow::spec_open(status, can_prompt, gate)
                },
    {
        PermissionRow::open_with(camera_status(), camera_can_prompt(), camera_gate())
    }

    /// The text that shows the status.
    pub fn label(&self) -> (label: &'static str)
        ensures
            label@ == self.status.spec_label(),
    {
        self.status.label()
    }

    /// What the button says, and does.
    pub fn button(&self) -> (button: PermissionButton)
        ensures
            button == self.spec_button(),
            button is Allow <==> self.can_prompt,
    {
        if self.can_prompt {
            PermissionButton::Allow
        } else {
            PermissionButton::OpenSettings
        }
    }

    /// Whether there is a button: where the target has a camera to permit and the viewfinder does
    /// not run yet.
    pub fn shows_button(&self, active: bool) -> (shows: bool)
        ensures
            shows == (self.gated && !active),
    {
        self.gated && !active
    }

    /// The OS answered a request: shows the answer, and says whether the viewfinder is to run now.
    pub fn answered(&mut self, status: Status) -> (activate: bool)
        ensures
            *final(self) == old(self).showing(status),
            activate == (status == Status::Granted),
    {
        self.status = status;
        status == Status::Granted
    }

    /// The settings were opened: shows what the status is after that.
    pub fn settings_opened_with(&mut self, status: Status)
        ensures
            *final(self) == old(self).showing(status),
    {
        self.status = status;
    }

    /// The settings were opened: shows what the status is now.
    pub fn settings_opened(&mut self)
        ensures
            exists|status: Status| #[trigger]
                call_ensures(camera_status, (), status) && *final(self) == old(self).showing(
                    status,
                ),
    {
        let status: Status = camera_status();
        self.settings_opened_with(status);
    }
}

/// Whether the page's viewfinder runs from the first frame, where `status` is the permission's.
pub open spec fn runs_from_start(status: Status) -> bool {
    status == Status::Granted
}

/// Whether the page's viewfinder runs from the first frame, where `status` is the permission's.
pub fn active_from_start_with(status: Status) -> (active: bool)
    ensures
        active == runs_from_start(status),
{
    status == Status::Granted
}

/// Whether the page's viewfinder runs from the first frame: where the permission is already held.
pub fn active_from_start() -> (active: bool)
    ensures
        exists|status: Status| #[trigger]
            call_ensures(camera_status, (), status) && active == runs_from_start(status),
{
    active_from_start_with(camera_status())
}

/// Whether the shutter and the camera switch can be used: only a camera that runs takes photos.
pub fn controls_enabled(state: &CameraState) -> (enabled: bool)
    ensures
        enabled == (state@ == StateView::Running),
{
    match state {
        CameraState::Running => true,
        _ => false,
    }
}

/// What the page says of the last photo.
#[derive(Debug, PartialEq, Eq)]
pub enum Caption {
    /// There is none yet.
    NoPhoto,
    /// The photo's size in pixels and its file's name.
    PhotoSize { height: i64, name: String, width: i64 },
}

/// What the page says of the last photo.
pub fn caption(photo: Option<&Photo>) -> (caption: Caption)
    ensures
        match photo {
            Some(photo) => {
                &&& caption matches Caption::PhotoSize { height, name, width }
                &&& height == photo.height
                &&& width == photo.width
                &&& name@ == photo.spec_file_name()
                &&& slashed(shown_path(photo.path)) ==> name@ == shown_name(
                    shown_path(photo.path),
                )
                &&& forall|path: Seq<char>|
                    photo.path == #[trigger] path_of(path) && slashed(path) ==> name@
                        == shown_name(path)
            },
            None => caption is NoPhoto,
        },
{
    match photo {
        Some(photo) => Caption::PhotoSize {
            height: photo.height as i64,
            name: photo.file_name(),
            width: photo.width as i64,
        },
        None => Caption::NoPhoto,
    }
}

/// A grant is what starts the page's viewfinder: a session that was not wanted is told to run once
/// the permission is granted and the page makes it active.
pub proof fn law_grant_starts_viewfinder(session: Session, shown: Option<StateView>)
    requires
        !session.wanted,
    ensures
        session.active_actions(true, Status::Granted, shown) == seq![
            ActionView::Patch(PatchView::Start),
        ],
        session.after_active(true, Status::Granted).wanted,
{
}

/// The row shows what the OS answered: its status, whether asking would put a prompt on screen, and
/// something to permit unless the target has no such capability.
pub proof fn law_row_shows_the_answers(
    status: Status,
    can_prompt: bool,
    gate: Gate,
    row: PermissionRow,
)
    requires
        call_ensures(PermissionRow::open_with, (status, can_prompt, gate), row),
    ensures
        row.status == status,
        row.can_prompt == can_prompt,
        row.gated <==> gate is Prompts || gate is Ungated,
{
}

/// The row that asks the OS shows what the OS answered.
pub proof fn law_row_asks_the_os(row: PermissionRow)
    requires
        call_ensures(PermissionRow::open, (), row),
    ensures
        call_ensures(camera_status, (), row.status),
        call_ensures(camera_can_prompt, (), row.can_prompt),
        row.gated ==> call_ensures(camera_gate, (), Gate::Prompts) || call_ensures(
            camera_gate,
            (),
            Gate::Ungated,
        ),
        !row.gated ==> call_ensures(camera_gate, (), Gate::Absent),
{
}

/// The text of the row is the word for the status it shows.
pub proof fn law_row_is_labelled_by_its_status(
    row: PermissionRow,
    label: &'static str,
    word: &'static str,
)
    requires
        call_ensures(PermissionRow::label, (&row,), label),
        call_ensures(Status::label, (row.status,), word),
    ensures
        label@ == word@,
{
}

/// The button asks exactly where asking would put a prompt on screen, whatever the status and the
/// gate are; everywhere else it leads to the settings.
pub proof fn law_button_asks_where_a_prompt_comes(row: PermissionRow, button: PermissionButton)
    requires
        call_ensures(PermissionRow::button, (&row,), button),
    ensures
        button is Allow <==> row.can_prompt,
        button is OpenSettings <==> !row.can_prompt,
{
}

/// There is a button exactly where the target has something to permit and the viewfinder does not
/// run.
pub proof fn law_button_shows_until_the_viewfinder_runs(
    row: PermissionRow,
    active: bool,
    shows: bool,
)
    requires
        call_ensures(PermissionRow::shows_button, (&row, active), shows),
    ensures
        active ==> !shows,
        !row.gated ==> !shows,
        row.gated && !active ==> shows,
{
}

/// An answer is what the row shows from then on, with the button it had; and only a grant has the
/// viewfinder run.
pub proof fn law_answer_is_shown_and_a_grant_activates(status: Status)
    ensures
        forall|row: &mut PermissionRow, activate: bool|
            #[trigger] call_ensures(PermissionRow::answered, (row, status), activate) ==> {
                &&& final(row).status == status
                &&& final(row).can_prompt == row.can_prompt
                &&& final(row).gated == row.gated
                &&& activate <==> status is Granted
            },
{
}

/// After the settings were opened the row shows the status as it is then, with the button it had.
pub proof fn law_settings_are_followed_by_a_new_status(status: Status)
    ensures
        forall|row: &mut PermissionRow|
            #[trigger] call_ensures(PermissionRow::settings_opened_with, (row, status), ()) ==> {
                &&& final(row).status == status
                &&& final(row).can_prompt == row.can_prompt
                &&& final(row).gated == row.gated
            },
        forall|row: &mut PermissionRow|
            #[trigger] call_ensures(PermissionRow::settings_opened, (row,), ()) ==> {
                &&& call_ensures(camera_status, (), final(row).status)
                &&& final(row).can_prompt == row.can_prompt
                &&& final(row).gated == row.gated
            },
{
}

/// The page's viewfinder runs from the first frame exactly if the permission is already held.
pub proof fn law_page_runs_from_start_on_a_grant(status: Status, active: bool)
    requires
        call_ensures(active_from_start_with, (status,), active),
    ensures
        active <==> status is Granted,
{
}

/// The same where the OS is asked.
pub proof fn law_page_asks_the_os_before_it_runs(active: bool)
    requires
        call_ensures(active_from_start, (), active),
    ensures
        active ==> call_ensures(camera_status, (), Status::Granted),
        !active ==> exists|status: Status|
            status !is Granted && #[trigger] call_ensures(camera_status, (), status),
{
}

/// The controls can be used exactly while the camera runs.
pub proof fn law_controls_are_for_a_running_camera(state: CameraState, enabled: bool)
    requires
        call_ensures(controls_enabled, (&state,), enabled),
    ensures
        enabled <==> state is Running,
{
}

/// The caption gives the photo's height, its file's name and its width, each as it is, and says
/// that there is no photo exactly if there is none.
pub proof fn law_caption_describes_the_photo(
    photo: Photo,
    name: String,
    shown: Caption,
    without: Caption,
)
    requires
        call_ensures(Photo::file_name, (&photo,), name),
        call_ensures(caption, (Some(&photo),), shown),
        call_ensures(caption, (None,), without),
    ensures
        shown is PhotoSize,
        shown->height == photo.height,
        shown->width == photo.width,
        shown->name@ == name@,
        without is NoPhoto,
{
}

} // verus!
