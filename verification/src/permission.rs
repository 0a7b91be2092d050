//! What the OS says of the camera permission.
use vstd::prelude::*;

verus! {

/// What the OS will do if the camera is used now.
#[derive(Clone, Copy, Debug, PartialEq, Eq, Structural)]
pub enum Status {
    /// Go ahead. No promise that the hardware exists.
    Granted,
    /// The user said no.
    Denied,
    /// Nobody has decided yet.
    Prompt,
    /// Policy forbids it and the user cannot change that.
    Restricted,
    /// The target has no such capability.
    Unsupported,
    /// Not known yet.
    Unknown,
}

/// Whether the target gates the camera at all.
#[derive(Clone, Copy, Debug, PartialEq, Eq, Structural)]
pub enum Gate {
    /// The OS keeps a consent record and can put a prompt on screen.
    Prompts,
    /// The camera exists and nothing gates it.
    Ungated,
    /// The target has no such capability.
    Absent,
}

impl Status {
    /// The word for a status.
    pub open spec fn spec_label(self) -> Seq<char> {
        match self {
            Status::Granted => "granted"@,
            Status::Denied => "denied"@,
            Status::Prompt => "prompt"@,
            Status::Restricted => "restricted"@,
            Status::Unsupported => "unsupported"@,
            Status::Unknown => "unknown"@,
        }
    }

    /// A short display label, the same in every locale.
    pub fn label(self) -> (label: &'static str)
        ensures
            label@ == self.spec_label(),
    {
        match self {
            Status::Granted => "granted",
            Status::Denied => "denied",
            Status::Prompt => "prompt",
            Status::Restricted => "restricted",
            Status::Unsupported => "unsupported",
            Status::Unknown => "unknown",
        }
    }
}

/// Calls `day_part_permissions::status` for the camera, which never blocks. The OS answers, and may
/// answer otherwise the next time, so nothing is claimed of the result.
#[verifier::external_body]
pub fn camera_status() -> (status: Status) {
    match day_part_permissions::status(day_part_permissions::Permission::Camera) {
        day_part_permissions::Status::Granted => Status::Granted,
        day_part_permissions::Status::Denied => Status::Denied,
        day_part_permissions::Status::Prompt => Status::Prompt,
        day_part_permissions::Status::Restricted => Status::Restricted,
        day_part_permissions::Status::Unsupported => Status::Unsupported,
        _ => Status::Unknown,
    }
}

/// Calls `day_part_permissions::gate` for the camera. Which gate there is depends on the target
/// and on the version of its OS, so nothing is claimed of the result.
#[verifier::external_body]
pub fn camera_gate() -> (gate: Gate) {
    match day_part_permissions::gate(day_part_permissions::Permission::Camera) {
        day_part_permissions::Gate::Prompts => Gate::Prompts,
        day_part_permissions::Gate::Ungated => Gate::Ungated,
        day_part_permissions::Gate::Absent => Gate::Absent,
    }
}

/// Calls `day_part_permissions::can_prompt` for the camera. The OS answers, so nothing is claimed
/// of the result.
#[verifier::external_body]
pub fn camera_can_prompt() -> (can: bool) {
    day_part_permissions::can_prompt(day_part_permissions::Permission::Camera)
}

/// Each status has its word, and no two share one.
pub proof fn law_words_for_statuses(status: Status, label: &'static str)
    requires
        call_ensures(Status::label, (status,), label),
    ensures
        status is Granted <==> label@ == "granted"@,
        status is Denied <==> label@ == "denied"@,
        status is Prompt <==> label@ == "prompt"@,
        status is Restricted <==> label@ == "restricted"@,
        status is Unsupported <==> label@ == "unsupported"@,
        status is Unknown <==> label@ == "unknown"@,
{
    reveal_strlit("granted");
    reveal_strlit("denied");
    reveal_strlit("prompt");
    reveal_strlit("restricted");
    reveal_strlit("unsupported");
    reveal_strlit("unknown");
    assert("granted"@[0] == 'g');
    assert("denied"@[0] == 'd');
    assert("prompt"@[0] == 'p');
    assert("restricted"@[0] == 'r');
    assert("unsupported"@.len() == 11);
    assert("unknown"@.len() == 7 && "unknown"@[0] == 'u');
}

} // verus!
