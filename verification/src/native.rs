//! How props, patches and reports cross to the native sides and back.
use vstd::prelude::*;
use crate::facing::Facing;
use crate::patch::{CameraPatch, CameraProps, PatchView};

verus! {

/// Run the session.
pub const CMD_START: i32 = 0;

/// Stop the session.
pub const CMD_STOP: i32 = 1;

/// Take one photo.
pub const CMD_CAPTURE: i32 = 2;

/// Switch to the camera whose code is the argument.
pub const CMD_FACING: i32 = 3;

/// A command as the native sides number it.
#[derive(Clone, Copy, Debug, PartialEq, Eq, Structural)]
pub struct Command {
    pub cmd: i32,
    pub arg: i32,
}

impl PatchView {
    /// The command that stands for a patch. A surface is not a command.
    pub open spec fn spec_command(self) -> Option<Command> {
        match self {
            PatchView::Start => Some(Command { cmd: CMD_START, arg: 0 }),
            PatchView::Stop => Some(Command { cmd: CMD_STOP, arg: 0 }),
            PatchView::Capture => Some(Command { cmd: CMD_CAPTURE, arg: 0 }),
            PatchView::Facing(facing) => Some(Command { cmd: CMD_FACING, arg: facing.spec_code() }),
            PatchView::Surface(_) => None,
        }
    }
}

impl CameraPatch {
    /// The command that carries this patch to Android and UIKit. The surface handshake is
    /// HarmonyOS's alone, and the others ignore it.
    pub fn command(&self) -> (command: Option<Command>)
        ensures
            command == self@.spec_command(),
    {
        match self {
            CameraPatch::Start => Some(Command { cmd: CMD_START, arg: 0 }),
            CameraPatch::Stop => Some(Command { cmd: CMD_STOP, arg: 0 }),
            CameraPatch::Capture => Some(Command { cmd: CMD_CAPTURE, arg: 0 }),
            CameraPatch::Facing(facing) => Some(Command { cmd: CMD_FACING, arg: facing.code() }),
            CameraPatch::Surface(_) => None,
        }
    }
}

/// Whether `text` can cross as a C string, which ends at the first NUL.
pub fn is_c_text(text: &str) -> (crosses: bool)
    ensures
        crosses == !text@.contains('\0'),
{
    for c in it: text.chars()
        invariant
            it.seq() == text@,
            forall|j: int| 0 <= j < it.index() ==> text@[j] != '\0',
    {
        if c == '\0' {
            assert(text@[it.index() as int] == '\0');
            return false;
        }
    }
    true
}

/// What to call in HarmonyOS's camera shim.
#[derive(Debug, PartialEq, Eq)]
pub enum ArkCall {
    /// Hand over the surface with this id.
    Surface(String),
    /// Give a command.
    Command(Command),
}

/// An [`ArkCall`] with its text as a sequence of characters.
pub enum ArkCallView {
    Surface(Seq<char>),
    Command(Command),
}

impl View for ArkCall {
    type V = ArkCallView;

    open spec fn view(&self) -> ArkCallView {
        match self {
            ArkCall::Surface(id) => ArkCallView::Surface(id@),
            ArkCall::Command(command) => ArkCallView::Command(*command),
        }
    }
}

impl PatchView {
    /// The call that carries a patch to HarmonyOS. A surface id that is no C string is dropped.
    pub open spec fn spec_ark_call(self) -> Option<ArkCallView> {
        match self {
            PatchView::Surface(id) => if id.contains('\0') {
                None
            } else {
                Some(ArkCallView::Surface(id))
            },
            _ => Some(ArkCallView::Command(self.spec_command()->0)),
        }
    }
}

impl CameraPatch {
    /// The call that carries this patch to HarmonyOS's camera shim.
    pub fn ark_call(&self) -> (call: Option<ArkCall>)
        ensures
            match call {
                Some(call) => self@.spec_ark_call() == Some(call@),
                None => self@.spec_ark_call() is None,
            },
    {
        match self {
            CameraPatch::Surface(id) => {
                if is_c_text(id.as_str()) {
                    Some(ArkCall::Surface(id.clone()))
                } else {
                    None
                }
            },
            _ => match self.command() {
                Some(command) => Some(ArkCall::Command(command)),
                None => None,
            },
        }
    }
}

/// What Android's view factory is called with.
#[derive(Clone, Copy, Debug, PartialEq, Eq, Structural)]
pub struct AndroidArgs {
    pub node: i64,
    pub facing: i32,
    pub active: bool,
}

/// The number that a node's id crosses to Java as. Java has no unsigned numbers, so an id of 63
/// bits crosses as it is and a larger one as the negative number of the same bits.
pub open spec fn android_node(id: u64) -> int {
    if id <= i64::MAX {
        id as int
    } else {
        id - 0x1_0000_0000_0000_0000
    }
}

/// What Android's view factory is called with for the node `id`.
pub fn android_args(props: CameraProps, id: u64) -> (args: AndroidArgs)
    ensures
        args.node == android_node(id),
        args.facing == props.facing.spec_code(),
        args.active == props.active,
{
    let node: i64 = #[verifier::truncate]
    (id as i64);
    proof {
        let bits = id;
        assert(bits as i64 == (if bits <= 0x7fff_ffff_ffff_ffffu64 {
            bits as int
        } else {
            bits - 0x1_0000_0000_0000_0000int
        })) by (bit_vector);
    }
    AndroidArgs { node, facing: props.facing.code(), active: props.active }
}

/// What UIKit's camera shim is called with.
#[derive(Clone, Copy, Debug, PartialEq, Eq, Structural)]
pub struct UikitArgs {
    pub node: u64,
    pub facing: i32,
    pub active: bool,
}

/// What UIKit's camera shim is called with for the node `id`.
pub fn uikit_args(props: CameraProps, id: u64) -> (args: UikitArgs)
    ensures
        args == (UikitArgs { node: id, facing: props.facing.spec_code(), active: props.active }),
{
    UikitArgs { node: id, facing: props.facing.code(), active: props.active }
}

/// What HarmonyOS's camera shim is called with.
#[derive(Debug, PartialEq, Eq)]
pub struct ArkArgs {
    pub node: u64,
    pub facing: i32,
    pub active: i32,
    pub cache_dir: String,
}

/// What HarmonyOS's camera shim is called with for the node `id`. A cache directory that is no C
/// string crosses as an empty one.
pub fn ark_args(props: CameraProps, id: u64, cache_dir: String) -> (args: ArkArgs)
    ensures
        args.node == id,
        args.facing == props.facing.spec_code(),
        args.active == (if props.active {
            1int
        } else {
            0
        }),
        args.cache_dir@ == (if cache_dir@.contains('\0') {
            Seq::empty()
        } else {
            cache_dir@
        }),
{
    let cache_dir: String = if is_c_text(cache_dir.as_str()) {
        cache_dir
    } else {
        String::new()
    };
    ArkArgs {
        node: id,
        facing: props.facing.code(),
        active: if props.active { 1 } else { 0 },
        cache_dir,
    }
}

/// The payload of a report: the text that came with it, or nothing where none came.
pub fn report_payload(text: Option<String>) -> (payload: String)
    ensures
        payload@ == (match text {
            Some(text) => text@,
            None => Seq::empty(),
        }),
{
    match text {
        Some(text) => text,
        None => String::new(),
    }
}

/// The payload that a report of HarmonyOS's shim is posted to the main thread with. It crosses as
/// a C string once more, and a report whose text is none is dropped.
pub fn ark_report_payload(text: Option<String>) -> (payload: Option<String>)
    ensures
        match text {
            Some(text) => if text@.contains('\0') {
                payload is None
            } else {
                payload is Some && payload->0@ == text@
            },
            None => payload is Some && payload->0@ == Seq::<char>::empty(),
        },
{
    let payload: String = report_payload(text);
    if is_c_text(payload.as_str()) {
        Some(payload)
    } else {
        None
    }
}

/// Different patches never cross as one command.
pub proof fn law_commands_tell_patches_apart(a: PatchView, b: PatchView)
    ensures
        a.spec_command() is Some && a.spec_command() == b.spec_command() ==> a == b,
{
}

/// Every patch but a surface is a command, and every backend is given the same one; a surface is
/// for HarmonyOS alone.
pub proof fn law_backends_agree_on_commands(patch: PatchView)
    ensures
        patch is Surface <==> patch.spec_command() is None,
        patch.spec_command() matches Some(command) ==> patch.spec_ark_call() == Some(
            ArkCallView::Command(command),
        ),
{
}

/// Android tells nodes apart as well as Rust does: no two ids cross as one number.
pub proof fn law_android_ids_stay_apart(a: u64, b: u64)
    ensures
        android_node(a) == android_node(b) ==> a == b,
{
}

/// Each patch but a surface crosses as its own number: starting, stopping and taking a photo without
/// an argument, and a switch with 0 for the rear camera and 1 for the other. A surface is no command.
pub proof fn law_each_patch_has_its_number(patch: CameraPatch, command: Option<Command>)
    requires
        call_ensures(CameraPatch::command, (&patch,), command),
    ensures
        command is None <==> patch is Surface,
        command is Some && command->0.cmd == 0 <==> patch is Start,
        command is Some && command->0.cmd == 1 <==> patch is Stop,
        command is Some && command->0.cmd == 2 <==> patch is Capture,
        command is Some && command->0.cmd == 3 <==> patch is Facing,
        command matches Some(command) ==> (command.arg == 1 <==> patch == CameraPatch::Facing(
            Facing::Front,
        )),
        command matches Some(command) ==> (command.arg == 0 <==> patch != CameraPatch::Facing(
            Facing::Front,
        )),
{
}

/// A text crosses as a C string exactly if none of its characters is the NUL that would end it.
pub proof fn law_c_text_holds_no_end(text: &str, crosses: bool)
    requires
        call_ensures(is_c_text, (text,), crosses),
    ensures
        crosses <==> forall|i: int| 0 <= i < text@.len() ==> #[trigger] text@[i] != '\0',
{
    if text@.contains('\0') {
        let i = choose|i: int| 0 <= i < text@.len() && text@[i] == '\0';
        assert(text@[i] == '\0');
    }
}

/// A call is seen as itself, with what it carries.
pub proof fn law_calls_are_seen_as_they_are(call: ArkCall)
    ensures
        call@ is Surface <==> call is Surface,
        call@ is Command <==> call is Command,
        call matches ArkCall::Surface(id) ==> call@ == ArkCallView::Surface(id@),
        call matches ArkCall::Command(command) ==> call@ == ArkCallView::Command(command),
{
}

/// Every surface id without a NUL crosses to HarmonyOS as it is, however long: none is dropped, and
/// no two cross as one call. An id with a NUL does not cross.
pub proof fn law_surface_ids_cross_as_they_are(id: String, call: Option<ArkCall>)
    requires
        call_ensures(CameraPatch::ark_call, (&CameraPatch::Surface(id),), call),
    ensures
        call is Some <==> forall|i: int| 0 <= i < id@.len() ==> #[trigger] id@[i] != '\0',
        call matches Some(call) ==> call is Surface && call->Surface_0@ == id@,
{
    if id@.contains('\0') {
        let i = choose|i: int| 0 <= i < id@.len() && id@[i] == '\0';
        assert(id@[i] == '\0');
    }
}

/// Everything but a surface crosses to HarmonyOS as the command that Android and UIKit are given.
pub proof fn law_commands_cross_to_harmony(
    patch: CameraPatch,
    command: Option<Command>,
    call: Option<ArkCall>,
)
    requires
        patch !is Surface,
        call_ensures(CameraPatch::command, (&patch,), command),
        call_ensures(CameraPatch::ark_call, (&patch,), call),
    ensures
        command is Some,
        call == Some(ArkCall::Command(command->0)),
{
}

/// What a native camera is made with says which node it is, which camera to show and whether to run,
/// and says the same on every platform. Java sees the node's bits as a signed number.
pub proof fn law_props_cross_alike(
    props: CameraProps,
    id: u64,
    cache_dir: String,
    android: AndroidArgs,
    uikit: UikitArgs,
    ark: ArkArgs,
)
    requires
        call_ensures(android_args, (props, id), android),
        call_ensures(uikit_args, (props, id), uikit),
        call_ensures(ark_args, (props, id, cache_dir), ark),
    ensures
        uikit.node == id,
        ark.node == id,
        android.node == id || android.node == id - 0x1_0000_0000_0000_0000,
        android.facing == 1 <==> props.facing is Front,
        android.facing == 0 <==> props.facing is Back,
        uikit.facing == android.facing,
        ark.facing == android.facing,
        android.active == props.active,
        uikit.active == props.active,
        ark.active == 1 <==> props.active,
        ark.active == 0 <==> !props.active,
{
}

/// A cache directory that can cross does, as it is; one that cannot crosses as an empty one.
pub proof fn law_cache_dir_crosses_as_it_is(
    props: CameraProps,
    id: u64,
    cache_dir: String,
    ark: ArkArgs,
)
    requires
        call_ensures(ark_args, (props, id, cache_dir), ark),
    ensures
        (forall|i: int| 0 <= i < cache_dir@.len() ==> #[trigger] cache_dir@[i] != '\0')
            ==> ark.cache_dir@ == cache_dir@,
        (exists|i: int| 0 <= i < cache_dir@.len() && #[trigger] cache_dir@[i] == '\0')
            ==> ark.cache_dir@.len() == 0,
{
}

/// A report's payload is the text that came with it, all of it, and nothing where none came.
pub proof fn law_payload_is_what_came(text: Option<String>, payload: String)
    requires
        call_ensures(report_payload, (text,), payload),
    ensures
        text matches Some(text) ==> payload@ == text@,
        text is None ==> payload@.len() == 0,
{
}

/// A report of HarmonyOS's shim is posted with the text that came with it, unless that holds a NUL;
/// a report without a text is posted too.
pub proof fn law_shim_reports_are_posted(text: Option<String>, payload: Option<String>)
    requires
        call_ensures(ark_report_payload, (text,), payload),
    ensures
        text is None ==> payload is Some && payload->0@.len() == 0,
        text is Some ==> (payload is Some <==> forall|i: int|
            0 <= i < text->0@.len() ==> #[trigger] text->0@[i] != '\0'),
        text is Some && payload is Some ==> payload->0@ == text->0@,
{
    if text is Some && text->0@.contains('\0') {
        let i = choose|i: int| 0 <= i < text->0@.len() && text->0@[i] == '\0';
        assert(text->0@[i] == '\0');
    }
}

} // verus!
