use std::path::PathBuf;

use day_part_permissions::Permission;
use day_piece_camera::native::{
    android_args, ark_args, ark_report_payload, is_c_text, report_payload, uikit_args, AndroidArgs,
    ArkArgs, ArkCall, Command, UikitArgs,
};
use day_piece_camera::ohos::{builds_shim, lib_arch};
use day_piece_camera::page::{
    active_from_start, active_from_start_with, caption, controls_enabled, Caption,
    PermissionButton, PermissionRow,
};
use day_piece_camera::table::CameraTable;
use day_piece_camera::{
    support, Build, CameraPatch, CameraProps, CameraState, Facing, Gate, Photo, Status, Support,
};

#[test]
fn commands_are_numbered() {
    let command = |patch: CameraPatch| patch.command();
    assert_eq!(command(CameraPatch::Start), Some(Command { cmd: 0, arg: 0 }));
    assert_eq!(command(CameraPatch::Stop), Some(Command { cmd: 1, arg: 0 }));
    assert_eq!(command(CameraPatch::Capture), Some(Command { cmd: 2, arg: 0 }));
    assert_eq!(command(CameraPatch::Facing(Facing::Back)), Some(Command { cmd: 3, arg: 0 }));
    assert_eq!(command(CameraPatch::Facing(Facing::Front)), Some(Command { cmd: 3, arg: 1 }));
    assert_eq!(command(CameraPatch::Surface("7".into())), None);
}

#[test]
fn surfaces_cross_to_harmony_only() {
    let surface = CameraPatch::Surface("7".into());
    assert_eq!(surface.ark_call(), Some(ArkCall::Surface("7".into())));
    assert_eq!(CameraPatch::Surface("7\0".into()).ark_call(), None);
    assert_eq!(surface.clone(), surface);
    for patch in [CameraPatch::Start, CameraPatch::Stop, CameraPatch::Facing(Facing::Front)] {
        assert_eq!(patch.ark_call(), patch.command().map(ArkCall::Command));
    }
}

#[test]
fn props_cross_to_each_native_side() {
    let props = CameraProps { facing: Facing::Front, active: true };
    assert_eq!(android_args(props, 5), AndroidArgs { node: 5, facing: 1, active: true });
    assert_eq!(android_args(props, u64::MAX).node, -1);
    assert_eq!(android_args(props, 1 << 63).node, i64::MIN);
    assert_eq!(uikit_args(props, u64::MAX), UikitArgs { node: u64::MAX, facing: 1, active: true });
    assert_eq!(
        ark_args(props, 5, "/cache".into()),
        ArkArgs { node: 5, facing: 1, active: 1, cache_dir: "/cache".into() }
    );
    let idle = ark_args(CameraProps::default(), 6, "/ca\0che".into());
    assert_eq!(idle, ArkArgs { node: 6, facing: 0, active: 0, cache_dir: "".into() });
}

#[test]
fn report_texts_cross_as_c_strings() {
    assert_eq!(report_payload(None), "");
    assert_eq!(report_payload(Some("boom".into())), "boom");
    assert_eq!(ark_report_payload(None), Some("".into()));
    assert_eq!(ark_report_payload(Some("boom".into())), Some("boom".into()));
    assert_eq!(ark_report_payload(Some("bo\0om".into())), None);
    assert!(is_c_text("") && is_c_text("a\u{e9}") && !is_c_text("\0") && !is_c_text("a\0"));
}

#[test]
fn cameras_are_found_until_they_are_released() {
    let mut table = CameraTable::new();
    assert_eq!(table.camera_of(1), None);
    table.register(1, 10);
    table.register(2, 20);
    table.register(3, 0);
    assert_eq!(table.camera_of(1), Some(10));
    assert_eq!(table.camera_of(3), None);
    assert_eq!(
        table.update(2, &CameraPatch::Stop),
        Some((20, ArkCall::Command(Command { cmd: 1, arg: 0 })))
    );
    assert_eq!(table.update(3, &CameraPatch::Stop), None);
    assert_eq!(table.update(2, &CameraPatch::Surface("\0".into())), None);
    assert_eq!(table.release(1), Some(10));
    assert_eq!(table.release(1), None);
    assert_eq!(table.camera_of(1), None);
    assert_eq!(table.camera_of(2), Some(20));
}

#[test]
fn support_takes_a_toolkit_and_its_platform() {
    let none = Build {
        uikit: false,
        mdc: false,
        arkui: false,
        ios: false,
        android: false,
        ohos: false,
    };
    assert_eq!(support(none), Support::Unsupported);
    assert_eq!(support(Build { uikit: true, ios: true, ..none }), Support::Native);
    assert_eq!(support(Build { mdc: true, android: true, ..none }), Support::Native);
    assert_eq!(support(Build { arkui: true, ohos: true, ..none }), Support::Native);
    assert_eq!(support(Build { uikit: true, android: true, ..none }), Support::Unsupported);
    let desktop = Build { uikit: true, mdc: true, arkui: true, ..none };
    assert_eq!(support(desktop), Support::Unsupported);
}

#[test]
fn permission_row_offers_what_can_help() {
    let mut row = PermissionRow::open_with(Status::Prompt, true, Gate::Prompts);
    assert_eq!(row.label(), "prompt");
    assert_eq!(row.button(), PermissionButton::Allow);
    assert!(row.shows_button(false) && !row.shows_button(true));
    assert!(!row.answered(Status::Denied));
    assert_eq!(row.label(), "denied");
    assert!(row.answered(Status::Granted));
    assert_eq!(row.label(), "granted");
    row.settings_opened_with(Status::Restricted);
    assert_eq!(row.label(), "restricted");
    assert_eq!(row.button(), PermissionButton::Allow);

    let row = PermissionRow::open_with(Status::Unsupported, false, Gate::Absent);
    assert_eq!(row.button(), PermissionButton::OpenSettings);
    assert!(!row.shows_button(false));
    let row = PermissionRow::open_with(Status::Granted, false, Gate::Ungated);
    assert!(row.shows_button(false));
}

#[test]
fn permission_row_shows_what_the_os_says() {
    let status = day_part_permissions::status(Permission::Camera);
    let mut row = PermissionRow::open();
    assert_eq!(row.label(), status.label());
    assert_eq!(row.can_prompt, day_part_permissions::can_prompt(Permission::Camera));
    assert_eq!(
        row.gated,
        day_part_permissions::gate(Permission::Camera) != day_part_permissions::Gate::Absent
    );
    row.answered(Status::Unknown);
    row.settings_opened();
    assert_eq!(row.label(), status.label());
    assert_eq!(active_from_start(), status.is_granted());
}

#[test]
fn status_labels_are_those_of_the_permissions_part() {
    let pairs = [
        (Status::Granted, day_part_permissions::Status::Granted),
        (Status::Denied, day_part_permissions::Status::Denied),
        (Status::Prompt, day_part_permissions::Status::Prompt),
        (Status::Restricted, day_part_permissions::Status::Restricted),
        (Status::Unsupported, day_part_permissions::Status::Unsupported),
        (Status::Unknown, day_part_permissions::Status::Unknown),
    ];
    for (ours, theirs) in pairs {
        assert_eq!(ours.label(), theirs.label());
    }
}

#[test]
fn page_controls_need_a_running_camera() {
    assert!(controls_enabled(&CameraState::Running));
    for state in [CameraState::Idle, CameraState::Starting, CameraState::Error("".into())] {
        assert!(!controls_enabled(&state));
    }
    assert!(active_from_start_with(Status::Granted));
    assert!(!active_from_start_with(Status::Prompt));
}

#[test]
fn caption_names_the_photo_and_its_size() {
    assert_eq!(caption(None), Caption::NoPhoto);
    let photo = Photo { path: PathBuf::from("/c/a.jpg"), width: u32::MAX, height: 3 };
    assert_eq!(
        caption(Some(&photo)),
        Caption::PhotoSize { height: 3, name: "a.jpg".into(), width: 4294967295 }
    );
}

#[test]
fn shim_is_built_for_harmony_alone() {
    assert!(builds_shim("ohos", true));
    assert!(!builds_shim("ohos", false));
    assert!(!builds_shim("gnu", true));
    assert_eq!(lib_arch("aarch64"), Some("aarch64-linux-ohos"));
    assert_eq!(lib_arch("x86_64"), Some("x86_64-linux-ohos"));
    assert_eq!(lib_arch("arm"), Some("arm-linux-ohos"));
    assert_eq!(lib_arch("riscv64"), None);
}
