use std::path::PathBuf;

use day_piece_camera::photo::only_slash_separates;
use day_piece_camera::text::{cut, is_white_space, parse_decimal, trim};
use day_piece_camera::{report, CameraState, Facing, Photo};

#[test]
fn photo_report_parses_path_and_size() {
    let p = Photo::from_report("/tmp/day-camera/a.jpg\u{1f}4032\u{1f}3024").unwrap();
    assert_eq!(p.path, PathBuf::from("/tmp/day-camera/a.jpg"));
    assert_eq!((p.width, p.height), (4032, 3024));
    assert_eq!(p.file_name(), "a.jpg");
}

#[test]
fn photo_report_without_size_is_still_a_photo() {
    let p = Photo::from_report("/tmp/x.jpg").unwrap();
    assert_eq!((p.width, p.height), (0, 0));
    assert!(Photo::from_report("").is_none());
}

#[test]
fn state_reports_map_and_photo_is_not_a_state() {
    assert_eq!(
        CameraState::from_report(report::RUNNING as f64 as i32, ""),
        Some(CameraState::Running)
    );
    assert_eq!(
        CameraState::from_report(report::ERROR as f64 as i32, "boom"),
        Some(CameraState::Error("boom".into()))
    );
    assert_eq!(CameraState::from_report(report::PHOTO as f64 as i32, "x"), None);
    assert_eq!(CameraState::Unavailable.label(), "unavailable");
}

#[test]
fn facing_codes_round_trip() {
    assert_eq!(Facing::Back.code(), 0);
    assert_eq!(Facing::Front.code(), 1);
    assert_eq!(Facing::Back.flipped(), Facing::Front);
}

#[test]
fn flipping_twice_returns() {
    for facing in [Facing::Back, Facing::Front] {
        assert_ne!(facing.flipped(), facing);
        assert_eq!(facing.flipped().flipped(), facing);
    }
    assert_eq!(Facing::default(), Facing::Back);
}

#[test]
fn photo_report_without_path_is_no_photo() {
    assert_eq!(Photo::from_report("\u{1f}640\u{1f}480"), None);
    assert_eq!(Photo::from_report("\u{1f}"), None);
}

#[test]
fn photo_report_sizes_are_read_leniently() {
    let size = |text: &str| {
        let p = Photo::from_report(text).unwrap();
        (p.width, p.height)
    };
    assert_eq!(size("p\u{1f} 640\t\u{1f}\n480 "), (640, 480));
    assert_eq!(size("p\u{1f}+7\u{1f}0008"), (7, 8));
    assert_eq!(size("p\u{1f}640"), (640, 0));
    assert_eq!(size("p\u{1f}\u{1f}480"), (0, 480));
    assert_eq!(size("p\u{1f}-1\u{1f}4.5"), (0, 0));
    assert_eq!(size("p\u{1f}4294967295\u{1f}4294967296"), (u32::MAX, 0));
    assert_eq!(size("p\u{1f}6 4\u{1f}x480"), (0, 0));
    assert_eq!(size("p\u{1f}1\u{1f}2\u{1f}3"), (1, 2));
}

#[test]
fn photo_report_gives_back_what_was_put_in() {
    for (path, width, height) in
        [("a", 0u32, 0u32), ("/x/y.jpg", 10, 99), ("\u{e9}t\u{e9}.jpg", u32::MAX, 1)]
    {
        let p = Photo::from_report(&format!("{path}\u{1f}{width}\u{1f}{height}")).unwrap();
        assert_eq!(p, Photo { path: PathBuf::from(path), width, height });
        assert_eq!(p.clone(), p);
    }
}

#[test]
fn file_name_is_the_last_component() {
    for (path, name) in [
        ("a.jpg", "a.jpg"),
        ("/tmp/day-camera/a.jpg", "a.jpg"),
        ("/tmp/dir/", "dir"),
        ("/tmp/dir//", "dir"),
        ("/tmp/dir/.", "dir"),
        ("/tmp/dir/./", "dir"),
        ("/", ""),
        ("", ""),
        (".", ""),
        ("./", ""),
        ("./.", ""),
        ("./a", "a"),
        ("..", ""),
        ("a/..", ""),
        ("a/../", ""),
        ("../a", "a"),
        ("a//b", "b"),
        ("...", "..."),
        ("/tmp/.hidden", ".hidden"),
        ("/tmp/..x", "..x"),
        ("\u{e9}/\u{fc}.jpg", "\u{fc}.jpg"),
        ("/.", ""),
    ] {
        let photo = Photo { path: PathBuf::from(path), width: 1, height: 1 };
        assert_eq!(photo.file_name(), name, "{path}");
    }
}

#[test]
fn file_name_follows_the_separators_of_the_target() {
    let name = |path: &str| Photo { path: PathBuf::from(path), width: 1, height: 1 }.file_name();
    if only_slash_separates() {
        assert_eq!(name("C:\\x\\a.jpg"), "C:\\x\\a.jpg");
        assert_eq!(name("//x/a:b\\c.jpg"), "a:b\\c.jpg");
        assert_eq!(name("//x/y"), "y");
    } else {
        assert_eq!(name("C:\\x\\a.jpg"), "a.jpg");
    }
}

#[test]
fn a_plain_name_joined_to_any_directory_is_given_back() {
    for dir in ["", "/", "/tmp", "/tmp/", "a/..", ".", "\u{fffd}/x"] {
        for name in ["a.jpg", "...", " ", ".x"] {
            let path = PathBuf::from(dir).join(name);
            let photo = Photo { path: path.clone(), width: 7, height: u32::MAX };
            assert_eq!(photo.file_name(), name, "{dir}");
            assert_eq!(photo, Photo { path, width: 7, height: u32::MAX });
        }
    }
}

#[test]
fn every_code_up_to_error_is_a_state() {
    let expected = [
        (report::STOPPED, CameraState::Idle, "idle"),
        (report::STARTING, CameraState::Starting, "starting"),
        (report::RUNNING, CameraState::Running, "running"),
        (report::UNAVAILABLE, CameraState::Unavailable, "unavailable"),
        (report::DENIED, CameraState::Denied, "denied"),
        (report::ERROR, CameraState::Error("boom".into()), "error"),
    ];
    for (code, state, label) in expected {
        assert_eq!(CameraState::from_report(code, "boom"), Some(state.clone()));
        assert_eq!(state.label(), label);
    }
    for code in [-1, report::PHOTO, report::SURFACE, 8, i32::MIN, i32::MAX] {
        assert_eq!(CameraState::from_report(code, "boom"), None);
    }
    assert_eq!(CameraState::default(), CameraState::Idle);
    assert_ne!(CameraState::Error("a".into()), CameraState::Error("b".into()));
    assert_ne!(CameraState::Error("idle".into()), CameraState::Idle);
}

#[test]
fn white_space_is_unicode_white_space() {
    for c in '\0'..=char::MAX {
        assert_eq!(is_white_space(c), c.is_whitespace(), "{c:?}");
    }
}

#[test]
fn trimming_takes_white_space_off_both_ends() {
    for text in ["", " ", " a", "a ", " a b ", "\u{2003}a\u{3000}", "\u{200b}a", "\t\r\n", "ab"] {
        assert_eq!(trim(text), text.trim(), "{text:?}");
    }
    assert_eq!(trim("  a b\n"), "a b");
}

#[test]
fn decimals_are_read_like_unsigned_numbers() {
    for text in [
        "", "+", "-", "0", "-0", "+0", "7", "007", "4294967295", "4294967296", "42949672950",
        "99999999999999999999999", "0000000000000000000009", "1x", "x1", " 1", "1 ", "++1", "1+",
        "\u{664}", "1_000",
    ] {
        assert_eq!(parse_decimal(text), text.parse::<u32>().ok(), "{text:?}");
    }
    assert_eq!(parse_decimal("+42"), Some(42));
    assert_eq!(parse_decimal("4294967296"), None);
}

#[test]
fn cutting_splits_at_the_first_separator() {
    assert_eq!(cut("a,b,c", ','), ("a", Some("b,c")));
    assert_eq!(cut("abc", ','), ("abc", None));
    assert_eq!(cut(",", ','), ("", Some("")));
    assert_eq!(cut("", ','), ("", None));
    assert_eq!(cut("\u{e9},\u{fc}", ','), ("\u{e9}", Some("\u{fc}")));
}
