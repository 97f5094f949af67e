use wayland_desktop::capture::{capture_grim, grim_picture, grim_refused};
use wayland_desktop::json::{parse_json, JsonNode};
use wayland_desktop::keys::{wtype_chord_command, KeyName};
use wayland_desktop::niri::{niri_windows, windows_from_json};
use wayland_desktop::raster::RgbaImage;
use wayland_desktop::text::{decimal_text, parse_unsigned};
use wayland_desktop::tools::{
    grim_command, has_tool, niri_focus_command, niri_windows_command, CommandOutput, Tool, ToolFile,
};
use wayland_desktop::types::DesktopWindow;
use wayland_desktop::windows::merge_windows;

fn ran(success: bool, stdout: &[u8], stderr: &[u8]) -> CommandOutput {
    CommandOutput { success, stdout: stdout.to_vec(), stderr: stderr.to_vec() }
}

fn png(width: u32, height: u32, bytes: Vec<u8>) -> Vec<u8> {
    let mut encoded = std::io::Cursor::new(Vec::new());
    image::RgbaImage::from_raw(width, height, bytes)
        .expect("size fits")
        .write_to(&mut encoded, image::ImageFormat::Png)
        .expect("encodes");
    encoded.into_inner()
}

#[test]
fn grim_picture_is_decoded() {
    let bytes: Vec<u8> = (0..24).collect();
    let encoded = png(3, 2, bytes.clone());
    let picture = capture_grim(&Ok(ran(true, &encoded, b""))).expect("picture");
    assert_eq!((picture.width(), picture.height()), (3, 2));
    assert_eq!(picture.as_raw(), &bytes);
}

#[test]
fn rgb_picture_becomes_opaque_rgba() {
    let mut encoded = std::io::Cursor::new(Vec::new());
    image::RgbImage::from_raw(1, 1, vec![1, 2, 3])
        .expect("size fits")
        .write_to(&mut encoded, image::ImageFormat::Png)
        .expect("encodes");
    let picture = RgbaImage::decode(&encoded.into_inner()).expect("picture");
    assert_eq!(picture.as_raw(), &vec![1, 2, 3, 255]);
}

#[test]
fn grim_picture_that_is_none() {
    let err = capture_grim(&Ok(ran(true, b"not a picture", b""))).expect_err("must fail");
    assert_eq!(err.code.as_str(), "CaptureFailed");
    assert_eq!(
        err.message,
        "failed to decode grim PNG: The image format could not be determined"
    );
    let err = grim_picture(Err("reason".to_string())).expect_err("must fail");
    assert_eq!(err.message, "failed to decode grim PNG: reason");
    assert!(RgbaImage::from_raw(2, 2, vec![0; 15]).is_none());
}

#[test]
fn pictures_that_do_not_decode() {
    let text = |bytes: &[u8]| RgbaImage::decode(bytes).map(|_| ()).expect_err("must fail");
    assert_eq!(text(b""), "The image format could not be determined");
    assert_eq!(text(b"GIF89a"), "The image format Gif is not supported");
    let whole = png(3, 2, vec![9; 24]);
    let cut = &whole[..20];
    let reason = image::load_from_memory(cut).map(|_| ()).expect_err("must fail").to_string();
    assert_eq!(text(cut), reason);
}

#[test]
fn registered_hooks_do_not_change_what_is_decoded() {
    let encoded = png(2, 1, vec![1, 2, 3, 4, 5, 6, 7, 8]);
    let before = RgbaImage::decode(&encoded).expect("picture");
    image::hooks::register_format_detection_hook("other".into(), b"\x89PNG\r\n\x1a\n", None);
    let after = RgbaImage::decode(&encoded).expect("picture");
    assert_eq!(before.as_raw(), after.as_raw());
    let loaded = image::load_from_memory(&encoded).expect("picture").to_rgba8();
    assert_eq!(after.as_raw(), loaded.as_raw());
}

#[test]
fn grim_run_that_failed() {
    let err = capture_grim(&Ok(ran(false, b"", b"no output"))).expect_err("must fail");
    assert_eq!(err.code.as_str(), "CaptureFailed");
    assert_eq!(err.message, "grim capture failed: no output");
    let err = capture_grim(&Ok(ran(false, b"", b"a\xffb"))).expect_err("must fail");
    assert_eq!(err.message, "grim capture failed: a\u{fffd}b");
    assert_eq!(grim_refused("x").message, "grim capture failed: x");
}

#[test]
fn commands() {
    let grim = grim_command();
    assert_eq!(grim.program, "grim");
    assert_eq!(grim.args, ["-l", "0", "-t", "png", "-"]);
    let niri = niri_windows_command();
    assert_eq!(niri.program, "niri");
    assert_eq!(niri.args, ["msg", "--json", "windows"]);
    let focus = niri_focus_command("+007").expect("a number");
    assert_eq!(focus.program, "niri");
    assert_eq!(focus.args, ["msg", "action", "focus-window", "--id", "7"]);
    assert!(niri_focus_command("w1").is_none());
    assert_eq!(Tool::Grim.program(), "grim");
    assert_eq!(Tool::Wtype.program(), "wtype");
    assert_eq!(Tool::Niri.program(), "niri");
}

#[test]
fn tools_are_executable_files() {
    let file = |is_file, mode| Some(ToolFile { is_file, mode });
    assert!(!has_tool(&[]));
    assert!(!has_tool(&[None, file(true, 0o644), file(false, 0o755)]));
    assert!(has_tool(&[None, file(true, 0o644), file(true, 0o001)]));
    assert!(has_tool(&[file(true, 0o100)]));
    assert!(has_tool(&[file(true, 0o010)]));
}

#[test]
fn numbers_read_and_written() {
    assert_eq!(parse_unsigned("0"), Some(0));
    assert_eq!(parse_unsigned("+5"), Some(5));
    assert_eq!(parse_unsigned("00012"), Some(12));
    assert_eq!(parse_unsigned("18446744073709551615"), Some(u64::MAX));
    assert_eq!(parse_unsigned("18446744073709551616"), None);
    assert_eq!(parse_unsigned("99999999999999999999999"), None);
    for text in ["", "+", "-1", "++1", " 1", "1 ", "1a", "\u{661}"] {
        assert_eq!(parse_unsigned(text), None);
        assert!(text.parse::<u64>().is_err());
    }
    for n in [0, 9, 10, 1234567890, u64::MAX] {
        assert_eq!(decimal_text(n), n.to_string());
        assert_eq!(parse_unsigned(&decimal_text(n)), Some(n));
    }
}

#[test]
fn chord_arguments() {
    let keys = [
        KeyName::Ctrl,
        KeyName::Alt,
        KeyName::Shift,
        KeyName::Meta,
        KeyName::Enter,
        KeyName::Escape,
        KeyName::Tab,
        KeyName::Space,
        KeyName::Backspace,
        KeyName::Delete,
        KeyName::Home,
        KeyName::End,
        KeyName::PageUp,
        KeyName::PageDown,
        KeyName::Up,
        KeyName::Down,
        KeyName::Left,
        KeyName::Right,
        KeyName::F1,
        KeyName::F2,
        KeyName::F3,
        KeyName::F4,
        KeyName::F5,
        KeyName::F6,
        KeyName::F7,
        KeyName::F8,
        KeyName::F9,
        KeyName::F10,
        KeyName::F11,
        KeyName::F12,
        KeyName::Char('\u{e9}'),
    ];
    let command = wtype_chord_command(&keys).expect("all mapped");
    assert_eq!(command.program, "wtype");
    assert_eq!(
        command.args.join(" "),
        "-M ctrl -M alt -M shift -M logo -k Return -k Escape -k Tab -k space -k BackSpace \
         -k Delete -k Home -k End -k Page_Up -k Page_Down -k Up -k Down -k Left -k Right -k F1 \
         -k F2 -k F3 -k F4 -k F5 -k F6 -k F7 -k F8 -k F9 -k F10 -k F11 -k F12 \u{e9}"
    );
    assert!(wtype_chord_command(&[]).expect("empty").args.is_empty());
    let keys = [
        KeyName::Char('a'),
        KeyName::Other("Pause".to_string()),
        KeyName::Other("Menu".to_string()),
    ];
    let err = wtype_chord_command(&keys).expect_err("must fail");
    assert_eq!(err.code.as_str(), "InvalidKey");
    assert_eq!(err.message, "wtype fallback has no mapping for key `Pause`");
}

#[test]
fn niri_windows_are_read() {
    let report = br#"[
        {"id": 12, "title": "Mail", "app_id": "org.mail", "pid": 42, "is_focused": true,
         "layout": {"window_size": [800, 600]}},
        {"title": "no id"},
        {"id": "a\"b", "title": 5, "pid": -1, "is_focused": "yes", "layout": {"window_size": [7]}},
        {"id": {"z": [1.5, null], "a": true}, "pid": 4294967298,
         "layout": {"window_size": [4294967299, 1.0]}},
        {"id": null, "layout": {"window_size": 3}},
        17
    ]"#;
    let windows = niri_windows(Some(&ran(true, report, b""))).expect("windows");
    assert_eq!(windows.len(), 4);
    assert_eq!(windows[0].id, "12");
    assert_eq!(windows[0].title, "Mail");
    assert_eq!(windows[0].app, "org.mail");
    assert_eq!(windows[0].pid, Some(42));
    assert_eq!((windows[0].x, windows[0].y), (0, 0));
    assert_eq!((windows[0].width, windows[0].height), (800, 600));
    assert!(windows[0].focused);
    assert_eq!(windows[1].id, "\"a\\\"b\"");
    assert_eq!(windows[1].title, "");
    assert_eq!(windows[1].app, "");
    assert_eq!(windows[1].pid, None);
    assert_eq!((windows[1].width, windows[1].height), (7, 0));
    assert!(!windows[1].focused);
    assert_eq!(windows[2].id, "{\"a\":true,\"z\":[1.5,null]}");
    assert_eq!(windows[2].pid, Some(2));
    assert_eq!((windows[2].width, windows[2].height), (3, 0));
    assert_eq!(windows[3].id, "null");
    assert_eq!((windows[3].width, windows[3].height), (0, 0));
}

#[test]
fn niri_reports_that_are_none() {
    assert!(niri_windows(None).is_none());
    assert!(niri_windows(Some(&ran(false, b"[]", b""))).is_none());
    assert!(niri_windows(Some(&ran(true, b"{}", b""))).is_none());
    assert!(niri_windows(Some(&ran(true, b"[", b""))).is_none());
    assert!(niri_windows(Some(&ran(true, b"[] x", b""))).is_none());
    assert!(niri_windows(Some(&ran(true, b"[]", b""))).expect("empty").is_empty());
}

#[test]
fn json_is_taken_apart() {
    let value = parse_json(br#"{"k": [true, 3, -3, "s"], "k2": null, "k": [false, 4, 0.5, "t"]}"#)
        .expect("a document");
    assert_eq!(value.text, r#"{"k":[false,4,0.5,"t"],"k2":null}"#);
    let items = value.get("k").expect("member").as_array().expect("array");
    assert_eq!(items.len(), 4);
    assert_eq!(items[0].as_bool(), Some(false));
    assert_eq!(items[1].as_u64(), Some(4));
    assert_eq!(items[2].as_u64(), None);
    assert_eq!(items[3].as_str(), Some("t"));
    assert_eq!(items[3].text, "\"t\"");
    assert!(matches!(value.get("k2").expect("member").node, JsonNode::Null));
    assert!(value.get("missing").is_none());
    assert!(items[0].get("k").is_none());
    assert!(windows_from_json(&value).is_none());
    assert!(parse_json(b"nope").is_none());
}

fn window(id: &str, pid: Option<u32>, title: &str) -> DesktopWindow {
    DesktopWindow {
        id: id.to_string(),
        title: title.to_string(),
        app: String::new(),
        pid,
        x: 0,
        y: 0,
        width: 1,
        height: 1,
        focused: false,
    }
}

#[test]
fn merged_windows_have_no_duplicates() {
    let first = vec![window("1", Some(1), "a"), window("2", Some(1), "a")];
    let second = vec![
        window("3", Some(1), "a"),
        window("4", Some(1), "b"),
        window("5", None, "a"),
        window("6", None, "a"),
        window("7", Some(2), "a"),
    ];
    let merged = merge_windows(first, second);
    let ids: Vec<&str> = merged.iter().map(|window| window.id.as_str()).collect();
    assert_eq!(ids, ["1", "2", "4", "5", "7"]);
    let again = merge_windows(merged.clone(), merged.clone());
    assert_eq!(again.len(), merged.len());
}

#[test]
fn chords_in_a_row_join_their_arguments() {
    let args = |keys: &[KeyName]| wtype_chord_command(keys).expect("all mapped").args;
    let first = args(&[KeyName::Alt, KeyName::Tab]);
    let second = args(&[KeyName::Char('x'), KeyName::F5]);
    let both = args(&[KeyName::Alt, KeyName::Tab, KeyName::Char('x'), KeyName::F5]);
    assert_eq!(both, [first, second].concat());
}

#[test]
fn joined_reports_list_both() {
    let ids = |report: &[u8]| -> Vec<String> {
        let windows = niri_windows(Some(&ran(true, report, b""))).expect("windows");
        windows.into_iter().map(|window| window.id).collect()
    };
    let first = ids(br#"[{"id": 1}, {"no": 2}]"#);
    let second = ids(br#"[{"id": 3}, {"id": 4}]"#);
    let both = ids(br#"[{"id": 1}, {"no": 2}, {"id": 3}, {"id": 4}]"#);
    assert_eq!(both, [first, second].concat());
    assert_eq!(both, ["1", "3", "4"]);
}
