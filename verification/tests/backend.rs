use wayland_desktop::backend::{after_wtype, InputStep, WaylandBackend, WindowListing};
use wayland_desktop::capture::{
    after_grim, after_portal, capture_grim, capture_pipewire_image, CaptureStep,
};
use wayland_desktop::error::{CoreResult, DesktopError, ErrorCode};
use wayland_desktop::keys::KeyName;
use wayland_desktop::raster::RgbaImage;
use wayland_desktop::types::{
    DeliveryMode, DesktopWindow, DisplaySelector, FrameGeometry, Target,
};

#[derive(Debug, PartialEq)]
struct Ax;

#[derive(Debug, PartialEq)]
struct Libei;

type Backend = WaylandBackend<Ax, Libei>;

fn backend_without_services() -> Backend {
    WaylandBackend {
        display: DisplaySelector::All,
        ax: None,
        ax_error: None,
        input: None,
        input_error: None,
        displays: Vec::new(),
    }
}

fn failed(code: ErrorCode, message: &str) -> DesktopError {
    DesktopError::new(code, message.to_string())
}

/// Stands in for a libei socket: connects when asked, and counts.
struct FakeLibei {
    connections: u32,
}

impl FakeLibei {
    fn attempt(&mut self, backend: &Backend, target: &Target) -> Option<CoreResult<Libei>> {
        if backend.needs_connection(target) {
            self.connections += 1;
            Some(Ok(Libei))
        } else {
            None
        }
    }
}

fn with_fake_libei(action: impl FnOnce(&mut Backend, &mut FakeLibei)) -> bool {
    let mut socket = FakeLibei { connections: 0 };
    let mut backend = WaylandBackend::new(
        DisplaySelector::All,
        Err(failed(ErrorCode::AxUnsupported, "no bus")),
    );
    action(&mut backend, &mut socket);
    socket.connections > 0
}

fn picture(width: u32, height: u32) -> RgbaImage {
    let bytes: Vec<u8> = (0..4 * width * height).map(|i| (i % 251) as u8).collect();
    RgbaImage::from_raw(width, height, bytes).expect("size fits")
}

fn window(id: &str, x: i32, y: i32, width: u32, height: u32) -> DesktopWindow {
    DesktopWindow {
        id: id.to_string(),
        title: "t".to_string(),
        app: "a".to_string(),
        pid: Some(7),
        x,
        y,
        width,
        height,
        focused: false,
    }
}

#[test]
fn readonly_backend_creation_does_not_connect_to_libei() {
    let mut capabilities = None;
    let connected = with_fake_libei(|backend, _| {
        assert!(backend.input.is_none() && backend.input_error.is_none());
        capabilities = Some(backend.capabilities(false, false, false))
    });
    assert!(!connected, "read-only backend construction connected to libei");
    let capabilities = capabilities.expect("Wayland capabilities");
    assert!(capabilities.input);
    assert_eq!(capabilities.input_permission, "prompt-or-granted");
}

#[test]
fn desktop_input_connects_to_libei_lazily() {
    let connected = with_fake_libei(|backend, socket| {
        let attempt = socket.attempt(backend, &Target::Desktop);
        let _ = backend.type_text(
            &Target::Desktop,
            "hello",
            DeliveryMode::Foreground,
            attempt,
            false,
        );
    });
    assert!(connected, "desktop input did not connect to libei");
}

#[test]
fn window_foreground_delivery_reports_compositor_constraint() {
    let mut backend = backend_without_services();
    let target = Target::Window("w1".to_string());
    let step = backend.type_text(&target, "hello", DeliveryMode::Foreground, None, false);
    let err = match step {
        InputStep::Failed(err) => err,
        other => panic!("window foreground input must fail: {other:?}"),
    };
    assert_eq!(err.code.as_str(), "BackgroundUnavailable");
    assert_eq!(
        err.message,
        "window w1 wayland-compositor-focus-only: Wayland cannot programmatically activate a \
         non-focused window for keyboard input; only the currently focused surface is reachable; \
         use ax actions or desktop input"
    );
}

#[test]
fn window_raise_reports_compositor_constraint() {
    let backend = backend_without_services();
    let err = backend
        .raise_window("w1", None)
        .expect_err("Wayland window raise must fail");
    assert_eq!(err.code.as_str(), "BackgroundUnavailable");
    assert_eq!(
        err.message,
        "window w1 wayland-compositor-focus-only: Wayland cannot programmatically activate a \
         non-focused window; only the currently focused surface is reachable"
    );
}

#[test]
fn capabilities_do_not_advertise_foreground_delivery() {
    let backend = backend_without_services();
    assert_eq!(backend.capabilities(false, false, false).delivery_modes, ["background"]);
    assert_eq!(backend.capabilities(true, true, true).delivery_modes, ["background"]);
    assert!(!backend.capabilities(true, true, true).background_window_input);
}

#[test]
fn capabilities_report_no_capture_without_pipewire_feature() {
    for has_grim in [true, false] {
        let backend = WaylandBackend::<Ax, Libei> {
            display: DisplaySelector::All,
            ax: None,
            ax_error: None,
            input: None,
            input_error: None,
            displays: Vec::new(),
        };
        let caps = backend.capabilities(false, has_grim, false);
        assert_eq!(caps.capture, has_grim);
        if has_grim {
            assert_eq!(caps.capture_permission, "prompt-or-granted");
        } else {
            assert_eq!(caps.capture_permission, "unavailable");
            let step = match backend.begin_capture(has_grim) {
                CaptureStep::Portal(grim_error) => {
                    after_portal(grim_error, capture_pipewire_image(None))
                }
                other => panic!("{other:?}"),
            };
            let err = match step {
                CaptureStep::Failed(err) => err,
                _ => panic!("capture must fail without the pipewire feature or grim"),
            };
            assert_eq!(err.code.as_str(), "CaptureFailed");
            assert_eq!(
                err.message,
                "Wayland capture requires the wayland-pipewire feature or the grim tool"
            );
        }
    }
}

#[test]
fn capabilities_follow_services() {
    let mut backend = WaylandBackend::<Ax, Libei>::new(DisplaySelector::All, Ok(Ax));
    let caps = backend.capabilities(true, false, false);
    assert_eq!(caps.backend, "wayland");
    assert_eq!(caps.display_server.as_deref(), Some("wayland"));
    assert!(caps.capture && caps.input && caps.ax);
    assert_eq!(caps.ax_permission, "granted");
    assert_eq!(caps.display_count, 0);
    backend.input_error = Some(failed(ErrorCode::PermissionDenied, "no"));
    let caps = backend.capabilities(false, true, false);
    assert!(!caps.input);
    assert_eq!(caps.input_permission, "unavailable");
    let caps = backend.capabilities(false, true, true);
    assert!(caps.input);
    assert_eq!(caps.input_permission, "granted");
    backend.input_error = None;
    backend.input = Some(Libei);
    assert_eq!(backend.capabilities(false, false, false).input_permission, "granted");
    assert_eq!(backend.ax(), Some(&mut Ax));
}

#[test]
fn connects_at_most_once() {
    let mut socket = FakeLibei { connections: 0 };
    let mut backend = backend_without_services();
    for _ in 0..3 {
        let attempt = socket.attempt(&backend, &Target::Desktop);
        assert_eq!(
            backend.pointer(&Target::Desktop, DeliveryMode::Background, attempt).expect("input"),
            &mut Libei
        );
    }
    assert_eq!(socket.connections, 1);
}

#[test]
fn no_operation_calls_for_another_connection() {
    for succeeds in [true, false] {
        let denied = || failed(ErrorCode::PermissionDenied, "denied");
        let mut backend = WaylandBackend::<Ax, u32>::new(DisplaySelector::All, Ok(Ax));
        let attempt = if succeeds { Ok(1) } else { Err(denied()) };
        let _ = backend.prepare_input(&Target::Desktop, "pointer input", Some(attempt));
        for round in 0..3 {
            let before = backend.input;
            backend.capture(&Target::Desktop, picture(3, 2), Ok(Vec::new())).expect("frame");
            *backend.ax().expect("bus") = Ax;
            let window = Target::Window("9".to_string());
            assert!(backend.pointer(&window, DeliveryMode::Background, Some(Ok(50))).is_err());
            let typed =
                backend.type_text(&Target::Desktop, "a", DeliveryMode::Background, None, false);
            assert_eq!(matches!(typed, InputStep::Deliver), succeeds);
            assert_eq!(backend.input, before);
            match backend.pointer(&Target::Desktop, DeliveryMode::Background, Some(Ok(60))) {
                Ok(input) => {
                    assert_eq!(*input, round + 1);
                    *input += 1;
                },
                Err(err) => assert_eq!(err.message, "denied"),
            }
            assert!(!backend.needs_connection(&Target::Desktop));
            assert_eq!(backend.input.is_some(), succeeds);
            assert_eq!(backend.input_error.is_some(), !succeeds);
            assert!(backend.ax.is_some() && backend.ax_error.is_none());
            assert_eq!(backend.displays.len(), 1);
        }
    }
}

#[test]
fn failed_connection_is_remembered() {
    let mut backend = backend_without_services();
    let attempt = Some(Err(failed(ErrorCode::PermissionDenied, "denied")));
    let err = backend
        .prepare_input(&Target::Desktop, "pointer input", attempt)
        .expect_err("must fail");
    assert_eq!(err.message, "denied");
    assert!(!backend.needs_connection(&Target::Desktop));
    let err = backend
        .prepare_input(&Target::Desktop, "pointer input", Some(Ok(Libei)))
        .expect_err("must still fail");
    assert_eq!(err.message, "denied");
    assert!(backend.input.is_none());
}

#[test]
fn input_without_any_attempt_is_denied() {
    let mut backend = backend_without_services();
    let err = backend
        .prepare_input(&Target::Desktop, "pointer input", None)
        .expect_err("must fail");
    assert_eq!(err.code.as_str(), "PermissionDenied");
    assert_eq!(
        err.message,
        "RemoteDesktop portal or LIBEI_SOCKET is required for Wayland input"
    );
}

#[test]
fn window_input_connects_nothing() {
    let mut backend = backend_without_services();
    let target = Target::Window("9".to_string());
    assert!(!backend.needs_connection(&target));
    let err = backend
        .pointer(&target, DeliveryMode::Background, Some(Ok(Libei)))
        .expect_err("must fail");
    assert!(err.message.contains("for pointer input;"));
    assert!(backend.input.is_none() && backend.input_error.is_none());
}

#[test]
fn text_goes_to_the_connection() {
    let mut backend = backend_without_services();
    let step = backend.type_text(
        &Target::Desktop,
        "x",
        DeliveryMode::Background,
        Some(Ok(Libei)),
        true,
    );
    assert!(matches!(step, InputStep::Deliver));
    assert_eq!(backend.input, Some(Libei));
}

#[test]
fn text_falls_back_to_wtype() {
    let mut backend = backend_without_services();
    let denied = || Some(Err(failed(ErrorCode::PermissionDenied, "denied")));
    let step =
        backend.type_text(&Target::Desktop, "-hi", DeliveryMode::Background, denied(), true);
    let otherwise = match step {
        InputStep::Run { command, otherwise } => {
            assert_eq!(command.program, "wtype");
            assert_eq!(command.args, ["--", "-hi"]);
            otherwise
        }
        other => panic!("{other:?}"),
    };
    assert!(after_wtype(otherwise.clone(), Ok(true)).is_ok());
    assert_eq!(after_wtype(otherwise.clone(), Ok(false)).expect_err("").message, "denied");
    let err = after_wtype(otherwise, Err("gone".to_string())).expect_err("");
    assert_eq!(err.code.as_str(), "PermissionDenied");
    assert_eq!(err.message, "wtype failed: gone");
    let step = backend.type_text(&Target::Desktop, "x", DeliveryMode::Background, None, false);
    match step {
        InputStep::Failed(err) => assert_eq!(err.message, "denied"),
        other => panic!("{other:?}"),
    }
}

#[test]
fn chord_falls_back_to_wtype() {
    let mut backend = backend_without_services();
    backend.input_error = Some(failed(ErrorCode::PermissionDenied, "denied"));
    let keys = [KeyName::Ctrl, KeyName::Char('c')];
    match backend.key_chord(&Target::Desktop, &keys, DeliveryMode::Background, None, true) {
        InputStep::Run { command, otherwise } => {
            assert_eq!(command.program, "wtype");
            assert_eq!(command.args, ["-M", "ctrl", "c"]);
            assert_eq!(otherwise.message, "denied");
        }
        other => panic!("{other:?}"),
    }
    let keys = [KeyName::Other("CapsLock".to_string())];
    match backend.key_chord(&Target::Desktop, &keys, DeliveryMode::Background, None, true) {
        InputStep::Failed(err) => {
            assert_eq!(err.code.as_str(), "InvalidKey");
            assert_eq!(err.message, "wtype fallback has no mapping for key `CapsLock`");
        }
        other => panic!("{other:?}"),
    }
    match backend.key_chord(&Target::Desktop, &keys, DeliveryMode::Background, None, false) {
        InputStep::Failed(err) => assert_eq!(err.message, "denied"),
        other => panic!("{other:?}"),
    }
    backend.input = Some(Libei);
    let step = backend.key_chord(&Target::Desktop, &keys, DeliveryMode::Background, None, true);
    assert!(matches!(step, InputStep::Deliver));
}

#[test]
fn raise_needs_a_number_and_success() {
    let backend = backend_without_services();
    assert!(backend.raise_window("12", Some(true)).is_ok());
    assert!(backend.raise_window("+12", Some(true)).is_ok());
    assert!(backend.raise_window("12", Some(false)).is_err());
    assert!(backend.raise_window("12", None).is_err());
    assert!(backend.raise_window("-12", Some(true)).is_err());
    assert!(backend.raise_window("", Some(true)).is_err());
}

#[test]
fn only_the_portal_monitor_can_be_selected() {
    let mut backend = backend_without_services();
    assert!(backend.selected_display_allowed().is_ok());
    for id in ["wayland-portal-0", "wayland-display-0"] {
        backend.display = DisplaySelector::Id(id.to_string());
        assert!(backend.selected_display_allowed().is_ok());
    }
    backend.display = DisplaySelector::Id("HDMI-1".to_string());
    let err = backend.selected_display_allowed().expect_err("must fail");
    assert_eq!(err.code.as_str(), "InvalidTarget");
    assert_eq!(err.message, "Wayland display 'HDMI-1' is unavailable; use 'all'");
    match backend.begin_capture(true) {
        CaptureStep::Failed(err) => assert_eq!(err.code, ErrorCode::InvalidTarget),
        other => panic!("{other:?}"),
    }
    for target in [Target::Desktop, Target::Window("1".to_string())] {
        let err = backend
            .capture(&target, picture(2, 2), Ok(vec![window("1", 0, 0, 1, 1)]))
            .map(|_| ())
            .expect_err("must fail");
        assert_eq!(err.message, "Wayland display 'HDMI-1' is unavailable; use 'all'");
        assert!(backend.displays.is_empty());
    }
}

#[test]
fn grim_is_tried_before_the_portal() {
    let backend = backend_without_services();
    assert!(matches!(backend.begin_capture(true), CaptureStep::Grim));
    assert!(matches!(backend.begin_capture(false), CaptureStep::Portal(None)));
    match after_grim(Ok(picture(2, 1))) {
        CaptureStep::Done(picture) => assert_eq!((picture.width(), picture.height()), (2, 1)),
        other => panic!("{other:?}"),
    }
    let grim_error = match after_grim(Err(failed(ErrorCode::CaptureFailed, "grim"))) {
        CaptureStep::Portal(grim_error) => grim_error,
        other => panic!("{other:?}"),
    };
    match after_portal(grim_error, Err(failed(ErrorCode::CaptureFailed, "portal"))) {
        CaptureStep::Failed(err) => assert_eq!(err.message, "grim"),
        other => panic!("{other:?}"),
    }
    match after_portal(
        Some(failed(ErrorCode::CaptureFailed, "grim")),
        capture_pipewire_image(Some(Ok(picture(1, 1)))),
    ) {
        CaptureStep::Done(picture) => assert_eq!(picture.width(), 1),
        other => panic!("{other:?}"),
    }
    match after_portal(None, Err(failed(ErrorCode::CaptureFailed, "portal"))) {
        CaptureStep::Failed(err) => assert_eq!(err.message, "portal"),
        other => panic!("{other:?}"),
    }
}

#[test]
fn desktop_capture_knows_one_display() {
    let mut backend = backend_without_services();
    assert!(backend.displays().expect("displays").is_empty());
    let shown = picture(3, 2);
    let bytes = shown.as_raw().clone();
    let (frame, geometry) =
        backend.capture(&Target::Desktop, shown, Ok(Vec::new())).expect("frame");
    assert_eq!(frame.as_raw(), &bytes);
    match geometry {
        FrameGeometry::Displays(displays) => assert_eq!(displays.len(), 1),
        other => panic!("{other:?}"),
    }
    let displays = backend.displays().expect("displays");
    assert_eq!(displays.len(), 1);
    let display = &displays[0];
    assert_eq!(display.id, "wayland-portal-0");
    assert_eq!(display.name, "Wayland portal monitor");
    assert_eq!((display.x, display.y, display.width, display.height), (0, 0, 3, 2));
    assert_eq!((display.pixel_x, display.pixel_y), (0, 0));
    assert_eq!((display.pixel_width, display.pixel_height), (3, 2));
    assert_eq!(display.scale, 1);
    assert!(display.is_primary);
    assert_eq!(backend.capabilities(false, true, false).display_count, 1);
}

#[test]
fn window_capture_crops_the_monitor() {
    let mut backend = backend_without_services();
    let shown = picture(4, 3);
    let bytes = shown.as_raw().clone();
    let listed = vec![window("1", 0, 0, 1, 1), window("2", 1, 1, 2, 9), window("2", 0, 0, 4, 3)];
    let (frame, geometry) = backend
        .capture(&Target::Window("2".to_string()), shown, Ok(listed))
        .expect("frame");
    assert_eq!((frame.width(), frame.height()), (2, 2));
    let pixel = |x: usize, y: usize| bytes[4 * (y * 4 + x)..4 * (y * 4 + x) + 4].to_vec();
    let expected = [pixel(1, 1), pixel(2, 1), pixel(1, 2), pixel(2, 2)].concat();
    assert_eq!(frame.as_raw(), &expected);
    match geometry {
        FrameGeometry::Window { window, pixel_width, pixel_height } => {
            assert_eq!((window.x, window.y, window.width, window.height), (1, 1, 2, 9));
            assert_eq!((pixel_width, pixel_height), (2, 2));
        }
        other => panic!("{other:?}"),
    }
    assert_eq!(backend.displays.len(), 1);
}

#[test]
fn covering_window_shows_the_whole_picture() {
    let mut backend = backend_without_services();
    let shown = picture(5, 4);
    let bytes = shown.as_raw().clone();
    let (frame, _) = backend
        .capture(
            &Target::Window("w".to_string()),
            shown,
            Ok(vec![window("w", 0, 0, 500, 400)]),
        )
        .expect("frame");
    assert_eq!(frame.as_raw(), &bytes);
}

#[test]
fn window_capture_errors() {
    let mut backend = backend_without_services();
    let mut capture = |id: &str, listed: CoreResult<Vec<DesktopWindow>>| {
        backend
            .capture(&Target::Window(id.to_string()), picture(4, 3), listed)
            .map(|_| ())
            .expect_err("must fail")
    };
    let err = capture("x", Ok(vec![window("1", 0, 0, 1, 1)]));
    assert_eq!(err.code.as_str(), "WindowNotFound");
    assert_eq!(err.message, "Wayland window x not found");
    let err = capture("1", Ok(vec![window("1", -1, 0, 1, 1)]));
    assert_eq!(err.code.as_str(), "CaptureFailed");
    assert_eq!(
        err.message,
        "Wayland portal monitor stream cannot crop a window outside the selected monitor"
    );
    for outside in [window("1", 4, 0, 1, 1), window("1", 0, 3, 1, 1), window("1", 0, 0, 0, 1)] {
        let err = capture("1", Ok(vec![outside]));
        assert_eq!(err.code.as_str(), "CaptureFailed");
        assert_eq!(err.message, "Wayland window 1 is outside the selected portal monitor");
    }
    let err = capture("1", Err(failed(ErrorCode::AxUnsupported, "no list")));
    assert_eq!(err.message, "no list");
    assert_eq!(backend.displays.len(), 1);
}

#[test]
fn window_listing_sources() {
    let mut backend = backend_without_services();
    let listed = backend.windows(None, Some(vec![window("1", 0, 0, 1, 1)]));
    assert!(matches!(listed, WindowListing::Listed(windows) if windows.len() == 1));
    let unheard = backend.windows(Some(vec![window("1", 0, 0, 1, 1)]), None);
    assert!(matches!(unheard, WindowListing::Failed(_)));
    match backend.windows(None, Some(Vec::new())) {
        WindowListing::Failed(err) => assert_eq!(err.code.as_str(), "AxUnsupported"),
        other => panic!("{other:?}"),
    }
    backend.ax_error = Some(failed(ErrorCode::PermissionDenied, "bus"));
    match backend.windows(None, None) {
        WindowListing::Failed(err) => assert_eq!(err.message, "bus"),
        other => panic!("{other:?}"),
    }
    backend.ax_error = None;
    backend.ax = Some(Ax);
    assert!(matches!(backend.windows(None, None), WindowListing::AskAgain));
    let listed = backend.windows(Some(vec![window("1", 0, 0, 1, 1)]), None);
    assert!(matches!(listed, WindowListing::Listed(windows) if windows[0].id == "1"));
    let listed = backend.windows(Some(Vec::new()), Some(vec![window("5", 0, 0, 1, 1)]));
    assert!(matches!(listed, WindowListing::Listed(windows) if windows[0].id == "5"));
}

#[test]
fn grim_run_that_could_not_start() {
    let err = capture_grim(&Err("no such file".to_string())).expect_err("must fail");
    assert_eq!(err.code.as_str(), "CaptureFailed");
    assert_eq!(err.message, "failed to run grim: no such file");
}

#[test]
fn offers_match_permissions() {
    for has_wtype in [true, false] {
        for has_grim in [true, false] {
            for ax in [Ok(Ax), Err(failed(ErrorCode::AxUnsupported, "no bus"))] {
                let mut backend = WaylandBackend::<Ax, Libei>::new(DisplaySelector::All, ax);
                for denied in [false, true] {
                    if denied {
                        backend.input_error = Some(failed(ErrorCode::PermissionDenied, "no"));
                    }
                    let caps = backend.capabilities(false, has_grim, has_wtype);
                    assert_eq!(caps.input, caps.input_permission != "unavailable");
                    assert_eq!(caps.capture, caps.capture_permission != "unavailable");
                    assert_eq!(caps.ax, caps.ax_permission != "unavailable");
                }
            }
        }
    }
}

#[test]
fn services_are_connected_or_failed_never_both() {
    let mut backend = WaylandBackend::<Ax, Libei>::new(
        DisplaySelector::All,
        Err(failed(ErrorCode::AxUnsupported, "no bus")),
    );
    assert!(backend.ax.is_none() && backend.ax_error.is_some());
    for attempt in [Some(Ok(Libei)), Some(Err(failed(ErrorCode::PermissionDenied, "no"))), None] {
        let _ = backend.prepare_input(&Target::Desktop, "pointer input", attempt);
        assert!(backend.input.is_some() && backend.input_error.is_none());
    }
}
