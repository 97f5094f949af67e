//! What holds of the backend as a whole.

use vstd::prelude::*;

use crate::backend::{
    attempt_view, chord_command, display_allowed, heard, input_missing, keyboard_step,
    optional_views, raise_refused, unit_view, window_input_refused, window_listing, BackendView,
    InputStep, InputStepView, WaylandBackend, WindowListing, WindowListingView,
};
use crate::capture::{
    captured, first_step, portal_missing, step_after_grim, step_after_portal, synthetic_view,
    CaptureStepView,
};
use crate::error::{DesktopError, ErrorCode, ErrorView};
use crate::keys::{chord_args, KeyName};
use crate::raster::ImageView;
use crate::tools::{CommandView, ToolCommand};
use crate::types::{
    display_views, window_views, DesktopWindow, SelectorView, TargetView, WindowView,
};
use crate::windows::{law_merge_empty, merged};

verus! {

/// An operation that can change a backend, with what it is given. The others
/// only look at it.
pub enum OperationView<A, I> {
    /// Input is prepared for, by `prepare_input`, `pointer`, `type_text` or
    /// `key_chord`. Where it can be delivered, the connection takes it, and is
    /// `left` afterwards.
    Input {
        target: TargetView,
        kind: Seq<char>,
        attempt: Option<Result<I, ErrorView>>,
        left: I,
    },
    /// `capture` is given a picture of the monitor.
    Capture { picture: ImageView },
    /// `ax` lends the connection to the accessibility bus, if there is one,
    /// and it is `left` afterwards.
    Ax { left: A },
}

/// The backend after an operation.
pub open spec fn after_operation<A, I>(
    backend: BackendView<A, I>,
    operation: OperationView<A, I>,
) -> BackendView<A, I> {
    match operation {
        OperationView::Input { target, kind, attempt, left } => {
            let prepared = backend.prepared(target, attempt);
            if prepared.input_refused(target, kind) is None {
                prepared.input_left(left)
            } else {
                prepared
            }
        },
        OperationView::Capture { picture } => backend.after_capture(picture),
        OperationView::Ax { left } => if backend.ax is Some {
            backend.ax_left(left)
        } else {
            backend
        },
    }
}

/// The backend after operations in a row.
pub open spec fn after_operations<A, I>(
    backend: BackendView<A, I>,
    operations: Seq<OperationView<A, I>>,
) -> BackendView<A, I>
    decreases operations.len(),
{
    if operations.len() == 0 {
        backend
    } else {
        after_operation(after_operations(backend, operations.drop_last()), operations.last())
    }
}

/// No operation breaks the consistency of a backend, so none of any number in
/// a row does.
pub proof fn law_consistency_is_kept<A, I>(
    backend: BackendView<A, I>,
    operations: Seq<OperationView<A, I>>,
)
    requires
        backend.consistent(),
    ensures
        forall|operation: OperationView<A, I>| #[trigger]
            after_operation(backend, operation).consistent(),
        after_operations(backend, operations).consistent(),
    decreases operations.len(),
{
    if operations.len() > 0 {
        law_consistency_is_kept(backend, operations.drop_last());
        let before = after_operations(backend, operations.drop_last());
        assert(after_operation(before, operations.last()).consistent());
    }
}

/// Until input is first needed nothing is connected, and input is offered as
/// something that may have to be asked for.
pub proof fn law_input_is_offered_before_it_is_connected<A, I>(
    backend: BackendView<A, I>,
    pipewire: bool,
    has_grim: bool,
    has_wtype: bool,
)
    requires
        backend.input is None,
        backend.input_error is None,
    ensures
        backend.wants_connection(TargetView::Desktop),
        backend.capabilities(pipewire, has_grim, has_wtype).input,
        backend.capabilities(pipewire, has_grim, has_wtype).input_permission
            == "prompt-or-granted"@,
{
}

/// A connection is attempted at most once. After one attempt, successful or
/// not, and after any operations that follow it, no input calls for another, a
/// further attempt would be ignored, and the outcome still decides which input
/// is refused and how.
pub proof fn law_connects_at_most_once<A, I>(
    backend: BackendView<A, I>,
    attempt: Result<I, ErrorView>,
    operations: Seq<OperationView<A, I>>,
    target: TargetView,
    kind: Seq<char>,
    again: Option<Result<I, ErrorView>>,
)
    ensures
        ({
            let tried = backend.prepared(TargetView::Desktop, Some(attempt));
            let later = after_operations(tried, operations);
            &&& tried.attempted()
            &&& later.attempted()
            &&& !later.wants_connection(target)
            &&& later.prepared(target, again) == later
            &&& later.input is Some <==> tried.input is Some
            &&& later.input_error == tried.input_error
            &&& later.input_refused(target, kind) == tried.input_refused(target, kind)
        }),
    decreases operations.len(),
{
    if operations.len() > 0 {
        law_connects_at_most_once(
            backend,
            attempt,
            operations.drop_last(),
            target,
            kind,
            again,
        );
    }
}

/// Desktop input is delivered after a successful attempt to connect, and
/// refused with the attempt's own error after a failed one.
pub proof fn law_attempt_decides_desktop_input<A, I>(
    backend: BackendView<A, I>,
    attempt: Result<I, ErrorView>,
    kind: Seq<char>,
)
    requires
        backend.wants_connection(TargetView::Desktop),
    ensures
        backend.prepared(TargetView::Desktop, Some(attempt)).input_refused(
            TargetView::Desktop,
            kind,
        ) == (match attempt {
            Ok(_) => None,
            Err(err) => Some(err),
        }),
        backend.prepared(TargetView::Desktop, None).input_refused(TargetView::Desktop, kind)
            == Some(input_missing()),
{
}

/// Input aimed at a window never connects anything, leaves the backend as it
/// was, and is always refused with the same error, `wtype` or not.
pub proof fn law_window_input_is_refused<A, I>(
    backend: BackendView<A, I>,
    id: Seq<char>,
    kind: Seq<char>,
    attempt: Option<Result<I, ErrorView>>,
    has_wtype: bool,
    command: Result<CommandView, ErrorView>,
)
    ensures
        ({
            let target = TargetView::Window(id);
            let refused = backend.input_refused(target, kind);
            &&& !backend.wants_connection(target)
            &&& backend.prepared(target, attempt) == backend
            &&& refused == Some(window_input_refused(id, kind))
            &&& refused->0.code == ErrorCode::BackgroundUnavailable
            &&& keyboard_step(refused, target, has_wtype, command) == InputStepView::Failed(
                window_input_refused(id, kind),
            )
        }),
{
}

/// Where input is not offered, no input is delivered and nothing is run,
/// whatever the target.
pub proof fn law_no_input_unless_offered<A, I>(
    backend: BackendView<A, I>,
    pipewire: bool,
    has_grim: bool,
    has_wtype: bool,
    target: TargetView,
    kind: Seq<char>,
    attempt: Option<Result<I, ErrorView>>,
    command: Result<CommandView, ErrorView>,
)
    requires
        backend.consistent(),
        !backend.capabilities(pipewire, has_grim, has_wtype).input,
    ensures
        backend.prepared(target, attempt) == backend,
        backend.input_refused(target, kind) is Some,
        keyboard_step(backend.input_refused(target, kind), target, has_wtype, command)
            == InputStepView::Failed(backend.input_refused(target, kind)->0),
{
}

/// Input is offered exactly where its permission is not `unavailable`, and
/// likewise capture and accessibility.
pub proof fn law_offers_match_permissions<A, I>(
    backend: BackendView<A, I>,
    pipewire: bool,
    has_grim: bool,
    has_wtype: bool,
)
    requires
        backend.consistent(),
    ensures
        ({
            let offered = backend.capabilities(pipewire, has_grim, has_wtype);
            &&& offered.input <==> offered.input_permission != "unavailable"@
            &&& offered.capture <==> offered.capture_permission != "unavailable"@
            &&& offered.ax <==> offered.ax_permission != "unavailable"@
        }),
{
    reveal_strlit("granted");
    reveal_strlit("prompt-or-granted");
    reveal_strlit("unavailable");
    assert("granted"@.len() != "unavailable"@.len());
    assert("prompt-or-granted"@.len() != "unavailable"@.len());
}

/// Foreground delivery and input to windows are never offered.
pub proof fn law_only_background_delivery<A, I>(
    backend: BackendView<A, I>,
    pipewire: bool,
    has_grim: bool,
    has_wtype: bool,
)
    ensures
        backend.capabilities(pipewire, has_grim, has_wtype).delivery_modes == seq!["background"@],
        !backend.capabilities(pipewire, has_grim, has_wtype).background_window_input,
{
}

/// Following the steps of a capture leads to the picture, or the error, that
/// the capture ends with. `grim` and the portal are each asked at most once,
/// and the portal only where `grim` is not installed or took no picture.
pub proof fn law_capture_steps(
    allowed: Result<(), ErrorView>,
    has_grim: bool,
    grim: Result<ImageView, ErrorView>,
    portal: Result<ImageView, ErrorView>,
)
    ensures
        ({
            let end = captured(allowed, has_grim, grim, portal);
            match first_step(allowed, has_grim) {
                CaptureStepView::Failed(err) => end == Err::<ImageView, ErrorView>(err),
                CaptureStepView::Done(_) => false,
                CaptureStepView::Grim => has_grim && match step_after_grim(grim) {
                    CaptureStepView::Done(picture) => end == Ok::<ImageView, ErrorView>(picture),
                    CaptureStepView::Portal(err) => grim is Err && ends_with(
                        step_after_portal(err, portal),
                        end,
                    ),
                    _ => false,
                },
                CaptureStepView::Portal(err) => !has_grim && ends_with(
                    step_after_portal(err, portal),
                    end,
                ),
            }
        }),
{
}

/// Whether a step is the last one, with the given outcome.
pub open spec fn ends_with(step: CaptureStepView, end: Result<ImageView, ErrorView>) -> bool {
    match step {
        CaptureStepView::Done(picture) => end == Ok::<ImageView, ErrorView>(picture),
        CaptureStepView::Failed(err) => end == Err::<ImageView, ErrorView>(err),
        _ => false,
    }
}

/// Where both `grim` and the portal fail, the error of `grim` is reported.
pub proof fn law_grim_error_stands(
    grim: Result<ImageView, ErrorView>,
    portal: Result<ImageView, ErrorView>,
)
    requires
        grim is Err,
        portal is Err,
    ensures
        captured(Ok(()), true, grim, portal) == grim,
{
}

/// Capture and the capability to capture agree. Without the capability every
/// capture fails, and with an allowed display it fails for the lack of both
/// means; with it, a picture that one of the means takes is not lost.
pub proof fn law_capture_agrees_with_capability<A, I>(
    backend: BackendView<A, I>,
    pipewire: bool,
    has_grim: bool,
    has_wtype: bool,
    grim: Result<ImageView, ErrorView>,
    taken: Result<ImageView, ErrorView>,
)
    ensures
        ({
            let allowed = display_allowed(backend.display);
            let portal = if pipewire {
                taken
            } else {
                Err(portal_missing())
            };
            let end = captured(allowed, has_grim, grim, portal);
            let offered = backend.capabilities(pipewire, has_grim, has_wtype).capture;
            &&& end is Ok ==> offered
            &&& !offered && allowed is Ok ==> end == Err::<ImageView, ErrorView>(portal_missing())
            &&& !offered && allowed is Ok ==> end->Err_0.code == ErrorCode::CaptureFailed
            &&& allowed is Ok && has_grim && grim is Ok ==> end == grim
            &&& allowed is Ok && pipewire && taken is Ok ==> end is Ok
        }),
{
}

/// A display that cannot be selected is never captured.
pub proof fn law_unknown_display_is_never_captured(
    allowed: Result<(), ErrorView>,
    has_grim: bool,
    grim: Result<ImageView, ErrorView>,
    portal: Result<ImageView, ErrorView>,
)
    requires
        allowed is Err,
    ensures
        captured(allowed, has_grim, grim, portal) == Err::<ImageView, ErrorView>(allowed->Err_0),
{
}

/// Once a picture was taken exactly one display is known: the one that the
/// picture stands for.
pub proof fn law_one_display_after_picture<A, I>(
    backend: BackendView<A, I>,
    picture: ImageView,
    pipewire: bool,
    has_grim: bool,
    has_wtype: bool,
)
    ensures
        backend.after_picture(picture).displays.len() == 1,
        backend.after_picture(picture).displays[0].pixel_width == picture.width,
        backend.after_picture(picture).displays[0].pixel_height == picture.height,
        backend.after_picture(picture).capabilities(pipewire, has_grim, has_wtype).display_count
            == 1,
{
}

/// A listing never comes back empty: it has a window, or the accessibility
/// bus has the last word, or it fails for the lack of any source.
pub proof fn law_listing_is_never_empty(
    has_ax: bool,
    ax_error: Option<ErrorView>,
    reported: Seq<WindowView>,
    niri: Seq<WindowView>,
)
    ensures
        ({
            let listed = heard(has_ax, reported);
            match window_listing(has_ax, ax_error, reported, niri) {
                WindowListingView::Listed(windows) => windows.len() > 0 && windows == merged(
                    listed,
                    niri,
                ),
                WindowListingView::AskAgain => has_ax && listed.len() == 0 && niri.len() == 0,
                WindowListingView::Failed(_) => !has_ax && niri.len() == 0,
            }
        }),
{
    law_merge_empty(heard(has_ax, reported), niri);
}

/// An attempt to connect is called for exactly by desktop input while none was
/// made. Its outcome is then what the backend remembers, as the connection or
/// as the error; nothing else changes, and nothing changes otherwise.
pub proof fn law_attempt_is_remembered<A, I>(
    backend: BackendView<A, I>,
    target: TargetView,
    attempt: Option<Result<I, ErrorView>>,
)
    ensures
        ({
            let after = backend.prepared(target, attempt);
            let wanted = target == TargetView::Desktop && backend.input is None
                && backend.input_error is None;
            &&& backend.wants_connection(target) <==> wanted
            &&& after.display == backend.display
            &&& after.ax == backend.ax
            &&& after.ax_error == backend.ax_error
            &&& after.displays == backend.displays
            &&& match attempt {
                Some(Ok(input)) => wanted ==> after.input == Some(input) && after.input_error
                    is None,
                Some(Err(err)) => wanted ==> after.input is None && after.input_error == Some(err),
                None => wanted ==> after.input is None && after.input_error is None,
            }
            &&& !wanted ==> after.input == backend.input && after.input_error
                == backend.input_error
        }),
{
}

/// Desktop input is refused exactly where there is no connection: with the
/// error of the attempt, or for the lack of any way to connect. Input for a
/// window is refused with an error that names the window and the kind of input.
pub proof fn law_reasons_to_refuse_input<A, I>(
    backend: BackendView<A, I>,
    id: Seq<char>,
    kind: Seq<char>,
)
    ensures
        backend.input_refused(TargetView::Desktop, kind) is None <==> backend.input is Some,
        backend.input is None && backend.input_error is Some ==> backend.input_refused(
            TargetView::Desktop,
            kind,
        ) == backend.input_error,
        backend.input is None && backend.input_error is None ==> backend.input_refused(
            TargetView::Desktop,
            kind,
        ) == Some(
            ErrorView {
                code: ErrorCode::PermissionDenied,
                message: "RemoteDesktop portal or LIBEI_SOCKET is required for Wayland input"@,
            },
        ),
        backend.input_refused(TargetView::Window(id), kind) == Some(
            ErrorView {
                code: ErrorCode::BackgroundUnavailable,
                message: "window "@ + id
                    + " wayland-compositor-focus-only: Wayland cannot programmatically activate a non-focused window for "@
                    + kind
                    + "; only the currently focused surface is reachable; use ax actions or desktop input"@,
            },
        ),
{
}

/// Raising is refused with an error that names the window; input for a window
/// with one that names the kind of input too.
pub proof fn law_refusals_name_the_window(id: Seq<char>, kind: Seq<char>)
    ensures
        raise_refused(id).code == ErrorCode::BackgroundUnavailable,
        raise_refused(id).message == "window "@ + id
            + " wayland-compositor-focus-only: Wayland cannot programmatically activate a non-focused window; only the currently focused surface is reachable"@,
        window_input_refused(id, kind).code == ErrorCode::BackgroundUnavailable,
        window_input_refused(id, kind).message == "window "@ + id
            + " wayland-compositor-focus-only: Wayland cannot programmatically activate a non-focused window for "@
            + kind
            + "; only the currently focused surface is reachable; use ax actions or desktop input"@,
{
}

/// All displays together can be selected, and the monitor by either of its
/// names; any other name is refused, and the refusal says it.
pub proof fn law_selectable_displays(id: Seq<char>)
    ensures
        display_allowed(SelectorView::All) is Ok,
        display_allowed(SelectorView::Id(id)) is Ok <==> id == "wayland-portal-0"@ || id
            == "wayland-display-0"@,
        display_allowed(SelectorView::Id(id)) is Err ==> {
            let err = display_allowed(SelectorView::Id(id))->Err_0;
            &&& err.code == ErrorCode::InvalidTarget
            &&& err.message == "Wayland display '"@ + id + "' is unavailable; use 'all'"@
        },
{
}

/// Keyboard input goes to the connection where it is not refused. Where it is,
/// the `wtype` command takes over, for the desktop alone and with the refusal
/// to fall back on; a chord that has no command fails with the reason for
/// that, and without `wtype` the refusal stands.
pub proof fn law_where_keyboard_input_goes(
    refusal: ErrorView,
    target: TargetView,
    has_wtype: bool,
    command: CommandView,
    reason: ErrorView,
    either: Result<CommandView, ErrorView>,
)
    ensures
        keyboard_step(None, target, has_wtype, either) == InputStepView::Deliver,
        keyboard_step(Some(refusal), TargetView::Desktop, true, Ok(command)) == (
        InputStepView::Run { command, otherwise: refusal }),
        keyboard_step(Some(refusal), TargetView::Desktop, true, Err(reason))
            == InputStepView::Failed(reason),
        target != TargetView::Desktop || !has_wtype ==> keyboard_step(
            Some(refusal),
            target,
            has_wtype,
            either,
        ) == InputStepView::Failed(refusal),
{
}

/// A chord is run as `wtype` with the arguments of the chord, or not at all
/// where a key has none.
pub proof fn law_chord_is_run_with_its_arguments(keys: Seq<KeyName>)
    ensures
        match chord_args(keys) {
            Ok(args) => {
                &&& chord_command(keys) is Ok
                &&& chord_command(keys)->Ok_0.program == "wtype"@
                &&& chord_command(keys)->Ok_0.args == args
            },
            Err(err) => chord_command(keys) == Err::<CommandView, ErrorView>(err),
        },
{
}

/// What a backend offers, and what it would have to ask for: capture through
/// the portal or `grim`; input until an attempt to connect failed, and then
/// through `wtype`; accessibility where the bus is connected.
pub proof fn law_what_is_offered<A, I>(
    backend: BackendView<A, I>,
    pipewire: bool,
    has_grim: bool,
    has_wtype: bool,
)
    ensures
        ({
            let offered = backend.capabilities(pipewire, has_grim, has_wtype);
            &&& offered.backend == "wayland"@
            &&& offered.display_server == Some("wayland"@)
            &&& offered.capture <==> pipewire || has_grim
            &&& offered.capture ==> offered.capture_permission == "prompt-or-granted"@
            &&& !offered.capture ==> offered.capture_permission == "unavailable"@
            &&& offered.input <==> backend.input_error is None || has_wtype
            &&& backend.input is Some ==> offered.input_permission == "granted"@
            &&& backend.input is None && backend.input_error is None ==> offered.input_permission
                == "prompt-or-granted"@
            &&& backend.input is None && backend.input_error is Some && has_wtype
                ==> offered.input_permission == "granted"@
            &&& backend.input is None && backend.input_error is Some && !has_wtype
                ==> offered.input_permission == "unavailable"@
            &&& offered.ax <==> backend.ax is Some
            &&& offered.ax ==> offered.ax_permission == "granted"@
            &&& !offered.ax ==> offered.ax_permission == "unavailable"@
            &&& !offered.background_window_input
            &&& offered.delivery_modes == seq!["background"@]
            &&& offered.display_count == backend.displays.len() % 0x1_0000_0000
        }),
{
}

/// A capture remembers the one display that the picture stands for, and lending
/// a connection replaces that connection. Nothing else changes, and a display
/// that cannot be selected changes nothing.
pub proof fn law_operations_change_nothing_else<A, I>(
    backend: BackendView<A, I>,
    picture: ImageView,
    input: I,
    ax: A,
)
    ensures
        ({
            let after = backend.after_picture(picture);
            &&& after.displays.len() == 1
            &&& after.displays[0] == synthetic_view(picture.width, picture.height)
            &&& after.display == backend.display
            &&& after.ax == backend.ax
            &&& after.ax_error == backend.ax_error
            &&& after.input == backend.input
            &&& after.input_error == backend.input_error
        }),
        display_allowed(backend.display) is Ok ==> backend.after_capture(picture)
            == backend.after_picture(picture),
        display_allowed(backend.display) is Err ==> backend.after_capture(picture) == backend,
        ({
            let after = backend.input_left(input);
            &&& after.input == Some(input)
            &&& after.display == backend.display
            &&& after.ax == backend.ax
            &&& after.ax_error == backend.ax_error
            &&& after.input_error == backend.input_error
            &&& after.displays == backend.displays
        }),
        ({
            let after = backend.ax_left(ax);
            &&& after.ax == Some(ax)
            &&& after.display == backend.display
            &&& after.ax_error == backend.ax_error
            &&& after.input == backend.input
            &&& after.input_error == backend.input_error
            &&& after.displays == backend.displays
        }),
{
}

/// A capture of the desktop ends with the picture of `grim` where it takes
/// one, else with that of the portal; where neither takes one, with the error
/// of `grim` if that is installed, and of the portal if not.
pub proof fn law_whose_picture_is_taken(
    has_grim: bool,
    grim: Result<ImageView, ErrorView>,
    portal: Result<ImageView, ErrorView>,
)
    ensures
        has_grim && grim is Ok ==> captured(Ok(()), has_grim, grim, portal) == grim,
        has_grim && grim is Err && portal is Ok ==> captured(Ok(()), has_grim, grim, portal)
            == portal,
        has_grim && grim is Err && portal is Err ==> captured(Ok(()), has_grim, grim, portal)
            == grim,
        !has_grim ==> captured(Ok(()), has_grim, grim, portal) == portal,
{
}

/// With the bus, the windows that it reports and those that niri adds are
/// listed, and the bus is asked again where there are none. Without it, those
/// of niri are listed on their own, and where there are none, the error of the
/// bus is the answer, or that there is no accessibility.
pub proof fn law_where_windows_come_from(
    ax_error: Option<ErrorView>,
    reported: Seq<WindowView>,
    niri: Seq<WindowView>,
)
    ensures
        reported.len() > 0 || niri.len() > 0 ==> window_listing(true, ax_error, reported, niri)
            == WindowListingView::Listed(merged(reported, niri)),
        reported.len() == 0 && niri.len() == 0 ==> window_listing(true, ax_error, reported, niri)
            == WindowListingView::AskAgain,
        niri.len() > 0 ==> window_listing(false, ax_error, reported, niri)
            == WindowListingView::Listed(merged(seq![], niri)),
        niri.len() == 0 && ax_error is Some ==> window_listing(false, ax_error, reported, niri)
            == WindowListingView::Failed(ax_error->0),
        niri.len() == 0 && ax_error is None ==> window_listing(false, ax_error, reported, niri)
            == WindowListingView::Failed(
            ErrorView {
                code: ErrorCode::AxUnsupported,
                message: "accessibility is not supported on this desktop"@,
            },
        ),
{
    law_merge_empty(reported, niri);
    law_merge_empty(seq![], niri);
}

/// A backend, what it is given and what it answers say what they hold.
pub proof fn law_backend_says_what_it_holds<A, I>(
    backend: WaylandBackend<A, I>,
    err: DesktopError,
    input: I,
    command: ToolCommand,
    windows: Vec<DesktopWindow>,
)
    ensures
        backend@.display == backend.display@,
        backend@.ax == backend.ax,
        backend@.input == backend.input,
        match backend.ax_error {
            Some(err) => backend@.ax_error == Some(err@),
            None => backend@.ax_error is None,
        },
        match backend.input_error {
            Some(err) => backend@.input_error == Some(err@),
            None => backend@.input_error is None,
        },
        backend@.displays == display_views(backend.displays@),
        unit_view(Ok(())) is Ok,
        unit_view(Err(err)) == Err::<(), ErrorView>(err@),
        attempt_view::<I>(None) is None,
        attempt_view(Some(Ok(input))) == Some(Ok::<I, ErrorView>(input)),
        attempt_view::<I>(Some(Err(err))) == Some(Err::<I, ErrorView>(err@)),
        InputStep::Deliver@ == InputStepView::Deliver,
        (InputStep::Run { command, otherwise: err })@ == (InputStepView::Run {
            command: command@,
            otherwise: err@,
        }),
        InputStep::Failed(err)@ == InputStepView::Failed(err@),
        WindowListing::Listed(windows)@ == WindowListingView::Listed(window_views(windows@)),
        WindowListing::AskAgain@ == WindowListingView::AskAgain,
        WindowListing::Failed(err)@ == WindowListingView::Failed(err@),
        optional_views(Some(windows)) == window_views(windows@),
        optional_views(None).len() == 0,
{
}

} // verus!
