//! The backend: what it knows of its services, and what it decides.

use vstd::prelude::*;

use crate::capture::{
    capture_listed_window, first_step, frame_of_window, frame_view, listing_view, synthetic_display,
    synthetic_view, CaptureStep,
};
use crate::error::{ax_missing, CoreResult, DesktopError, ErrorCode, ErrorView};
use crate::keys::{chord_args, wtype_chord_command, KeyName};
use crate::niri::low_half;
use crate::raster::{ImageView, RgbaImage};
use crate::text::{parse_unsigned, text_views, unsigned_value};
use crate::tools::{type_command, wtype_text_command, CommandView, ToolCommand};
use crate::types::{
    clone_displays, display_views, window_views, CapabilitiesView, DeliveryMode,
    DesktopCapabilities, DesktopDisplay, DesktopWindow, DisplaySelector, DisplayView, FrameGeometry,
    GeometryView, SelectorView, Target, TargetView, WindowView,
};
use crate::windows::{merge_windows, merged};

verus! {

/// A backend for one Wayland session. `A` is the connection to the
/// accessibility bus and `I` the connection that delivers input; the backend
/// holds them and never looks inside.
pub struct WaylandBackend<A, I> {
    pub display: DisplaySelector,
    pub ax: Option<A>,
    pub ax_error: Option<DesktopError>,
    pub input: Option<I>,
    pub input_error: Option<DesktopError>,
    pub displays: Vec<DesktopDisplay>,
}

/// What a [`WaylandBackend`] knows.
pub struct BackendView<A, I> {
    pub display: SelectorView,
    pub ax: Option<A>,
    pub ax_error: Option<ErrorView>,
    pub input: Option<I>,
    pub input_error: Option<ErrorView>,
    pub displays: Seq<DisplayView>,
}

/// What an optional error says.
pub open spec fn error_view(err: Option<DesktopError>) -> Option<ErrorView> {
    match err {
        Some(err) => Some(err@),
        None => None,
    }
}

/// What a result without a value says.
pub open spec fn unit_view(res: CoreResult<()>) -> Result<(), ErrorView> {
    match res {
        Ok(()) => Ok(()),
        Err(err) => Err(err@),
    }
}

/// What an attempt to connect says; `None` where none was made.
pub open spec fn attempt_view<I>(attempt: Option<CoreResult<I>>) -> Option<Result<I, ErrorView>> {
    match attempt {
        Some(Ok(input)) => Some(Ok(input)),
        Some(Err(err)) => Some(Err(err@)),
        None => None,
    }
}

impl<A, I> View for WaylandBackend<A, I> {
    type V = BackendView<A, I>;

    open spec fn view(&self) -> BackendView<A, I> {
        BackendView {
            display: self.display@,
            ax: self.ax,
            ax_error: error_view(self.ax_error),
            input: self.input,
            input_error: error_view(self.input_error),
            displays: display_views(self.displays@),
        }
    }
}

/// The error for input that is aimed at a window.
pub open spec fn window_input_refused(id: Seq<char>, kind: Seq<char>) -> ErrorView {
    ErrorView {
        code: ErrorCode::BackgroundUnavailable,
        message: "window "@ + id
            + " wayland-compositor-focus-only: Wayland cannot programmatically activate a non-focused window for "@
            + kind
            + "; only the currently focused surface is reachable; use ax actions or desktop input"@,
    }
}

/// The error for an attempt to raise a window.
pub open spec fn raise_refused(id: Seq<char>) -> ErrorView {
    ErrorView {
        code: ErrorCode::BackgroundUnavailable,
        message: "window "@ + id
            + " wayland-compositor-focus-only: Wayland cannot programmatically activate a non-focused window; only the currently focused surface is reachable"@,
    }
}

/// The error for input without any way to deliver it.
pub open spec fn input_missing() -> ErrorView {
    ErrorView {
        code: ErrorCode::PermissionDenied,
        message: "RemoteDesktop portal or LIBEI_SOCKET is required for Wayland input"@,
    }
}

/// Whether a display can be selected.
pub open spec fn display_allowed(display: SelectorView) -> Result<(), ErrorView> {
    match display {
        SelectorView::All => Ok(()),
        SelectorView::Id(id) => if id == "wayland-portal-0"@ || id == "wayland-display-0"@ {
            Ok(())
        } else {
            Err(
                ErrorView {
                    code: ErrorCode::InvalidTarget,
                    message: "Wayland display '"@ + id + "' is unavailable; use 'all'"@,
                },
            )
        },
    }
}

impl<A, I> BackendView<A, I> {
    /// A service is either connected or has failed, never both, and at most
    /// one display is known.
    pub open spec fn consistent(self) -> bool {
        &&& !(self.ax is Some && self.ax_error is Some)
        &&& !(self.input is Some && self.input_error is Some)
        &&& self.displays.len() <= 1
    }

    /// Whether input aimed at `target` calls for a connection to be made.
    pub open spec fn wants_connection(self, target: TargetView) -> bool {
        target is Desktop && self.input is None && self.input_error is None
    }

    /// The backend after it has prepared for input aimed at `target`. An
    /// attempt to connect counts only where one was called for.
    pub open spec fn prepared(
        self,
        target: TargetView,
        attempt: Option<Result<I, ErrorView>>,
    ) -> Self {
        if self.wants_connection(target) {
            match attempt {
                Some(Ok(input)) => BackendView { input: Some(input), ..self },
                Some(Err(err)) => BackendView { input_error: Some(err), ..self },
                None => self,
            }
        } else {
            self
        }
    }

    /// Why input of the given kind cannot be delivered to `target`, if it
    /// cannot.
    pub open spec fn input_refused(self, target: TargetView, kind: Seq<char>) -> Option<ErrorView> {
        match target {
            TargetView::Window(id) => Some(window_input_refused(id, kind)),
            TargetView::Desktop => match (self.input, self.input_error) {
                (Some(_), _) => None,
                (None, Some(err)) => Some(err),
                (None, None) => Some(input_missing()),
            },
        }
    }

    /// The backend after a picture of the monitor was taken.
    pub open spec fn after_picture(self, picture: ImageView) -> Self {
        BackendView { displays: seq![synthetic_view(picture.width, picture.height)], ..self }
    }

    /// The backend after a capture that was given a picture of the monitor.
    /// A display that cannot be selected is not remembered.
    pub open spec fn after_capture(self, picture: ImageView) -> Self {
        match display_allowed(self.display) {
            Ok(()) => self.after_picture(picture),
            Err(_) => self,
        }
    }

    /// The backend after it lent its connection for input and got it back as
    /// `left`.
    pub open spec fn input_left(self, left: I) -> Self {
        BackendView { input: Some(left), ..self }
    }

    /// The backend after it lent its connection to the accessibility bus and
    /// got it back as `left`.
    pub open spec fn ax_left(self, left: A) -> Self {
        BackendView { ax: Some(left), ..self }
    }

    /// Whether a connection for input was attempted.
    pub open spec fn attempted(self) -> bool {
        self.input is Some || self.input_error is Some
    }

    /// What the backend can do.
    pub open spec fn capabilities(self, pipewire: bool, has_grim: bool, has_wtype: bool)
        -> CapabilitiesView {
        CapabilitiesView {
            backend: "wayland"@,
            display_server: Some("wayland"@),
            capture: pipewire || has_grim,
            input: self.input_error is None || has_wtype,
            ax: self.ax is Some,
            background_window_input: false,
            delivery_modes: seq!["background"@],
            capture_permission: if pipewire || has_grim {
                "prompt-or-granted"@
            } else {
                "unavailable"@
            },
            input_permission: if self.input is Some {
                "granted"@
            } else if self.input_error is None {
                "prompt-or-granted"@
            } else if has_wtype {
                "granted"@
            } else {
                "unavailable"@
            },
            ax_permission: if self.ax is Some {
                "granted"@
            } else {
                "unavailable"@
            },
            display_count: (self.displays.len() % 0x1_0000_0000) as u32,
        }
    }
}

/// What to do next in order to deliver input.
#[derive(Debug)]
pub enum InputStep {
    /// Hand the input to the connection.
    Deliver,
    /// Run the command; where it fails, the error stands.
    Run { command: ToolCommand, otherwise: DesktopError },
    /// The input cannot be delivered.
    Failed(DesktopError),
}

/// What an [`InputStep`] says.
pub enum InputStepView {
    Deliver,
    Run { command: CommandView, otherwise: ErrorView },
    Failed(ErrorView),
}

impl View for InputStep {
    type V = InputStepView;

    open spec fn view(&self) -> InputStepView {
        match self {
            InputStep::Deliver => InputStepView::Deliver,
            InputStep::Run { command, otherwise } => InputStepView::Run {
                command: command@,
                otherwise: otherwise@,
            },
            InputStep::Failed(err) => InputStepView::Failed(err@),
        }
    }
}

/// How keyboard input goes on: to the connection if there is one, through
/// `wtype` if that is installed and the desktop is the target, else nowhere.
/// `command` is the `wtype` command, or why there is none.
pub open spec fn keyboard_step(
    refused: Option<ErrorView>,
    target: TargetView,
    has_wtype: bool,
    command: Result<CommandView, ErrorView>,
) -> InputStepView {
    match refused {
        None => InputStepView::Deliver,
        Some(err) => if target is Desktop && has_wtype {
            match command {
                Ok(command) => InputStepView::Run { command, otherwise: err },
                Err(err) => InputStepView::Failed(err),
            }
        } else {
            InputStepView::Failed(err)
        },
    }
}

/// The `wtype` command for a chord, or why there is none.
pub open spec fn chord_command(keys: Seq<KeyName>) -> Result<CommandView, ErrorView> {
    match chord_args(keys) {
        Ok(args) => Ok(CommandView { program: "wtype"@, args }),
        Err(err) => Err(err),
    }
}

/// What an input operation returns after `wtype` was run in its place: the
/// outcome is whether it succeeded, or why it could not be run.
pub fn after_wtype(otherwise: DesktopError, outcome: Result<bool, String>) -> (res: CoreResult<()>)
    ensures
        unit_view(res) == (match outcome {
            Ok(true) => Ok(()),
            Ok(false) => Err(otherwise@),
            Err(reason) => Err(
                ErrorView {
                    code: ErrorCode::PermissionDenied,
                    message: "wtype failed: "@ + reason@,
                },
            ),
        }),
{
    match outcome {
        Ok(true) => Ok(()),
        Ok(false) => Err(otherwise),
        Err(reason) => {
            let mut message: String = "wtype failed: ".to_owned();
            message.append(reason.as_str());
            Err(DesktopError::new(ErrorCode::PermissionDenied, message))
        },
    }
}

/// A list of windows, or what to do in order to get one.
#[derive(Debug)]
pub enum WindowListing {
    /// These are the windows.
    Listed(Vec<DesktopWindow>),
    /// No source lists a window: the answer is what the accessibility bus
    /// says when it is asked once more.
    AskAgain,
    /// There is no source of windows.
    Failed(DesktopError),
}

/// What a [`WindowListing`] says.
pub enum WindowListingView {
    Listed(Seq<WindowView>),
    AskAgain,
    Failed(ErrorView),
}

impl View for WindowListing {
    type V = WindowListingView;

    open spec fn view(&self) -> WindowListingView {
        match self {
            WindowListing::Listed(windows) => WindowListingView::Listed(window_views(windows@)),
            WindowListing::AskAgain => WindowListingView::AskAgain,
            WindowListing::Failed(err) => WindowListingView::Failed(err@),
        }
    }
}

/// What an optional list of windows says, an absent one like an empty one.
pub open spec fn optional_views(windows: Option<Vec<DesktopWindow>>) -> Seq<WindowView> {
    match windows {
        Some(windows) => window_views(windows@),
        None => seq![],
    }
}

/// What the accessibility bus listed, which counts only where it is connected.
pub open spec fn heard(has_ax: bool, reported: Seq<WindowView>) -> Seq<WindowView> {
    if has_ax {
        reported
    } else {
        seq![]
    }
}

/// The windows of the accessibility bus, then those that niri adds; where
/// there are none, the bus decides, or its error stands.
pub open spec fn window_listing(
    has_ax: bool,
    ax_error: Option<ErrorView>,
    reported: Seq<WindowView>,
    niri: Seq<WindowView>,
) -> WindowListingView {
    let windows = merged(heard(has_ax, reported), niri);
    if windows.len() > 0 {
        WindowListingView::Listed(windows)
    } else if has_ax {
        WindowListingView::AskAgain
    } else {
        WindowListingView::Failed(
            match ax_error {
                Some(err) => err,
                None => ax_missing(),
            },
        )
    }
}

impl<A, I> WaylandBackend<A, I> {
    /// A backend that captures `display`, given the outcome of connecting to
    /// the accessibility bus. Input is connected when it is first needed.
    pub fn new(display: DisplaySelector, ax: CoreResult<A>) -> (res: Self)
        ensures
            res@ == (BackendView::<A, I> {
                display: display@,
                ax: match ax {
                    Ok(ax) => Some(ax),
                    Err(_) => None,
                },
                ax_error: match ax {
                    Ok(_) => None,
                    Err(err) => Some(err@),
                },
                input: None,
                input_error: None,
                displays: seq![],
            }),
            res@.consistent(),
    {
        let (ax, ax_error) = match ax {
            Ok(ax) => (Some(ax), None),
            Err(err) => (None, Some(err)),
        };
        let displays: Vec<DesktopDisplay> = Vec::new();
        assert(display_views(displays@) =~= seq![]);
        WaylandBackend { display, ax, ax_error, input: None, input_error: None, displays }
    }

    /// Refuses input that is aimed at a window.
    pub fn window_input_error(target: &Target, kind: &str) -> (res: CoreResult<()>)
        ensures
            unit_view(res) == (match target@ {
                TargetView::Window(id) => Err(window_input_refused(id, kind@)),
                TargetView::Desktop => Ok(()),
            }),
    {
        match target {
            Target::Window(id) => {
                let mut message: String = "window ".to_owned();
                message.append(id.as_str());
                message.append(
                    " wayland-compositor-focus-only: Wayland cannot programmatically activate a non-focused window for ",
                );
                message.append(kind);
                message.append(
                    "; only the currently focused surface is reachable; use ax actions or desktop input",
                );
                Err(DesktopError::new(ErrorCode::BackgroundUnavailable, message))
            },
            Target::Desktop => Ok(()),
        }
    }

    /// Whether a connection for input has to be attempted before input is
    /// aimed at `target`.
    pub fn needs_connection(&self, target: &Target) -> (res: bool)
        ensures
            res == self@.wants_connection(target@),
    {
        match target {
            Target::Desktop => self.input.is_none() && self.input_error.is_none(),
            Target::Window(_) => false,
        }
    }

    /// Prepares for input of the given kind, and lends the connection that
    /// delivers it. `attempt` is the outcome of connecting, where
    /// [`needs_connection`](Self::needs_connection) called for it.
    pub fn prepare_input(
        &mut self,
        target: &Target,
        kind: &str,
        attempt: Option<CoreResult<I>>,
    ) -> (res: Result<&mut I, DesktopError>)
        ensures
            ({
                let prepared = old(self)@.prepared(target@, attempt_view(attempt));
                match res {
                    Ok(input) => {
                        &&& prepared.input_refused(target@, kind@) is None
                        &&& prepared.input == Some(*input)
                        &&& final(self)@ == prepared.input_left(*final(input))
                    },
                    Err(err) => {
                        &&& prepared.input_refused(target@, kind@) == Some(err@)
                        &&& final(self)@ == prepared
                    },
                }
            }),
    {
        if let Err(err) = Self::window_input_error(target, kind) {
            return Err(err);
        }
        if self.input.is_none() && self.input_error.is_none() {
            match attempt {
                Some(Ok(input)) => self.input = Some(input),
                Some(Err(err)) => self.input_error = Some(err),
                None => {},
            }
        }
        if let Some(input) = self.input.as_mut() {
            return Ok(input);
        }
        Err(
            match &self.input_error {
                Some(err) => err.clone(),
                None => DesktopError::new(
                    ErrorCode::PermissionDenied,
                    "RemoteDesktop portal or LIBEI_SOCKET is required for Wayland input".to_owned(),
                ),
            },
        )
    }

    /// Whether the selected display can be captured.
    pub fn selected_display_allowed(&self) -> (res: CoreResult<()>)
        ensures
            unit_view(res) == display_allowed(self@.display),
    {
        match &self.display {
            DisplaySelector::All => Ok(()),
            DisplaySelector::Id(id) => {
                if *id == "wayland-portal-0".to_owned() || *id == "wayland-display-0".to_owned() {
                    return Ok(());
                }
                let mut message: String = "Wayland display '".to_owned();
                message.append(id.as_str());
                message.append("' is unavailable; use 'all'");
                Err(DesktopError::new(ErrorCode::InvalidTarget, message))
            },
        }
    }

    /// What the backend can do: in a build with or without access to the
    /// capture portal, and with the helper programs that are installed.
    pub fn capabilities(&self, pipewire: bool, has_grim: bool, has_wtype: bool) -> (res:
        DesktopCapabilities)
        ensures
            res@ == self@.capabilities(pipewire, has_grim, has_wtype),
    {
        let can_capture: bool = pipewire || has_grim;
        let input_permission: &str = if self.input.is_some() {
            "granted"
        } else if self.input_error.is_some() {
            if has_wtype {
                "granted"
            } else {
                "unavailable"
            }
        } else {
            "prompt-or-granted"
        };
        let mut delivery_modes: Vec<String> = Vec::new();
        delivery_modes.push("background".to_owned());
        assert(text_views(delivery_modes@) =~= seq!["background"@]);
        DesktopCapabilities {
            backend: "wayland".to_owned(),
            display_server: Some("wayland".to_owned()),
            capture: can_capture,
            input: self.input_error.is_none() || has_wtype,
            ax: self.ax.is_some(),
            background_window_input: false,
            delivery_modes,
            capture_permission: if can_capture {
                "prompt-or-granted".to_owned()
            } else {
                "unavailable".to_owned()
            },
            input_permission: input_permission.to_owned(),
            ax_permission: if self.ax.is_some() {
                "granted".to_owned()
            } else {
                "unavailable".to_owned()
            },
            display_count: low_half(self.displays.len() as u64),
        }
    }

    /// The displays that are known so far.
    pub fn displays(&self) -> (res: CoreResult<Vec<DesktopDisplay>>)
        ensures
            res is Ok,
            display_views(res->Ok_0@) == self@.displays,
    {
        Ok(clone_displays(&self.displays))
    }

    /// The windows, or what to do in order to get them: from what the
    /// accessibility bus listed and from what niri reported, `None` where one
    /// is absent or failed.
    pub fn windows(
        &self,
        reported: Option<Vec<DesktopWindow>>,
        niri: Option<Vec<DesktopWindow>>,
    ) -> (res: WindowListing)
        ensures
            res@ == window_listing(
                self@.ax is Some,
                self@.ax_error,
                optional_views(reported),
                optional_views(niri),
            ),
    {
        let heard: Option<Vec<DesktopWindow>> = if self.ax.is_some() {
            reported
        } else {
            None
        };
        let windows: Vec<DesktopWindow> = merge_windows(
            unwrap_windows(heard),
            unwrap_windows(niri),
        );
        if windows.len() > 0 {
            return WindowListing::Listed(windows);
        }
        if self.ax.is_some() {
            return WindowListing::AskAgain;
        }
        WindowListing::Failed(
            match &self.ax_error {
                Some(err) => err.clone(),
                None => DesktopError::ax_unsupported(),
            },
        )
    }

    /// The first step towards a picture of the selected display.
    pub fn begin_capture(&self, has_grim: bool) -> (res: CaptureStep)
        ensures
            res@ == first_step(display_allowed(self@.display), has_grim),
    {
        match self.selected_display_allowed() {
            Err(err) => CaptureStep::Failed(err),
            Ok(()) => if has_grim {
                CaptureStep::Grim
            } else {
                CaptureStep::Portal(None)
            },
        }
    }

    /// The frame that shows `target`, given a picture of the monitor. For a
    /// window, `windows` is what listing the windows returned; the desktop
    /// needs no listing. A display that cannot be selected is refused and
    /// nothing is remembered; otherwise the display that the picture stands
    /// for is known from here on, whatever becomes of the frame.
    pub fn capture(
        &mut self,
        target: &Target,
        picture: RgbaImage,
        windows: CoreResult<Vec<DesktopWindow>>,
    ) -> (res: CoreResult<(RgbaImage, FrameGeometry)>)
        ensures
            final(self)@ == old(self)@.after_capture(picture@),
            frame_view(res) == (match display_allowed(old(self)@.display) {
                Err(err) => Err(err),
                Ok(()) => match target@ {
                    TargetView::Desktop => Ok(
                        (
                            picture@,
                            GeometryView::Displays(old(self)@.after_picture(picture@).displays),
                        ),
                    ),
                    TargetView::Window(id) => frame_of_window(id, listing_view(windows), picture@),
                },
            }),
    {
        if let Err(err) = self.selected_display_allowed() {
            return Err(err);
        }
        let mut displays: Vec<DesktopDisplay> = Vec::new();
        displays.push(synthetic_display(&picture));
        assert(display_views(displays@) =~= old(self)@.after_picture(picture@).displays);
        self.displays = displays;
        match target {
            Target::Desktop => {
                let geometry = FrameGeometry::for_displays(&self.displays);
                Ok((picture, geometry))
            },
            Target::Window(id) => capture_listed_window(id, windows, &picture),
        }
    }

    /// Prepares for pointer input, see [`prepare_input`](Self::prepare_input),
    /// and lends the connection that takes the pointer event.
    pub fn pointer(
        &mut self,
        target: &Target,
        _mode: DeliveryMode,
        attempt: Option<CoreResult<I>>,
    ) -> (res: Result<&mut I, DesktopError>)
        ensures
            ({
                let prepared = old(self)@.prepared(target@, attempt_view(attempt));
                match res {
                    Ok(input) => {
                        &&& prepared.input_refused(target@, "pointer input"@) is None
                        &&& prepared.input == Some(*input)
                        &&& final(self)@ == prepared.input_left(*final(input))
                    },
                    Err(err) => {
                        &&& prepared.input_refused(target@, "pointer input"@) == Some(err@)
                        &&& final(self)@ == prepared
                    },
                }
            }),
    {
        self.prepare_input(target, "pointer input", attempt)
    }

    /// How to type `text`, after an `attempt` to connect where one was called
    /// for, see [`keyboard_step`].
    pub fn type_text(
        &mut self,
        target: &Target,
        text: &str,
        _mode: DeliveryMode,
        attempt: Option<CoreResult<I>>,
        has_wtype: bool,
    ) -> (res: InputStep)
        ensures
            final(self)@ == old(self)@.prepared(target@, attempt_view(attempt)),
            res@ == keyboard_step(
                final(self)@.input_refused(target@, "keyboard input"@),
                target@,
                has_wtype,
                Ok(type_command(text@)),
            ),
    {
        match self.prepare_input(target, "keyboard input", attempt) {
            Ok(_) => InputStep::Deliver,
            Err(err) => {
                if is_desktop(target) && has_wtype {
                    InputStep::Run { command: wtype_text_command(text), otherwise: err }
                } else {
                    InputStep::Failed(err)
                }
            },
        }
    }

    /// How to press `keys` together, after an `attempt` to connect where one
    /// was called for, see [`keyboard_step`] and [`chord_args`].
    pub fn key_chord(
        &mut self,
        target: &Target,
        keys: &[KeyName],
        _mode: DeliveryMode,
        attempt: Option<CoreResult<I>>,
        has_wtype: bool,
    ) -> (res: InputStep)
        ensures
            final(self)@ == old(self)@.prepared(target@, attempt_view(attempt)),
            res@ == keyboard_step(
                final(self)@.input_refused(target@, "keyboard input"@),
                target@,
                has_wtype,
                chord_command(keys@),
            ),
    {
        match self.prepare_input(target, "keyboard input", attempt) {
            Ok(_) => InputStep::Deliver,
            Err(err) => {
                if is_desktop(target) && has_wtype {
                    match wtype_chord_command(keys) {
                        Ok(command) => InputStep::Run { command, otherwise: err },
                        Err(err) => InputStep::Failed(err),
                    }
                } else {
                    InputStep::Failed(err)
                }
            },
        }
    }

    /// What raising a window returns. For an id that is a number, `focused`
    /// is whether niri's focus command succeeded, `None` where it could not
    /// be run.
    pub fn raise_window(&self, id: &str, focused: Option<bool>) -> (res: CoreResult<()>)
        ensures
            unit_view(res) == (if unsigned_value(id@) is Some && focused == Some(true) {
                Ok(())
            } else {
                Err(raise_refused(id@))
            }),
    {
        if parse_unsigned(id).is_some() {
            if let Some(true) = focused {
                return Ok(());
            }
        }
        let mut message: String = "window ".to_owned();
        message.append(id);
        message.append(
            " wayland-compositor-focus-only: Wayland cannot programmatically activate a non-focused window; only the currently focused surface is reachable",
        );
        Err(DesktopError::new(ErrorCode::BackgroundUnavailable, message))
    }

    /// The connection to the accessibility bus.
    pub fn ax(&mut self) -> (res: Option<&mut A>)
        ensures
            match res {
                Some(ax) => {
                    &&& old(self)@.ax == Some(*ax)
                    &&& final(self)@ == old(self)@.ax_left(*final(ax))
                },
                None => old(self)@.ax is None && final(self)@ == old(self)@,
            },
    {
        self.ax.as_mut()
    }
}

fn is_desktop(target: &Target) -> (res: bool)
    ensures
        res == target@ is Desktop,
{
    match target {
        Target::Desktop => true,
        Target::Window(_) => false,
    }
}

fn unwrap_windows(windows: Option<Vec<DesktopWindow>>) -> (res: Vec<DesktopWindow>)
    ensures
        window_views(res@) == optional_views(windows),
{
    match windows {
        Some(windows) => windows,
        None => {
            let none: Vec<DesktopWindow> = Vec::new();
            assert(window_views(none@) =~= seq![]);
            none
        },
    }
}

} // verus!
