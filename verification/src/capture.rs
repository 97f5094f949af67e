//! Screen capture: where a picture comes from, and which part of it a caller
//! gets.

use vstd::prelude::*;
use vstd::utf8::{decode_utf8, valid_utf8};

use crate::error::{CoreResult, DesktopError, ErrorCode, ErrorView};
use crate::raster::{decoded_picture, ImageView, RgbaImage};
use crate::text::{lossy_text, utf8_lossy};
use crate::tools::CommandOutput;
use crate::types::{
    window_views, DesktopDisplay, DesktopWindow, DisplayView, FrameGeometry, GeometryView, WindowView,
};

verus! {

/// A failed capture, with a message.
pub open spec fn capture_failed(message: Seq<char>) -> ErrorView {
    ErrorView { code: ErrorCode::CaptureFailed, message }
}

/// What a picture, or the lack of one, says.
pub open spec fn picture_view(res: CoreResult<RgbaImage>) -> Result<ImageView, ErrorView> {
    match res {
        Ok(picture) => Ok(picture@),
        Err(err) => Err(err@),
    }
}

/// A failed capture whose message is `what` followed by `detail`.
fn failure(what: &str, detail: &str) -> (res: DesktopError)
    ensures
        res@ == capture_failed(what@ + detail@),
{
    let mut message: String = what.to_owned();
    message.append(detail);
    DesktopError::new(ErrorCode::CaptureFailed, message)
}

/// The error for a run of `grim` that failed, given what it printed.
pub fn grim_refused(stderr: &str) -> (res: DesktopError)
    ensures
        res@ == capture_failed("grim capture failed: "@ + stderr@),
{
    failure("grim capture failed: ", stderr)
}

/// What a run of `grim` is worth, given its decoded output.
pub open spec fn grim_picture_view(
    decoded: Result<(u32, u32, Seq<u8>), Seq<char>>,
) -> Result<ImageView, ErrorView> {
    match decoded {
        Ok((width, height, pixels)) => Ok(ImageView { width, height, pixels }),
        Err(text) => Err(capture_failed("failed to decode grim PNG: "@ + text)),
    }
}

/// What a run of `grim` is worth, given its decoded output.
pub fn grim_picture(decoded: Result<RgbaImage, String>) -> (res: CoreResult<RgbaImage>)
    ensures
        picture_view(res) == grim_picture_view(
            match decoded {
                Ok(picture) => Ok((picture@.width, picture@.height, picture@.pixels)),
                Err(text) => Err(text@),
            },
        ),
{
    match decoded {
        Ok(picture) => Ok(picture),
        Err(text) => Err(failure("failed to decode grim PNG: ", text.as_str())),
    }
}

/// The picture that a run of `grim` took, from the outcome of the run: what
/// it left behind, or why it could not be run.
pub fn capture_grim(run: &Result<CommandOutput, String>) -> (res: CoreResult<RgbaImage>)
    ensures
        picture_view(res) == (match *run {
            Err(reason) => Err(capture_failed("failed to run grim: "@ + reason@)),
            Ok(output) => if output.success {
                grim_picture_view(decoded_picture(output.stdout@))
            } else {
                Err(capture_failed("grim capture failed: "@ + utf8_lossy(output.stderr@)))
            },
        }),
        match *run {
            Ok(output) => !output.success && valid_utf8(output.stderr@) ==> picture_view(res)
                == Err::<ImageView, ErrorView>(
                capture_failed("grim capture failed: "@ + decode_utf8(output.stderr@)),
            ),
            Err(_) => true,
        },
{
    match run {
        Err(reason) => Err(failure("failed to run grim: ", reason.as_str())),
        Ok(output) => {
            if !output.success {
                let stderr: String = lossy_text(output.stderr.as_slice());
                return Err(grim_refused(stderr.as_str()));
            }
            grim_picture(RgbaImage::decode(output.stdout.as_slice()))
        },
    }
}

/// The error of a build that cannot reach the capture portal.
pub open spec fn portal_missing() -> ErrorView {
    capture_failed("Wayland capture requires the wayland-pipewire feature or the grim tool"@)
}

/// The picture that the capture portal took; `None` in a build that cannot
/// reach the portal.
pub fn capture_pipewire_image(taken: Option<CoreResult<RgbaImage>>) -> (res: CoreResult<RgbaImage>)
    ensures
        picture_view(res) == (match taken {
            Some(taken) => picture_view(taken),
            None => Err(portal_missing()),
        }),
{
    match taken {
        Some(taken) => taken,
        None => Err(
            DesktopError::new(
                ErrorCode::CaptureFailed,
                "Wayland capture requires the wayland-pipewire feature or the grim tool".to_owned(),
            ),
        ),
    }
}

/// What to do next in order to get a picture.
#[derive(Debug)]
pub enum CaptureStep {
    /// Run `grim`.
    Grim,
    /// Ask the portal. Where that fails too, the error of `grim` stands.
    Portal(Option<DesktopError>),
    /// Here is the picture.
    Done(RgbaImage),
    /// There is none.
    Failed(DesktopError),
}

/// What a [`CaptureStep`] says.
pub enum CaptureStepView {
    Grim,
    Portal(Option<ErrorView>),
    Done(ImageView),
    Failed(ErrorView),
}

impl View for CaptureStep {
    type V = CaptureStepView;

    open spec fn view(&self) -> CaptureStepView {
        match self {
            CaptureStep::Grim => CaptureStepView::Grim,
            CaptureStep::Portal(Some(err)) => CaptureStepView::Portal(Some(err@)),
            CaptureStep::Portal(None) => CaptureStepView::Portal(None),
            CaptureStep::Done(picture) => CaptureStepView::Done(picture@),
            CaptureStep::Failed(err) => CaptureStepView::Failed(err@),
        }
    }
}

/// The first step: `grim` where it is installed, because it needs no dialog,
/// and the portal otherwise.
pub open spec fn first_step(allowed: Result<(), ErrorView>, has_grim: bool) -> CaptureStepView {
    match allowed {
        Err(err) => CaptureStepView::Failed(err),
        Ok(()) => if has_grim {
            CaptureStepView::Grim
        } else {
            CaptureStepView::Portal(None)
        },
    }
}

/// The step after a run of `grim`.
pub open spec fn step_after_grim(taken: Result<ImageView, ErrorView>) -> CaptureStepView {
    match taken {
        Ok(picture) => CaptureStepView::Done(picture),
        Err(err) => CaptureStepView::Portal(Some(err)),
    }
}

/// The step after the portal was asked.
pub open spec fn step_after_portal(
    grim_error: Option<ErrorView>,
    taken: Result<ImageView, ErrorView>,
) -> CaptureStepView {
    match (taken, grim_error) {
        (Ok(picture), _) => CaptureStepView::Done(picture),
        (Err(_), Some(err)) => CaptureStepView::Failed(err),
        (Err(err), None) => CaptureStepView::Failed(err),
    }
}

/// The picture that a capture ends with: given whether the display is
/// allowed, whether `grim` is installed, what `grim` would take and what the
/// portal would take.
pub open spec fn captured(
    allowed: Result<(), ErrorView>,
    has_grim: bool,
    grim: Result<ImageView, ErrorView>,
    portal: Result<ImageView, ErrorView>,
) -> Result<ImageView, ErrorView> {
    match allowed {
        Err(err) => Err(err),
        Ok(()) => if !has_grim {
            portal
        } else {
            match (grim, portal) {
                (Ok(picture), _) => Ok(picture),
                (Err(_), Ok(picture)) => Ok(picture),
                (Err(err), Err(_)) => Err(err),
            }
        },
    }
}

/// The step after a run of `grim`.
pub fn after_grim(taken: CoreResult<RgbaImage>) -> (res: CaptureStep)
    ensures
        res@ == step_after_grim(picture_view(taken)),
{
    match taken {
        Ok(picture) => CaptureStep::Done(picture),
        Err(err) => CaptureStep::Portal(Some(err)),
    }
}

/// The step after the portal was asked, given the error of `grim` if that
/// was tried first.
pub fn after_portal(grim_error: Option<DesktopError>, taken: CoreResult<RgbaImage>) -> (res:
    CaptureStep)
    ensures
        res@ == step_after_portal(
            match grim_error {
                Some(err) => Some(err@),
                None => None,
            },
            picture_view(taken),
        ),
{
    match taken {
        Ok(picture) => CaptureStep::Done(picture),
        Err(err) => match grim_error {
            Some(grim_error) => CaptureStep::Failed(grim_error),
            None => CaptureStep::Failed(err),
        },
    }
}

/// The one display that a picture of the whole monitor stands for.
pub open spec fn synthetic_view(width: u32, height: u32) -> DisplayView {
    DisplayView {
        id: "wayland-portal-0"@,
        name: "Wayland portal monitor"@,
        x: 0,
        y: 0,
        width,
        height,
        scale: 1,
        pixel_x: 0,
        pixel_y: 0,
        pixel_width: width,
        pixel_height: height,
        is_primary: true,
    }
}

/// The one display that a picture of the whole monitor stands for.
pub fn synthetic_display(picture: &RgbaImage) -> (res: DesktopDisplay)
    ensures
        res@ == synthetic_view(picture@.width, picture@.height),
{
    DesktopDisplay {
        id: "wayland-portal-0".to_owned(),
        name: "Wayland portal monitor".to_owned(),
        x: 0,
        y: 0,
        width: picture.width(),
        height: picture.height(),
        scale: 1,
        pixel_x: 0,
        pixel_y: 0,
        pixel_width: picture.width(),
        pixel_height: picture.height(),
        is_primary: true,
    }
}

/// The first window with the given id.
pub open spec fn find_window(windows: Seq<WindowView>, id: Seq<char>) -> Option<WindowView>
    decreases windows.len(),
{
    if windows.len() == 0 {
        None
    } else if windows[0].id == id {
        Some(windows[0])
    } else {
        find_window(windows.drop_first(), id)
    }
}

fn position_of(windows: &Vec<DesktopWindow>, id: &String) -> (res: Option<usize>)
    ensures
        match res {
            Some(i) => i < windows@.len() && find_window(window_views(windows@), id@) == Some(
                windows@[i as int]@,
            ),
            None => find_window(window_views(windows@), id@) is None,
        },
{
    let ghost views = window_views(windows@);
    assert(views.skip(0) =~= views);
    for i in 0..windows.len()
        invariant
            views == window_views(windows@),
            find_window(views, id@) == find_window(views.skip(i as int), id@),
    {
        let ghost left = views.skip(i as int);
        assert(left[0] == windows@[i as int]@);
        assert(left.drop_first() =~= views.skip(i + 1));
        if windows[i].id == *id {
            return Some(i);
        }
    }
    None
}

/// How much of a side of a window at `start` lies within a monitor side of
/// length `available`.
pub open spec fn visible(length: u32, start: int, available: u32) -> u32 {
    let left = if start < available {
        available - start
    } else {
        0
    };
    if length < left {
        length
    } else {
        left as u32
    }
}

/// The frame that shows a window, cut out of a picture of the monitor.
pub open spec fn window_frame(id: Seq<char>, window: WindowView, picture: ImageView) -> Result<
    (ImageView, GeometryView),
    ErrorView,
> {
    let width = visible(window.width, window.x as int, picture.width);
    let height = visible(window.height, window.y as int, picture.height);
    if window.x < 0 || window.y < 0 {
        Err(
            capture_failed(
                "Wayland portal monitor stream cannot crop a window outside the selected monitor"@,
            ),
        )
    } else if width == 0 || height == 0 {
        Err(
            capture_failed(
                "Wayland window "@ + id + " is outside the selected portal monitor"@,
            ),
        )
    } else {
        Ok(
            (
                picture.part(window.x as u32, window.y as u32, width, height),
                GeometryView::Window { window, pixel_width: width, pixel_height: height },
            ),
        )
    }
}

/// What a frame, or the lack of one, says.
pub open spec fn frame_view(res: CoreResult<(RgbaImage, FrameGeometry)>) -> Result<
    (ImageView, GeometryView),
    ErrorView,
> {
    match res {
        Ok((picture, geometry)) => Ok((picture@, geometry@)),
        Err(err) => Err(err@),
    }
}

fn visible_length(length: u32, start: u32, available: u32) -> (res: u32)
    ensures
        res == visible(length, start as int, available),
{
    let left: u32 = if start < available {
        available - start
    } else {
        0
    };
    if length < left {
        length
    } else {
        left
    }
}

/// The frame that shows a window, see [`window_frame`].
pub fn capture_window(id: &str, window: &DesktopWindow, picture: &RgbaImage) -> (res: CoreResult<
    (RgbaImage, FrameGeometry),
>)
    ensures
        frame_view(res) == window_frame(id@, window@, picture@),
{
    if window.x < 0 || window.y < 0 {
        return Err(
            DesktopError::new(
                ErrorCode::CaptureFailed,
                "Wayland portal monitor stream cannot crop a window outside the selected monitor".to_owned(),
            ),
        );
    }
    let x: u32 = window.x as u32;
    let y: u32 = window.y as u32;
    let width: u32 = visible_length(window.width, x, picture.width());
    let height: u32 = visible_length(window.height, y, picture.height());
    if width == 0 || height == 0 {
        let mut message: String = "Wayland window ".to_owned();
        message.append(id);
        message.append(" is outside the selected portal monitor");
        return Err(DesktopError::new(ErrorCode::CaptureFailed, message));
    }
    let part: RgbaImage = picture.crop(x, y, width, height);
    let geometry = FrameGeometry::for_window(window, part.width(), part.height());
    Ok((part, geometry))
}

/// What a window listing, or the lack of one, says.
pub open spec fn listing_view(res: CoreResult<Vec<DesktopWindow>>) -> Result<
    Seq<WindowView>,
    ErrorView,
> {
    match res {
        Ok(windows) => Ok(window_views(windows@)),
        Err(err) => Err(err@),
    }
}

/// The frame that shows the window with the given id.
pub open spec fn frame_of_window(
    id: Seq<char>,
    windows: Result<Seq<WindowView>, ErrorView>,
    picture: ImageView,
) -> Result<(ImageView, GeometryView), ErrorView> {
    match windows {
        Err(err) => Err(err),
        Ok(windows) => match find_window(windows, id) {
            None => Err(
                ErrorView {
                    code: ErrorCode::WindowNotFound,
                    message: "Wayland window "@ + id + " not found"@,
                },
            ),
            Some(window) => window_frame(id, window, picture),
        },
    }
}

/// The frame that shows the window with the given id, see
/// [`frame_of_window`].
pub fn capture_listed_window(
    id: &String,
    windows: CoreResult<Vec<DesktopWindow>>,
    picture: &RgbaImage,
) -> (res: CoreResult<(RgbaImage, FrameGeometry)>)
    ensures
        frame_view(res) == frame_of_window(id@, listing_view(windows), picture@),
{
    match windows {
        Err(err) => Err(err),
        Ok(windows) => match position_of(&windows, id) {
            None => {
                let mut message: String = "Wayland window ".to_owned();
                message.append(id.as_str());
                message.append(" not found");
                Err(DesktopError::new(ErrorCode::WindowNotFound, message))
            },
            Some(i) => capture_window(id.as_str(), &windows[i], picture),
        },
    }
}

/// A window can be shown exactly where it starts on the monitor and has a
/// width and a height.
pub proof fn law_window_frame_where_visible(id: Seq<char>, window: WindowView, picture: ImageView)
    ensures
        window_frame(id, window, picture) is Ok <==> {
            &&& 0 <= window.x < picture.width
            &&& 0 <= window.y < picture.height
            &&& window.width > 0
            &&& window.height > 0
        },
        window_frame(id, window, picture) is Err ==> window_frame(id, window, picture)->Err_0.code
            == ErrorCode::CaptureFailed,
{
}

/// The frame of a window never reaches beyond the window or the monitor.
pub proof fn law_window_frame_within_monitor(id: Seq<char>, window: WindowView, picture: ImageView)
    requires
        window_frame(id, window, picture) is Ok,
    ensures
        ({
            let (part, geometry) = window_frame(id, window, picture)->Ok_0;
            &&& 0 < part.width <= window.width
            &&& 0 < part.height <= window.height
            &&& window.x + part.width <= picture.width
            &&& window.y + part.height <= picture.height
            &&& geometry == (GeometryView::Window {
                window,
                pixel_width: part.width,
                pixel_height: part.height,
            })
        }),
{
}

/// A window that covers the monitor is shown by the whole picture.
pub proof fn law_covering_window_is_whole_picture(
    id: Seq<char>,
    window: WindowView,
    picture: ImageView,
)
    requires
        picture.complete(),
        picture.width > 0,
        picture.height > 0,
        window.x == 0,
        window.y == 0,
        window.width >= picture.width,
        window.height >= picture.height,
    ensures
        window_frame(id, window, picture) is Ok,
        window_frame(id, window, picture)->Ok_0.0 == picture,
{
    crate::raster::law_whole_part(picture);
}

/// The frame of a window shows the monitor at the window's own position: the
/// pixel in column `column` of row `row` of the frame is, byte for byte, the
/// picture's pixel that many columns and rows from where the window starts.
pub proof fn law_window_frame_shows_the_window(
    id: Seq<char>,
    window: WindowView,
    picture: ImageView,
    column: int,
    row: int,
    channel: int,
)
    requires
        window_frame(id, window, picture) is Ok,
        0 <= column < window_frame(id, window, picture)->Ok_0.0.width,
        0 <= row < window_frame(id, window, picture)->Ok_0.0.height,
        0 <= channel < 4,
    ensures
        ({
            let frame = window_frame(id, window, picture)->Ok_0.0;
            &&& frame.pixels.len() == 4 * frame.width * frame.height
            &&& frame.pixels[4 * (row * frame.width + column) + channel]
                == picture.pixels[4 * ((window.y + row) * picture.width + (window.x + column))
                + channel]
        }),
{
    let frame = window_frame(id, window, picture)->Ok_0.0;
    crate::raster::law_part_bytes(
        picture,
        window.x as u32,
        window.y as u32,
        frame.width,
        frame.height,
        column,
        row,
        channel,
    );
}

/// The frame of a window leaves out nothing that the monitor shows of it: each
/// side is the window's own, or ends with the monitor.
pub proof fn law_window_frame_is_as_large_as_visible(
    id: Seq<char>,
    window: WindowView,
    picture: ImageView,
)
    requires
        window_frame(id, window, picture) is Ok,
    ensures
        ({
            let (frame, geometry) = window_frame(id, window, picture)->Ok_0;
            &&& frame.width == window.width || window.x + frame.width == picture.width
            &&& frame.height == window.height || window.y + frame.height == picture.height
            &&& frame.width <= window.width && window.x + frame.width <= picture.width
            &&& frame.height <= window.height && window.y + frame.height <= picture.height
            &&& geometry is Window
            &&& geometry->window == window
            &&& geometry->pixel_width == frame.width
            &&& geometry->pixel_height == frame.height
        }),
{
}

/// A window that cannot be shown is refused: one that starts left of or above
/// the monitor because it cannot be cut out, any other because it lies
/// outside.
pub proof fn law_window_refusals(id: Seq<char>, window: WindowView, picture: ImageView)
    requires
        window_frame(id, window, picture) is Err,
    ensures
        ({
            let err = window_frame(id, window, picture)->Err_0;
            &&& err.code == ErrorCode::CaptureFailed
            &&& window.x < 0 || window.y < 0 ==> err.message
                == "Wayland portal monitor stream cannot crop a window outside the selected monitor"@
            &&& window.x >= 0 && window.y >= 0 ==> err.message == "Wayland window "@ + id
                + " is outside the selected portal monitor"@
        }),
{
}

/// The window that is shown is the first one that is listed with the id. Where
/// none is, or nothing could be listed, that is the error.
pub proof fn law_first_window_with_the_id_is_shown(
    id: Seq<char>,
    windows: Seq<WindowView>,
    failed: ErrorView,
    picture: ImageView,
)
    ensures
        frame_of_window(id, Err(failed), picture) == Err::<(ImageView, GeometryView), ErrorView>(
            failed,
        ),
        (forall|i: int| 0 <= i < windows.len() ==> (#[trigger] windows[i]).id != id)
            ==> frame_of_window(id, Ok(windows), picture) == Err::<
            (ImageView, GeometryView),
            ErrorView,
        >(
            ErrorView {
                code: ErrorCode::WindowNotFound,
                message: "Wayland window "@ + id + " not found"@,
            },
        ),
        forall|i: int|
            #![trigger windows[i]]
            0 <= i < windows.len() && windows[i].id == id && (forall|k: int|
                0 <= k < i ==> (#[trigger] windows[k]).id != id) ==> frame_of_window(
                id,
                Ok(windows),
                picture,
            ) == window_frame(id, windows[i], picture),
    decreases windows.len(),
{
    if windows.len() > 0 && windows[0].id != id {
        let rest = windows.drop_first();
        assert(forall|i: int| 0 <= i < rest.len() ==> rest[i] == windows[i + 1]);
        law_first_window_with_the_id_is_shown(id, rest, failed, picture);
        assert(frame_of_window(id, Ok(windows), picture) == frame_of_window(id, Ok(rest), picture));
        assert forall|i: int|
            #![trigger windows[i]]
            0 <= i < windows.len() && windows[i].id == id && (forall|k: int|
                0 <= k < i ==> (#[trigger] windows[k]).id != id) implies frame_of_window(
            id,
            Ok(windows),
            picture,
        ) == window_frame(id, windows[i], picture) by {
            assert(rest[i - 1] == windows[i]);
            assert forall|k: int| 0 <= k < i - 1 implies (#[trigger] rest[k]).id != id by {
                assert(windows[k + 1].id != id);
            }
        }
        if forall|i: int| 0 <= i < windows.len() ==> (#[trigger] windows[i]).id != id {
            assert forall|i: int| 0 <= i < rest.len() implies (#[trigger] rest[i]).id != id by {
                assert(windows[i + 1].id != id);
            }
        }
    }
}

/// A decoded picture is taken as it is, and one that does not decode is a
/// failed capture that says why.
pub proof fn law_grim_picture_is_taken_as_decoded(
    width: u32,
    height: u32,
    pixels: Seq<u8>,
    text: Seq<char>,
)
    ensures
        grim_picture_view(Ok((width, height, pixels))) == Ok::<ImageView, ErrorView>(
            ImageView { width, height, pixels },
        ),
        grim_picture_view(Err(text)) == Err::<ImageView, ErrorView>(
            ErrorView {
                code: ErrorCode::CaptureFailed,
                message: "failed to decode grim PNG: "@ + text,
            },
        ),
{
}

/// A failed capture has the code for one and the given message, and a build
/// without the portal says what it lacks.
pub proof fn law_failed_capture(message: Seq<char>)
    ensures
        capture_failed(message).code == ErrorCode::CaptureFailed,
        capture_failed(message).message == message,
        portal_missing().code == ErrorCode::CaptureFailed,
        portal_missing().message
            == "Wayland capture requires the wayland-pipewire feature or the grim tool"@,
{
}

/// A refused display ends a capture at once. Otherwise `grim` is asked first
/// where it is installed, and the portal where it is not or failed; a picture
/// ends the capture, and an error of `grim` outlives one of the portal.
pub proof fn law_order_of_capture(
    refused: ErrorView,
    has_grim: bool,
    picture: ImageView,
    err: ErrorView,
    earlier: Option<ErrorView>,
)
    ensures
        first_step(Err(refused), has_grim) == CaptureStepView::Failed(refused),
        first_step(Ok(()), true) == CaptureStepView::Grim,
        first_step(Ok(()), false) == CaptureStepView::Portal(None),
        step_after_grim(Ok(picture)) == CaptureStepView::Done(picture),
        step_after_grim(Err(err)) == CaptureStepView::Portal(Some(err)),
        step_after_portal(earlier, Ok(picture)) == CaptureStepView::Done(picture),
        step_after_portal(None, Err(err)) == CaptureStepView::Failed(err),
        step_after_portal(Some(refused), Err(err)) == CaptureStepView::Failed(refused),
{
}

/// The display of a picture starts at the origin, is as large as the picture
/// in units and in pixels, and is the primary one.
pub proof fn law_display_is_as_large_as_the_picture(width: u32, height: u32)
    ensures
        ({
            let display = synthetic_view(width, height);
            &&& display.id == "wayland-portal-0"@
            &&& display.name == "Wayland portal monitor"@
            &&& display.x == 0 && display.y == 0
            &&& display.pixel_x == 0 && display.pixel_y == 0
            &&& display.width == width && display.height == height
            &&& display.pixel_width == width && display.pixel_height == height
            &&& display.scale == 1
            &&& display.is_primary
        }),
{
}

/// Outcomes and steps say what they hold.
pub proof fn law_outcomes_say_what_they_hold(
    picture: RgbaImage,
    geometry: FrameGeometry,
    windows: Vec<DesktopWindow>,
    err: DesktopError,
)
    ensures
        picture_view(Ok(picture)) == Ok::<ImageView, ErrorView>(picture@),
        picture_view(Err(err)) == Err::<ImageView, ErrorView>(err@),
        frame_view(Ok((picture, geometry))) == Ok::<(ImageView, GeometryView), ErrorView>(
            (picture@, geometry@),
        ),
        frame_view(Err(err)) == Err::<(ImageView, GeometryView), ErrorView>(err@),
        listing_view(Ok(windows)) == Ok::<Seq<WindowView>, ErrorView>(window_views(windows@)),
        listing_view(Err(err)) == Err::<Seq<WindowView>, ErrorView>(err@),
        CaptureStep::Grim@ == CaptureStepView::Grim,
        CaptureStep::Portal(Some(err))@ == CaptureStepView::Portal(Some(err@)),
        CaptureStep::Portal(None)@ == CaptureStepView::Portal(None),
        CaptureStep::Done(picture)@ == CaptureStepView::Done(picture@),
        CaptureStep::Failed(err)@ == CaptureStepView::Failed(err@),
{
}

} // verus!
