//! The values that callers and the backend exchange.

use vstd::prelude::*;

verus! {

/// Which display to capture.
#[derive(Debug)]
pub enum DisplaySelector {
    All,
    Id(String),
}

/// What a [`DisplaySelector`] says.
pub enum SelectorView {
    All,
    Id(Seq<char>),
}

impl View for DisplaySelector {
    type V = SelectorView;

    open spec fn view(&self) -> SelectorView {
        match self {
            DisplaySelector::All => SelectorView::All,
            DisplaySelector::Id(id) => SelectorView::Id(id@),
        }
    }
}

/// What an operation is aimed at.
#[derive(Debug)]
pub enum Target {
    Desktop,
    Window(String),
}

/// What a [`Target`] says.
pub enum TargetView {
    Desktop,
    Window(Seq<char>),
}

impl View for Target {
    type V = TargetView;

    open spec fn view(&self) -> TargetView {
        match self {
            Target::Desktop => TargetView::Desktop,
            Target::Window(id) => TargetView::Window(id@),
        }
    }
}

/// How a caller would like input to be delivered. The compositor leaves no
/// choice, so no operation depends on it.
#[derive(Debug, Clone, Copy, PartialEq, Eq, Structural)]
pub enum DeliveryMode {
    Background,
    Foreground,
}

/// A display, in desktop units and in pixels.
#[derive(Debug)]
pub struct DesktopDisplay {
    pub id: String,
    pub name: String,
    pub x: i32,
    pub y: i32,
    pub width: u32,
    pub height: u32,
    /// How many pixels make a desktop unit.
    pub scale: u32,
    pub pixel_x: i32,
    pub pixel_y: i32,
    pub pixel_width: u32,
    pub pixel_height: u32,
    pub is_primary: bool,
}

/// What a [`DesktopDisplay`] says.
pub struct DisplayView {
    pub id: Seq<char>,
    pub name: Seq<char>,
    pub x: i32,
    pub y: i32,
    pub width: u32,
    pub height: u32,
    pub scale: u32,
    pub pixel_x: i32,
    pub pixel_y: i32,
    pub pixel_width: u32,
    pub pixel_height: u32,
    pub is_primary: bool,
}

impl View for DesktopDisplay {
    type V = DisplayView;

    open spec fn view(&self) -> DisplayView {
        DisplayView {
            id: self.id@,
            name: self.name@,
            x: self.x,
            y: self.y,
            width: self.width,
            height: self.height,
            scale: self.scale,
            pixel_x: self.pixel_x,
            pixel_y: self.pixel_y,
            pixel_width: self.pixel_width,
            pixel_height: self.pixel_height,
            is_primary: self.is_primary,
        }
    }
}

impl Clone for DesktopDisplay {
    fn clone(&self) -> (res: Self)
        ensures
            res == *self,
    {
        DesktopDisplay {
            id: self.id.clone(),
            name: self.name.clone(),
            x: self.x,
            y: self.y,
            width: self.width,
            height: self.height,
            scale: self.scale,
            pixel_x: self.pixel_x,
            pixel_y: self.pixel_y,
            pixel_width: self.pixel_width,
            pixel_height: self.pixel_height,
            is_primary: self.is_primary,
        }
    }
}

/// What a list of displays says.
pub open spec fn display_views(displays: Seq<DesktopDisplay>) -> Seq<DisplayView> {
    displays.map_values(|display: DesktopDisplay| display@)
}

/// A window.
#[derive(Debug)]
pub struct DesktopWindow {
    pub id: String,
    pub title: String,
    pub app: String,
    pub pid: Option<u32>,
    pub x: i32,
    pub y: i32,
    pub width: u32,
    pub height: u32,
    pub focused: bool,
}

/// What a [`DesktopWindow`] says.
pub struct WindowView {
    pub id: Seq<char>,
    pub title: Seq<char>,
    pub app: Seq<char>,
    pub pid: Option<u32>,
    pub x: i32,
    pub y: i32,
    pub width: u32,
    pub height: u32,
    pub focused: bool,
}

impl View for DesktopWindow {
    type V = WindowView;

    open spec fn view(&self) -> WindowView {
        WindowView {
            id: self.id@,
            title: self.title@,
            app: self.app@,
            pid: self.pid,
            x: self.x,
            y: self.y,
            width: self.width,
            height: self.height,
            focused: self.focused,
        }
    }
}

impl Clone for DesktopWindow {
    fn clone(&self) -> (res: Self)
        ensures
            res == *self,
    {
        DesktopWindow {
            id: self.id.clone(),
            title: self.title.clone(),
            app: self.app.clone(),
            pid: self.pid,
            x: self.x,
            y: self.y,
            width: self.width,
            height: self.height,
            focused: self.focused,
        }
    }
}

/// What a list of windows says.
pub open spec fn window_views(windows: Seq<DesktopWindow>) -> Seq<WindowView> {
    windows.map_values(|window: DesktopWindow| window@)
}

/// What the backend can do, and what it would have to ask for.
#[derive(Debug)]
pub struct DesktopCapabilities {
    pub backend: String,
    pub display_server: Option<String>,
    pub capture: bool,
    pub input: bool,
    pub ax: bool,
    pub background_window_input: bool,
    pub delivery_modes: Vec<String>,
    pub capture_permission: String,
    pub input_permission: String,
    pub ax_permission: String,
    pub display_count: u32,
}

/// What [`DesktopCapabilities`] say.
pub struct CapabilitiesView {
    pub backend: Seq<char>,
    pub display_server: Option<Seq<char>>,
    pub capture: bool,
    pub input: bool,
    pub ax: bool,
    pub background_window_input: bool,
    pub delivery_modes: Seq<Seq<char>>,
    pub capture_permission: Seq<char>,
    pub input_permission: Seq<char>,
    pub ax_permission: Seq<char>,
    pub display_count: u32,
}

impl View for DesktopCapabilities {
    type V = CapabilitiesView;

    open spec fn view(&self) -> CapabilitiesView {
        CapabilitiesView {
            backend: self.backend@,
            display_server: match self.display_server {
                Some(name) => Some(name@),
                None => None,
            },
            capture: self.capture,
            input: self.input,
            ax: self.ax,
            background_window_input: self.background_window_input,
            delivery_modes: crate::text::text_views(self.delivery_modes@),
            capture_permission: self.capture_permission@,
            input_permission: self.input_permission@,
            ax_permission: self.ax_permission@,
            display_count: self.display_count,
        }
    }
}

/// What the geometry of a captured frame follows from: the displays that it
/// shows, or the window that it shows and the size of the picture.
#[derive(Debug)]
pub enum FrameGeometry {
    Displays(Vec<DesktopDisplay>),
    Window { window: DesktopWindow, pixel_width: u32, pixel_height: u32 },
}

/// What a [`FrameGeometry`] says.
pub enum GeometryView {
    Displays(Seq<DisplayView>),
    Window { window: WindowView, pixel_width: u32, pixel_height: u32 },
}

impl View for FrameGeometry {
    type V = GeometryView;

    open spec fn view(&self) -> GeometryView {
        match self {
            FrameGeometry::Displays(displays) => GeometryView::Displays(display_views(displays@)),
            FrameGeometry::Window { window, pixel_width, pixel_height } => GeometryView::Window {
                window: window@,
                pixel_width: *pixel_width,
                pixel_height: *pixel_height,
            },
        }
    }
}

impl FrameGeometry {
    /// The geometry of a frame that shows `displays`.
    pub fn for_displays(displays: &Vec<DesktopDisplay>) -> (res: Self)
        ensures
            res@ == GeometryView::Displays(display_views(displays@)),
    {
        FrameGeometry::Displays(clone_displays(displays))
    }

    /// The geometry of a frame that shows `window` in a picture of the given
    /// size.
    pub fn for_window(window: &DesktopWindow, pixel_width: u32, pixel_height: u32) -> (res: Self)
        ensures
            res@ == (GeometryView::Window { window: window@, pixel_width, pixel_height }),
    {
        FrameGeometry::Window { window: window.clone(), pixel_width, pixel_height }
    }
}

/// A copy of a list of displays.
pub(crate) fn clone_displays(displays: &Vec<DesktopDisplay>) -> (res: Vec<DesktopDisplay>)
    ensures
        res@ == displays@,
{
    let res: Vec<DesktopDisplay> = displays.clone();
    assert(res@ =~= displays@);
    res
}

/// A selector and a target say which display or window they name, if any.
pub proof fn law_selector_and_target_say_their_ids(selector: DisplaySelector, target: Target)
    ensures
        match selector {
            DisplaySelector::All => selector@ == SelectorView::All,
            DisplaySelector::Id(id) => selector@ == SelectorView::Id(id@),
        },
        match target {
            Target::Desktop => target@ == TargetView::Desktop,
            Target::Window(id) => target@ == TargetView::Window(id@),
        },
{
}

/// A window says each of its fields, and a list of windows says each of its
/// windows, in the same order.
pub proof fn law_window_says_its_fields(window: DesktopWindow, windows: Seq<DesktopWindow>)
    ensures
        window@.id == window.id@,
        window@.title == window.title@,
        window@.app == window.app@,
        window@.pid == window.pid,
        window@.x == window.x,
        window@.y == window.y,
        window@.width == window.width,
        window@.height == window.height,
        window@.focused == window.focused,
        window_views(windows).len() == windows.len(),
        forall|i: int| 0 <= i < windows.len() ==> #[trigger] window_views(windows)[i] == windows[i]@,
{
}

/// A display says each of its fields, and a list of displays says each of its
/// displays, in the same order.
pub proof fn law_display_says_its_fields(display: DesktopDisplay, displays: Seq<DesktopDisplay>)
    ensures
        display@.id == display.id@,
        display@.name == display.name@,
        display@.x == display.x,
        display@.y == display.y,
        display@.width == display.width,
        display@.height == display.height,
        display@.scale == display.scale,
        display@.pixel_x == display.pixel_x,
        display@.pixel_y == display.pixel_y,
        display@.pixel_width == display.pixel_width,
        display@.pixel_height == display.pixel_height,
        display@.is_primary == display.is_primary,
        display_views(displays).len() == displays.len(),
        forall|i: int|
            0 <= i < displays.len() ==> #[trigger] display_views(displays)[i] == displays[i]@,
{
}

/// Capabilities say each of their fields.
pub proof fn law_capabilities_say_their_fields(caps: DesktopCapabilities)
    ensures
        caps@.backend == caps.backend@,
        match caps.display_server {
            Some(name) => caps@.display_server == Some(name@),
            None => caps@.display_server is None,
        },
        caps@.capture == caps.capture,
        caps@.input == caps.input,
        caps@.ax == caps.ax,
        caps@.background_window_input == caps.background_window_input,
        caps@.delivery_modes.len() == caps.delivery_modes@.len(),
        forall|i: int|
            0 <= i < caps.delivery_modes@.len() ==> #[trigger] caps@.delivery_modes[i]
                == caps.delivery_modes@[i]@,
        caps@.capture_permission == caps.capture_permission@,
        caps@.input_permission == caps.input_permission@,
        caps@.ax_permission == caps.ax_permission@,
        caps@.display_count == caps.display_count,
{
}

/// A geometry says its displays, or its window and the size of the picture.
pub proof fn law_geometry_says_what_it_shows(geometry: FrameGeometry)
    ensures
        match geometry {
            FrameGeometry::Displays(displays) => geometry@ == GeometryView::Displays(
                display_views(displays@),
            ),
            FrameGeometry::Window { window, pixel_width, pixel_height } => {
                &&& geometry@ is Window
                &&& geometry@->window == window@
                &&& geometry@->pixel_width == pixel_width
                &&& geometry@->pixel_height == pixel_height
            },
        },
{
}

} // verus!
