//! The windows that the niri compositor reports.

use vstd::prelude::*;

use crate::json::{json_document, parse_json, JsonNodeView, JsonValue, JsonView};
use crate::tools::CommandOutput;
use crate::types::{window_views, DesktopWindow, WindowView};

verus! {

/// The low 32 bits of a number.
pub open spec fn low_bits(n: u64) -> u32 {
    (n % 0x1_0000_0000) as u32
}

/// The text of the member `key`, empty where there is none.
pub open spec fn member_text(item: JsonView, key: Seq<char>) -> Seq<char> {
    match item.member(key) {
        Some(value) => match value.string() {
            Some(text) => text,
            None => ""@,
        },
        None => ""@,
    }
}

/// The `window_size` in the `layout` of a reported window.
pub open spec fn window_size(item: JsonView) -> Option<Seq<JsonView>> {
    match item.member("layout"@) {
        Some(layout) => match layout.member("window_size"@) {
            Some(size) => size.items(),
            None => None,
        },
        None => None,
    }
}

/// One side of a window: the low 32 bits of entry `i` of its size, and zero
/// where there is no such unsigned number.
pub open spec fn window_side(item: JsonView, i: int) -> u32 {
    match window_size(item) {
        Some(size) => if i < size.len() && size[i].unsigned() is Some {
            low_bits(size[i].unsigned()->0)
        } else {
            0
        },
        None => 0,
    }
}

/// A reported window, where it has an id. The id is the JSON text of that
/// member. The compositor reports no position, so windows stand at the origin.
pub open spec fn reported_window(item: JsonView) -> Option<WindowView> {
    match item.member("id"@) {
        None => None,
        Some(id) => Some(
            WindowView {
                id: id.text,
                title: member_text(item, "title"@),
                app: member_text(item, "app_id"@),
                pid: match item.member("pid"@) {
                    Some(pid) => match pid.unsigned() {
                        Some(pid) => Some(low_bits(pid)),
                        None => None,
                    },
                    None => None,
                },
                x: 0,
                y: 0,
                width: window_side(item, 0),
                height: window_side(item, 1),
                focused: match item.member("is_focused"@) {
                    Some(focused) => focused.boolean() == Some(true),
                    None => false,
                },
            },
        ),
    }
}

/// The reported windows that have an id, in the order of the report.
pub open spec fn reported_windows(items: Seq<JsonView>) -> Seq<WindowView>
    decreases items.len(),
{
    if items.len() == 0 {
        seq![]
    } else {
        match reported_window(items.last()) {
            Some(window) => reported_windows(items.drop_last()).push(window),
            None => reported_windows(items.drop_last()),
        }
    }
}

/// The windows in a report, which is an array.
pub open spec fn windows_in(report: JsonView) -> Option<Seq<WindowView>> {
    match report.items() {
        Some(items) => Some(reported_windows(items)),
        None => None,
    }
}

pub(crate) fn low_half(n: u64) -> (res: u32)
    ensures
        res == low_bits(n),
{
    assert(n as u32 == (n % 0x1_0000_0000) as u32) by (bit_vector);
    n as u32
}

fn text_of(item: &JsonValue, key: &str) -> (res: String)
    ensures
        res@ == member_text(item@, key@),
{
    match item.get(key) {
        Some(value) => match value.as_str() {
            Some(text) => text.to_owned(),
            None => "".to_owned(),
        },
        None => "".to_owned(),
    }
}

fn size_of_window(item: &JsonValue) -> (res: (u32, u32))
    ensures
        res.0 == window_side(item@, 0),
        res.1 == window_side(item@, 1),
{
    if let Some(layout) = item.get("layout") {
        if let Some(size) = layout.get("window_size") {
            if let Some(sides) = size.as_array() {
                return (side(sides, 0), side(sides, 1));
            }
        }
    }
    (0, 0)
}

fn side(sides: &Vec<JsonValue>, i: usize) -> (res: u32)
    ensures
        res == (if i < sides@.len() && sides@[i as int]@.unsigned() is Some {
            low_bits(sides@[i as int]@.unsigned()->0)
        } else {
            0
        }),
{
    if i < sides.len() {
        match sides[i].as_u64() {
            Some(n) => low_half(n),
            None => 0,
        }
    } else {
        0
    }
}

/// One window of a report, see [`reported_window`].
pub fn window_from_json(item: &JsonValue) -> (res: Option<DesktopWindow>)
    ensures
        match res {
            Some(window) => reported_window(item@) == Some(window@),
            None => reported_window(item@) is None,
        },
{
    let id: String = match item.get("id") {
        Some(id) => id.text.clone(),
        None => return None,
    };
    let title: String = text_of(item, "title");
    let app: String = text_of(item, "app_id");
    let pid: Option<u32> = match item.get("pid") {
        Some(pid) => match pid.as_u64() {
            Some(pid) => Some(low_half(pid)),
            None => None,
        },
        None => None,
    };
    let focused: bool = match item.get("is_focused") {
        Some(focused) => match focused.as_bool() {
            Some(focused) => focused,
            None => false,
        },
        None => false,
    };
    let (width, height): (u32, u32) = size_of_window(item);
    Some(DesktopWindow { id, title, app, pid, x: 0, y: 0, width, height, focused })
}

/// The windows in a report, see [`windows_in`].
pub fn windows_from_json(report: &JsonValue) -> (res: Option<Vec<DesktopWindow>>)
    ensures
        match res {
            Some(windows) => windows_in(report@) == Some(window_views(windows@)),
            None => windows_in(report@) is None,
        },
{
    let items = match report.as_array() {
        Some(items) => items,
        None => return None,
    };
    let ghost all = items@.map_values(|item: JsonValue| item@);
    let mut windows: Vec<DesktopWindow> = Vec::new();
    assert(window_views(windows@) =~= reported_windows(all.take(0)));
    for i in 0..items.len()
        invariant
            all == items@.map_values(|item: JsonValue| item@),
            window_views(windows@) == reported_windows(all.take(i as int)),
    {
        let ghost before = windows@;
        assert(all.take(i + 1).drop_last() =~= all.take(i as int));
        assert(all.take(i + 1).last() == items@[i as int]@);
        if let Some(window) = window_from_json(&items[i]) {
            windows.push(window);
            assert(window_views(windows@) =~= window_views(before).push(window@));
        }
    }
    assert(all.take(items@.len() as int) =~= all);
    Some(windows)
}

/// What niri's report is worth: nothing where the command failed or did not
/// print a JSON array, otherwise its windows.
pub open spec fn niri_report(success: bool, report: Option<JsonView>) -> Option<Seq<WindowView>> {
    if success && report is Some {
        windows_in(report->0)
    } else {
        None
    }
}

/// The windows that niri reports, from the outcome of its window listing
/// (`None` where the command could not be run).
pub fn niri_windows(output: Option<&CommandOutput>) -> (res: Option<Vec<DesktopWindow>>)
    ensures
        ({
            let expected = match output {
                Some(output) => niri_report(output.success, json_document(output.stdout@)),
                None => None,
            };
            match res {
                Some(windows) => expected == Some(window_views(windows@)),
                None => expected is None,
            }
        }),
{
    match output {
        Some(output) => {
            if !output.success {
                return None;
            }
            match parse_json(output.stdout.as_slice()) {
                Some(report) => windows_from_json(&report),
                None => None,
            }
        },
        None => None,
    }
}

/// A report is read item by item: joined reports list the windows of the one,
/// then those of the other.
pub proof fn law_reports_join(first: Seq<JsonView>, second: Seq<JsonView>)
    ensures
        reported_windows(first + second) == reported_windows(first) + reported_windows(second),
    decreases second.len(),
{
    if second.len() == 0 {
        assert(first + second =~= first);
        assert(reported_windows(first) + reported_windows(second) =~= reported_windows(first));
    } else {
        assert((first + second).drop_last() =~= first + second.drop_last());
        law_reports_join(first, second.drop_last());
        assert(reported_windows(first + second) =~= reported_windows(first) + reported_windows(
            second,
        ));
    }
}

/// Every reported window stands at the origin of the desktop.
pub proof fn law_reported_windows_stand_at_origin(items: Seq<JsonView>, i: int)
    requires
        0 <= i < reported_windows(items).len(),
    ensures
        reported_windows(items)[i].x == 0,
        reported_windows(items)[i].y == 0,
    decreases items.len(),
{
    let earlier = reported_windows(items.drop_last());
    if i < earlier.len() {
        law_reported_windows_stand_at_origin(items.drop_last(), i);
    }
}

/// A window is reported where the item has an `id`, and goes by the JSON text
/// of that member.
pub proof fn law_reported_window_goes_by_its_id(item: JsonView)
    ensures
        reported_window(item) is Some <==> item.member("id"@) is Some,
        reported_window(item) is Some ==> reported_window(item)->0.id == item.member("id"@)->0.text,
{
}

/// A reported window is focused exactly where its `is_focused` is the JSON
/// boolean `true`.
pub proof fn law_reported_window_is_focused_where_true(item: JsonView)
    requires
        reported_window(item) is Some,
    ensures
        reported_window(item)->0.focused <==> {
            &&& item.member("is_focused"@) is Some
            &&& item.member("is_focused"@)->0.node == JsonNodeView::Bool(true)
        },
{
}

/// A reported window has its `title` as title and its `app_id` as app, where
/// these are JSON strings, and none otherwise.
pub proof fn law_reported_window_has_its_texts(item: JsonView)
    requires
        reported_window(item) is Some,
    ensures
        match item.member("title"@) {
            Some(JsonView { node: JsonNodeView::Text(text), .. }) => reported_window(item)->0.title
                == text,
            _ => reported_window(item)->0.title.len() == 0,
        },
        match item.member("app_id"@) {
            Some(JsonView { node: JsonNodeView::Text(text), .. }) => reported_window(item)->0.app
                == text,
            _ => reported_window(item)->0.app.len() == 0,
        },
{
    reveal_strlit("");
}

/// A reported window belongs to the process that its `pid` names, taken as 32
/// bits, where that is an unsigned number, and to none otherwise.
pub proof fn law_reported_window_has_its_process(item: JsonView)
    requires
        reported_window(item) is Some,
    ensures
        match item.member("pid"@) {
            Some(JsonView { node: JsonNodeView::Number(Some(n)), .. }) => {
                &&& reported_window(item)->0.pid is Some
                &&& reported_window(item)->0.pid->0 == n as int % 0x1_0000_0000
            },
            _ => reported_window(item)->0.pid is None,
        },
{
}

/// A reported window is as wide as the first entry of the `window_size` in its
/// `layout` and as high as the second, each taken as 32 bits. An entry that is
/// missing or no unsigned number counts as zero, and so do both sides where
/// there is no such array.
pub proof fn law_reported_window_has_its_size(item: JsonView)
    requires
        reported_window(item) is Some,
    ensures
        ({
            let width = reported_window(item)->0.width;
            let height = reported_window(item)->0.height;
            match item.member("layout"@) {
                Some(layout) => match layout.member("window_size"@) {
                    Some(JsonView { node: JsonNodeView::Array(sides), .. }) => {
                        &&& match sides[0].node {
                            JsonNodeView::Number(Some(n)) => sides.len() > 0 ==> width == n as int
                                % 0x1_0000_0000,
                            _ => width == 0,
                        }
                        &&& match sides[1].node {
                            JsonNodeView::Number(Some(n)) => sides.len() > 1 ==> height == n as int
                                % 0x1_0000_0000,
                            _ => height == 0,
                        }
                        &&& sides.len() == 0 ==> width == 0
                        &&& sides.len() <= 1 ==> height == 0
                    },
                    _ => width == 0 && height == 0,
                },
                None => width == 0 && height == 0,
            }
        }),
{
}

/// A report of nothing lists nothing, and a report of one item lists the
/// window of that item, if it has one.
pub proof fn law_report_of_one_item(item: JsonView)
    ensures
        reported_windows(seq![]) == Seq::<WindowView>::empty(),
        match reported_window(item) {
            Some(window) => reported_windows(seq![item]) == seq![window],
            None => reported_windows(seq![item]) == Seq::<WindowView>::empty(),
        },
{
    assert(seq![item].drop_last() =~= seq![]);
    assert(reported_windows(seq![item].drop_last()) =~= seq![]);
    assert(seq![item].last() == item);
    if reported_window(item) is Some {
        assert(reported_windows(seq![item]) =~= seq![reported_window(item)->0]);
    }
}

/// A report is worth something exactly where the command succeeded and printed
/// a JSON array, and then lists the windows of its items.
pub proof fn law_report_is_an_array(success: bool, report: Option<JsonView>)
    ensures
        match report {
            Some(JsonView { node: JsonNodeView::Array(items), .. }) => niri_report(success, report)
                == (if success {
                Some(reported_windows(items))
            } else {
                None
            }),
            _ => niri_report(success, report) is None,
        },
{
}

} // verus!
