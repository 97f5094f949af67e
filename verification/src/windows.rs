//! One list of windows out of two sources.

use vstd::prelude::*;

use crate::types::{window_views, DesktopWindow, WindowView};

verus! {

/// Whether two entries stand for the same window: one process, one title.
pub open spec fn same_window(a: WindowView, b: WindowView) -> bool {
    a.pid == b.pid && a.title == b.title
}

/// Whether a list has an entry for the window.
pub open spec fn lists(windows: Seq<WindowView>, window: WindowView) -> bool {
    exists|i: int| 0 <= i < windows.len() && same_window(#[trigger] windows[i], window)
}

/// The windows of `first`, then each window of `second` that no entry before
/// it stands for.
pub open spec fn merged(first: Seq<WindowView>, second: Seq<WindowView>) -> Seq<WindowView>
    decreases second.len(),
{
    if second.len() == 0 {
        first
    } else {
        let before = merged(first, second.drop_last());
        if lists(before, second.last()) {
            before
        } else {
            before.push(second.last())
        }
    }
}

fn is_listed(windows: &Vec<DesktopWindow>, window: &DesktopWindow) -> (res: bool)
    ensures
        res == lists(window_views(windows@), window@),
{
    let ghost views = window_views(windows@);
    for i in 0..windows.len()
        invariant
            views == window_views(windows@),
            forall|k: int| 0 <= k < i ==> !same_window(#[trigger] views[k], window@),
    {
        assert(views[i as int] == windows@[i as int]@);
        if windows[i].pid == window.pid && windows[i].title == window.title {
            assert(same_window(views[i as int], window@));
            return true;
        }
    }
    false
}

/// Adds the windows of `second` that `first` does not list, see [`merged`].
pub fn merge_windows(first: Vec<DesktopWindow>, second: Vec<DesktopWindow>) -> (res: Vec<
    DesktopWindow,
>)
    ensures
        window_views(res@) == merged(window_views(first@), window_views(second@)),
{
    let mut windows: Vec<DesktopWindow> = first;
    let ghost start = window_views(first@);
    let ghost extra = second@;
    assert(window_views(extra.take(0)) =~= seq![]);
    for window in it: second
        invariant
            it.seq() == extra,
            window_views(windows@) == merged(start, window_views(extra.take(it.index()))),
    {
        let ghost before = windows@;
        let ghost taken = window_views(extra.take(it.index() + 1));
        assert(taken.drop_last() =~= window_views(extra.take(it.index())));
        assert(taken.last() == window@);
        if !is_listed(&windows, &window) {
            windows.push(window);
            assert(window_views(windows@) =~= window_views(before).push(window@));
        }
    }
    assert(extra.take(extra.len() as int) =~= extra);
    windows
}

/// Merging keeps the first list in front and in order; it adds only windows
/// of the second list, and never one that an earlier entry stands for.
pub proof fn law_merge_adds_only_new_windows(first: Seq<WindowView>, second: Seq<WindowView>)
    ensures
        merged(first, second).len() >= first.len(),
        merged(first, second).take(first.len() as int) == first,
        forall|i: int|
            first.len() <= i < merged(first, second).len() ==> second.contains(
                #[trigger] merged(first, second)[i],
            ),
        forall|i: int, k: int|
            first.len() <= i < merged(first, second).len() && 0 <= k < i ==> !same_window(
                #[trigger] merged(first, second)[k],
                #[trigger] merged(first, second)[i],
            ),
    decreases second.len(),
{
    if second.len() == 0 {
        assert(first.take(first.len() as int) =~= first);
    } else {
        let rest = second.drop_last();
        law_merge_adds_only_new_windows(first, rest);
        let before = merged(first, rest);
        let after = merged(first, second);
        assert forall|i: int| first.len() <= i < after.len() implies second.contains(
            #[trigger] after[i],
        ) by {
            if i < before.len() {
                assert(rest.contains(before[i]));
                let k = choose|k: int| 0 <= k < rest.len() && rest[k] == before[i];
                assert(second[k] == before[i]);
            } else {
                assert(second[second.len() - 1] == after[i]);
            }
        }
        assert(after.take(first.len() as int) =~= before.take(first.len() as int));
    }
}

/// No window of either list is lost: the merged list has an entry for each.
pub proof fn law_merge_loses_no_window(first: Seq<WindowView>, second: Seq<WindowView>)
    ensures
        forall|i: int| 0 <= i < first.len() ==> lists(merged(first, second), #[trigger] first[i]),
        forall|i: int| 0 <= i < second.len() ==> lists(merged(first, second), #[trigger] second[i]),
    decreases second.len(),
{
    if second.len() == 0 {
        assert forall|i: int| 0 <= i < first.len() implies lists(
            merged(first, second),
            #[trigger] first[i],
        ) by {
            assert(same_window(merged(first, second)[i], first[i]));
        }
    } else {
        let rest = second.drop_last();
        law_merge_loses_no_window(first, rest);
        let before = merged(first, rest);
        let after = merged(first, second);
        assert forall|window: WindowView| #[trigger] lists(before, window) implies lists(
            after,
            window,
        ) by {
            let k = choose|k: int| 0 <= k < before.len() && same_window(#[trigger] before[k], window);
            assert(after[k] == before[k]);
        }
        assert forall|i: int| 0 <= i < second.len() implies lists(after, #[trigger] second[i]) by {
            if i < rest.len() {
                assert(lists(before, rest[i]));
            } else if !lists(before, second.last()) {
                assert(same_window(after[after.len() - 1], second[i]));
            }
        }
    }
}

/// Merging the same list once more changes nothing.
pub proof fn law_merge_twice_is_merge_once(first: Seq<WindowView>, second: Seq<WindowView>)
    ensures
        merged(merged(first, second), second) == merged(first, second),
{
    law_merge_loses_no_window(first, second);
    lemma_merge_of_listed(merged(first, second), second);
}

proof fn lemma_merge_of_listed(list: Seq<WindowView>, extra: Seq<WindowView>)
    requires
        forall|i: int| 0 <= i < extra.len() ==> lists(list, #[trigger] extra[i]),
    ensures
        merged(list, extra) == list,
    decreases extra.len(),
{
    if extra.len() > 0 {
        assert forall|i: int| 0 <= i < extra.drop_last().len() implies lists(
            list,
            #[trigger] extra.drop_last()[i],
        ) by {
            assert(extra[i] == extra.drop_last()[i]);
        }
        lemma_merge_of_listed(list, extra.drop_last());
        assert(lists(list, extra[extra.len() - 1]));
    }
}

/// A merged list is empty only where both lists are.
pub proof fn law_merge_empty(first: Seq<WindowView>, second: Seq<WindowView>)
    ensures
        merged(first, second).len() == 0 <==> first.len() == 0 && second.len() == 0,
{
    law_merge_adds_only_new_windows(first, second);
    law_merge_loses_no_window(first, second);
    if second.len() > 0 {
        assert(lists(merged(first, second), second[0]));
    }
}

/// Merging nothing changes nothing, and one further window is added, as it is
/// and at the end, exactly where no entry before it has both its process and
/// its title. Its other fields do not matter.
pub proof fn law_merge_one_by_one(
    first: Seq<WindowView>,
    second: Seq<WindowView>,
    window: WindowView,
)
    ensures
        merged(first, seq![]) == first,
        ({
            let before = merged(first, second);
            let after = merged(first, second.push(window));
            let duplicate = exists|k: int|
                0 <= k < before.len() && (#[trigger] before[k]).pid == window.pid && before[k].title
                    == window.title;
            &&& duplicate ==> after == before
            &&& !duplicate ==> after == before.push(window)
        }),
{
    let before = merged(first, second);
    assert(second.push(window).drop_last() =~= second);
    assert(second.push(window).last() == window);
    assert(lists(before, window) <==> exists|k: int|
        0 <= k < before.len() && (#[trigger] before[k]).pid == window.pid && before[k].title
            == window.title) by {
        if lists(before, window) {
            let k = choose|k: int| 0 <= k < before.len() && same_window(#[trigger] before[k], window);
            assert(before[k].pid == window.pid && before[k].title == window.title);
        }
        if exists|k: int|
            0 <= k < before.len() && (#[trigger] before[k]).pid == window.pid && before[k].title
                == window.title {
            let k = choose|k: int|
                0 <= k < before.len() && (#[trigger] before[k]).pid == window.pid
                    && before[k].title == window.title;
            assert(same_window(before[k], window));
        }
    }
}

/// No window is added that has the process and the title of an entry before
/// it, whatever its other fields.
pub proof fn law_no_window_is_listed_twice(
    first: Seq<WindowView>,
    second: Seq<WindowView>,
    i: int,
    k: int,
)
    requires
        first.len() <= i < merged(first, second).len(),
        0 <= k < i,
    ensures
        !(merged(first, second)[k].pid == merged(first, second)[i].pid
            && merged(first, second)[k].title == merged(first, second)[i].title),
{
    law_merge_adds_only_new_windows(first, second);
    assert(!same_window(merged(first, second)[k], merged(first, second)[i]));
}

/// Every window of either list has an entry with its process and its title.
pub proof fn law_every_window_is_listed(
    first: Seq<WindowView>,
    second: Seq<WindowView>,
    window: WindowView,
)
    requires
        first.contains(window) || second.contains(window),
    ensures
        exists|k: int|
            0 <= k < merged(first, second).len() && (#[trigger] merged(first, second)[k]).pid
                == window.pid && merged(first, second)[k].title == window.title,
{
    law_merge_loses_no_window(first, second);
    let all = merged(first, second);
    if first.contains(window) {
        let i = choose|i: int| 0 <= i < first.len() && first[i] == window;
        assert(lists(all, first[i]));
    } else {
        let i = choose|i: int| 0 <= i < second.len() && second[i] == window;
        assert(lists(all, second[i]));
    }
    let k = choose|k: int| 0 <= k < all.len() && same_window(#[trigger] all[k], window);
    assert(all[k].pid == window.pid && all[k].title == window.title);
}

} // verus!
