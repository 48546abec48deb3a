//! What holds of the windows across snapshots: a widget whose monitor stays
//! is kept as it is, and a widget whose monitor is gone is closed at once.

use vstd::prelude::*;
use vstd::string::*;
use crate::app::registry::{
    closed_ids, goes, id_count, key_count, lemma_count_finds, lemma_orphans,
    lemma_remaining_members, lemma_wf_distinct, orphaned, orphans, registry_wf, LiveWindowModel,
};
use crate::app::{closed_by, window_after, windows_after, windows_told};
use crate::message::{AppMessageView, WindowId};
use crate::state::{MonitorView, StateView};
use crate::windows::switcher::monitor_with;

verus! {

/// A snapshot holds a monitor of an identity exactly where `monitor_with`
/// finds one.
pub proof fn lemma_monitor_with(monitors: Seq<MonitorView>, id: Seq<char>, from: int)
    requires
        0 <= from,
    ensures
        monitor_with(monitors, id, from) is Some <==> exists|i: int|
            from <= i < monitors.len() && #[trigger] monitors[i].id == id,
        monitor_with(monitors, id, from) is Some ==> monitor_with(monitors, id, from).unwrap().id
            == id,
    decreases monitors.len() - from,
{
    if from < monitors.len() {
        if monitors[from].id == id {
        } else {
            lemma_monitor_with(monitors, id, from + 1);
            if exists|i: int| from <= i < monitors.len() && #[trigger] monitors[i].id == id {
                let i = choose|i: int| from <= i < monitors.len() && #[trigger] monitors[i].id == id;
                assert(from + 1 <= i < monitors.len() && monitors[i].id == id);
            }
        }
    }
}

/// The identities that are closed are those of the windows that go.
pub proof fn lemma_closed_members(ws: Seq<LiveWindowModel>, doomed: Seq<WindowId>, n: int, i: int)
    requires
        0 <= i < n <= ws.len(),
        goes(ws[i], doomed),
    ensures
        closed_ids(ws, doomed, n).contains(ws[i].id),
    decreases n,
{
    if i == n - 1 {
        let c = closed_ids(ws, doomed, n);
        assert(c[c.len() - 1] == ws[i].id);
    } else {
        lemma_closed_members(ws, doomed, n - 1, i);
        let before = closed_ids(ws, doomed, n - 1);
        let j = choose|j: int| 0 <= j < before.len() && before[j] == ws[i].id;
        assert(closed_ids(ws, doomed, n)[j] == ws[i].id);
    }
}

/// A widget whose monitor the new snapshot holds stays alive, and is the
/// same widget after the snapshot: the same window under the same identity,
/// the same host, the same geometry; only what it shows of its monitor is
/// new. This holds whatever the order of the monitors in the snapshot is.
pub proof fn lemma_snapshot_keeps_widgets(ws: Seq<LiveWindowModel>, state: StateView, i: int)
    requires
        registry_wf(ws),
        0 <= i < ws.len(),
        ws[i].view is Switcher,
        ws[i].key is Some,
        state.has_monitor(ws[i].key.unwrap()),
    ensures
        windows_after(ws, AppMessageView::UpdateState(state)).contains(ws[i]),
        windows_told(
            windows_after(ws, AppMessageView::UpdateState(state)),
            AppMessageView::UpdateState(state),
        ).contains(window_after(ws[i], AppMessageView::UpdateState(state))),
        window_after(ws[i], AppMessageView::UpdateState(state)).id == ws[i].id,
        window_after(ws[i], AppMessageView::UpdateState(state)).key == ws[i].key,
        ({
            let before = ws[i].view->Switcher_0;
            let after = window_after(ws[i], AppMessageView::UpdateState(state)).view->Switcher_0;
            &&& after.window_id == before.window_id
            &&& after.host == before.host
            &&& after.taskbar == before.taskbar
            &&& after.window_info == before.window_info
            &&& after.in_resize == before.in_resize
        }),
{
    let message = AppMessageView::UpdateState(state);
    let doomed = orphans(ws, state, ws.len() as int);
    let key = ws[i].key.unwrap();
    lemma_monitor_with(state.monitors, key, 0);
    assert(!orphaned(ws[i], state));
    lemma_orphans(ws, state, ws.len() as int);
    if doomed.contains(ws[i].id) {
        let j = choose|j: int|
            0 <= j < ws.len() && #[trigger] ws[j].id == ws[i].id && orphaned(ws[j], state);
        if j < i {
            lemma_wf_distinct(ws, j, i);
        } else if i < j {
            lemma_wf_distinct(ws, i, j);
        }
    }
    assert(!goes(ws[i], doomed));
    lemma_remaining_members(ws, doomed, ws.len() as int);
    let after = windows_after(ws, message);
    assert(after.contains(ws[i]));
    let j = choose|j: int| 0 <= j < after.len() && after[j] == ws[i];
    assert(windows_told(after, message)[j] == window_after(ws[i], message));
}

/// A widget whose monitor the new snapshot does not hold is closed by the
/// snapshot: its identity is among the closed ones, no window has it
/// afterwards, and no widget that is left lacks its monitor.
pub proof fn lemma_snapshot_closes_orphans(ws: Seq<LiveWindowModel>, state: StateView, i: int)
    requires
        registry_wf(ws),
        0 <= i < ws.len(),
        ws[i].key is Some,
        !state.has_monitor(ws[i].key.unwrap()),
    ensures
        closed_by(ws, AppMessageView::UpdateState(state)).contains(ws[i].id),
        id_count(
            windows_after(ws, AppMessageView::UpdateState(state)),
            ws[i].id,
            windows_after(ws, AppMessageView::UpdateState(state)).len() as int,
        ) == 0,
        key_count(
            windows_after(ws, AppMessageView::UpdateState(state)),
            ws[i].key.unwrap(),
            windows_after(ws, AppMessageView::UpdateState(state)).len() as int,
        ) == 0,
{
    let message = AppMessageView::UpdateState(state);
    let doomed = orphans(ws, state, ws.len() as int);
    let key = ws[i].key.unwrap();
    lemma_monitor_with(state.monitors, key, 0);
    assert(orphaned(ws[i], state));
    lemma_orphans(ws, state, ws.len() as int);
    assert(doomed.contains(ws[i].id));
    assert(goes(ws[i], doomed));
    lemma_closed_members(ws, doomed, ws.len() as int, i);
    let after = windows_after(ws, message);
    lemma_remaining_members(ws, doomed, ws.len() as int);
    lemma_count_finds(after, after.len() as int, ws[i].id, key);
    if id_count(after, ws[i].id, after.len() as int) > 0 {
        let j = choose|j: int| 0 <= j < after.len() && #[trigger] after[j].id == ws[i].id;
        assert(!goes(after[j], doomed));
        assert(false);
    }
    if key_count(after, key, after.len() as int) > 0 {
        let j = choose|j: int| 0 <= j < after.len() && #[trigger] after[j].key == Some(key);
        assert(ws.contains(after[j]));
        let m = choose|m: int| 0 <= m < ws.len() && ws[m] == after[j];
        assert(orphaned(ws[m], state));
        assert(doomed.contains(ws[m].id));
        assert(!goes(after[j], doomed));
        assert(false);
    }
}

/// After a snapshot every widget that is alive has its monitor in the
/// snapshot.
pub proof fn lemma_snapshot_leaves_no_orphan(ws: Seq<LiveWindowModel>, state: StateView, j: int)
    requires
        0 <= j < windows_after(ws, AppMessageView::UpdateState(state)).len(),
    ensures
        !orphaned(windows_after(ws, AppMessageView::UpdateState(state))[j], state),
{
    let doomed = orphans(ws, state, ws.len() as int);
    let after = windows_after(ws, AppMessageView::UpdateState(state));
    lemma_remaining_members(ws, doomed, ws.len() as int);
    lemma_orphans(ws, state, ws.len() as int);
    assert(ws.contains(after[j]));
    let m = choose|m: int| 0 <= m < ws.len() && ws[m] == after[j];
    if orphaned(ws[m], state) {
        assert(doomed.contains(ws[m].id));
        assert(goes(after[j], doomed));
        assert(!goes(after[j], doomed));
    }
}

} // verus!
