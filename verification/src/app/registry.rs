//! The registry of the windows that are alive: what it holds, when it is
//! sound, and what closing windows leaves of it.

use vstd::prelude::*;
use vstd::string::*;
use crate::message::WindowId;
use crate::state::StateView;
use crate::windows::resize::{ResizeWindowModel, ResizeWindowView};
use crate::windows::switcher::{monitor_with, SwitcherWindowModel, SwitcherWindowView};

verus! {

/// What a window is for.
#[derive(Debug)]
pub enum WindowView {
    /// The widget of a monitor.
    Switcher(SwitcherWindowView),
    /// The dialog that moves and resizes a widget.
    Resize(ResizeWindowView),
}

/// A window's purpose as a plain value.
pub enum WindowModel {
    Switcher(SwitcherWindowModel),
    Resize(ResizeWindowModel),
}

impl View for WindowView {
    type V = WindowModel;

    open spec fn view(&self) -> WindowModel {
        match self {
            WindowView::Switcher(w) => WindowModel::Switcher(w@),
            WindowView::Resize(w) => WindowModel::Resize(w@),
        }
    }
}

/// One window that is alive: its identity, the identity of its monitor
/// where it is the widget of one, and what it is for.
#[derive(Debug)]
pub struct LiveWindow {
    pub id: WindowId,
    pub key: Option<String>,
    pub view: WindowView,
}

/// A window that is alive, as a plain value.
pub struct LiveWindowModel {
    pub id: WindowId,
    pub key: Option<Seq<char>>,
    pub view: WindowModel,
}

impl View for LiveWindow {
    type V = LiveWindowModel;

    open spec fn view(&self) -> LiveWindowModel {
        LiveWindowModel {
            id: self.id,
            key: match self.key {
                Some(k) => Some(k@),
                None => None,
            },
            view: self.view@,
        }
    }
}

/// The windows of `windows` as plain values, in order.
pub open spec fn window_models(windows: Seq<LiveWindow>) -> Seq<LiveWindowModel> {
    Seq::new(windows.len(), |i: int| windows[i]@)
}

/// How many of the first `n` windows have the identity `id`.
pub open spec fn id_count(ws: Seq<LiveWindowModel>, id: WindowId, n: int) -> nat
    decreases n,
{
    if n <= 0 || n > ws.len() {
        0
    } else {
        id_count(ws, id, n - 1) + if ws[n - 1].id == id {
            1nat
        } else {
            0nat
        }
    }
}

/// How many of the first `n` windows are the widget of the monitor `key`.
pub open spec fn key_count(ws: Seq<LiveWindowModel>, key: Seq<char>, n: int) -> nat
    decreases n,
{
    if n <= 0 || n > ws.len() {
        0
    } else {
        key_count(ws, key, n - 1) + if ws[n - 1].key == Some(key) {
            1nat
        } else {
            0nat
        }
    }
}

/// Whether the registry is sound: no two windows have the same identity, and
/// no monitor has two widgets.
pub open spec fn registry_wf(ws: Seq<LiveWindowModel>) -> bool {
    &&& forall|id: WindowId| #[trigger] id_count(ws, id, ws.len() as int) <= 1
    &&& forall|key: Seq<char>| #[trigger] key_count(ws, key, ws.len() as int) <= 1
}

/// Whether `w` is closed when the windows `doomed` are: it is one of them,
/// or the dialog of one of them.
pub open spec fn goes(w: LiveWindowModel, doomed: Seq<WindowId>) -> bool {
    doomed.contains(w.id) || match w.view {
        WindowModel::Resize(r) => doomed.contains(r.window_id),
        WindowModel::Switcher(_) => false,
    }
}

/// Those of the first `n` windows that stay when the windows `doomed` are
/// closed, in order.
pub open spec fn remaining(ws: Seq<LiveWindowModel>, doomed: Seq<WindowId>, n: int) -> Seq<
    LiveWindowModel,
>
    decreases n,
{
    if n <= 0 || n > ws.len() {
        Seq::empty()
    } else if goes(ws[n - 1], doomed) {
        remaining(ws, doomed, n - 1)
    } else {
        remaining(ws, doomed, n - 1).push(ws[n - 1])
    }
}

/// The identities of those of the first `n` windows that are closed when
/// the windows `doomed` are, in order.
pub open spec fn closed_ids(ws: Seq<LiveWindowModel>, doomed: Seq<WindowId>, n: int) -> Seq<
    WindowId,
>
    decreases n,
{
    if n <= 0 || n > ws.len() {
        Seq::empty()
    } else if goes(ws[n - 1], doomed) {
        closed_ids(ws, doomed, n - 1).push(ws[n - 1].id)
    } else {
        closed_ids(ws, doomed, n - 1)
    }
}

/// Whether `w` is the widget of a monitor that `state` does not hold.
pub open spec fn orphaned(w: LiveWindowModel, state: StateView) -> bool {
    match w.key {
        Some(k) => monitor_with(state.monitors, k, 0) is None,
        None => false,
    }
}

/// The identities of the widgets among the first `n` windows whose monitor
/// `state` does not hold, in order.
pub open spec fn orphans(ws: Seq<LiveWindowModel>, state: StateView, n: int) -> Seq<WindowId>
    decreases n,
{
    if n <= 0 || n > ws.len() {
        Seq::empty()
    } else if orphaned(ws[n - 1], state) {
        orphans(ws, state, n - 1).push(ws[n - 1].id)
    } else {
        orphans(ws, state, n - 1)
    }
}

/// The counts of the first `n` windows depend on those windows only.
pub proof fn lemma_counts_of_prefix(
    a: Seq<LiveWindowModel>,
    b: Seq<LiveWindowModel>,
    n: int,
    id: WindowId,
    key: Seq<char>,
)
    requires
        0 <= n <= a.len(),
        n <= b.len(),
        forall|k: int| 0 <= k < n ==> a[k] == b[k],
    ensures
        id_count(a, id, n) == id_count(b, id, n),
        key_count(a, key, n) == key_count(b, key, n),
    decreases n,
{
    if n > 0 {
        lemma_counts_of_prefix(a, b, n - 1, id, key);
    }
}

/// A count of more windows is not smaller.
pub proof fn lemma_counts_grow(ws: Seq<LiveWindowModel>, m: int, n: int, id: WindowId, key: Seq<char>)
    requires
        0 <= m <= n <= ws.len(),
    ensures
        id_count(ws, id, m) <= id_count(ws, id, n),
        key_count(ws, key, m) <= key_count(ws, key, n),
    decreases n - m,
{
    if m < n {
        lemma_counts_grow(ws, m, n - 1, id, key);
    }
}

/// A count that is not 0 counts a window.
pub proof fn lemma_count_finds(ws: Seq<LiveWindowModel>, n: int, id: WindowId, key: Seq<char>)
    requires
        0 <= n <= ws.len(),
    ensures
        id_count(ws, id, n) > 0 ==> exists|i: int| 0 <= i < n && #[trigger] ws[i].id == id,
        key_count(ws, key, n) > 0 ==> exists|i: int| 0 <= i < n && #[trigger] ws[i].key == Some(key),
    decreases n,
{
    if n > 0 {
        lemma_count_finds(ws, n - 1, id, key);
        if id_count(ws, id, n) > 0 {
            if ws[n - 1].id == id {
            } else {
                let i = choose|i: int| 0 <= i < n - 1 && #[trigger] ws[i].id == id;
                assert(0 <= i < n && ws[i].id == id);
            }
        }
        if key_count(ws, key, n) > 0 {
            if ws[n - 1].key == Some(key) {
            } else {
                let i = choose|i: int| 0 <= i < n - 1 && #[trigger] ws[i].key == Some(key);
                assert(0 <= i < n && ws[i].key == Some(key));
            }
        }
    }
}

/// In a sound registry two windows of one identity are one window, and so
/// are two widgets of one monitor.
pub proof fn lemma_wf_distinct(ws: Seq<LiveWindowModel>, i: int, j: int)
    requires
        registry_wf(ws),
        0 <= i < j < ws.len(),
    ensures
        ws[i].id != ws[j].id,
        ws[i].key is Some ==> ws[i].key != ws[j].key,
{
    let k = if ws[i].key is Some {
        ws[i].key.unwrap()
    } else {
        Seq::empty()
    };
    lemma_counts_grow(ws, i + 1, j, ws[i].id, k);
    lemma_counts_grow(ws, j + 1, ws.len() as int, ws[i].id, k);
    if ws[i].id == ws[j].id {
        assert(id_count(ws, ws[i].id, i + 1) >= 1);
        assert(id_count(ws, ws[i].id, j + 1) >= 2);
        assert(id_count(ws, ws[i].id, ws.len() as int) <= 1);
    }
    if ws[i].key is Some && ws[i].key == ws[j].key {
        assert(key_count(ws, k, i + 1) >= 1);
        assert(key_count(ws, k, j + 1) >= 2);
        assert(key_count(ws, k, ws.len() as int) <= 1);
    }
}

/// What stays of the first `n` windows counts no more than they do.
pub proof fn lemma_remaining_counts(
    ws: Seq<LiveWindowModel>,
    doomed: Seq<WindowId>,
    n: int,
    id: WindowId,
    key: Seq<char>,
)
    requires
        0 <= n <= ws.len(),
    ensures
        remaining(ws, doomed, n).len() <= n,
        id_count(remaining(ws, doomed, n), id, remaining(ws, doomed, n).len() as int) <= id_count(
            ws,
            id,
            n,
        ),
        key_count(remaining(ws, doomed, n), key, remaining(ws, doomed, n).len() as int)
            <= key_count(ws, key, n),
    decreases n,
{
    if n > 0 {
        lemma_remaining_counts(ws, doomed, n - 1, id, key);
        let before = remaining(ws, doomed, n - 1);
        let after = remaining(ws, doomed, n);
        if !goes(ws[n - 1], doomed) {
            lemma_counts_of_prefix(before, after, before.len() as int, id, key);
            assert(after[before.len() as int] == ws[n - 1]);
        }
    }
}

/// What stays of the first `n` windows: those of them that do not go, and
/// no others.
pub proof fn lemma_remaining_members(ws: Seq<LiveWindowModel>, doomed: Seq<WindowId>, n: int)
    requires
        0 <= n <= ws.len(),
    ensures
        forall|j: int|
            0 <= j < remaining(ws, doomed, n).len() ==> !goes(
                #[trigger] remaining(ws, doomed, n)[j],
                doomed,
            ),
        forall|i: int|
            0 <= i < n && !goes(ws[i], doomed) ==> remaining(ws, doomed, n).contains(
                #[trigger] ws[i],
            ),
        forall|j: int|
            0 <= j < remaining(ws, doomed, n).len() ==> ws.contains(
                #[trigger] remaining(ws, doomed, n)[j],
            ),
    decreases n,
{
    if n > 0 {
        lemma_remaining_members(ws, doomed, n - 1);
        let before = remaining(ws, doomed, n - 1);
        let after = remaining(ws, doomed, n);
        if !goes(ws[n - 1], doomed) {
            assert(after[before.len() as int] == ws[n - 1]);
            assert forall|i: int| 0 <= i < n && !goes(ws[i], doomed) implies after.contains(
                #[trigger] ws[i],
            ) by {
                if i < n - 1 {
                    assert(before.contains(ws[i]));
                    let j = choose|j: int| 0 <= j < before.len() && before[j] == ws[i];
                    assert(after[j] == ws[i]);
                } else {
                    assert(after[before.len() as int] == ws[i]);
                }
            }
            assert forall|j: int| 0 <= j < after.len() implies ws.contains(#[trigger] after[j]) by {
                if j < before.len() {
                    assert(after[j] == before[j]);
                    assert(ws.contains(before[j]));
                } else {
                    assert(ws[n - 1] == after[j]);
                }
            }
            assert forall|j: int| 0 <= j < after.len() implies !goes(#[trigger] after[j], doomed) by {
                if j < before.len() {
                    assert(after[j] == before[j]);
                }
            }
        }
    }
}

/// Closing windows leaves a sound registry sound.
pub proof fn lemma_remaining_wf(ws: Seq<LiveWindowModel>, doomed: Seq<WindowId>)
    requires
        registry_wf(ws),
    ensures
        registry_wf(remaining(ws, doomed, ws.len() as int)),
{
    let after = remaining(ws, doomed, ws.len() as int);
    assert forall|id: WindowId| #[trigger] id_count(after, id, after.len() as int) <= 1 by {
        lemma_remaining_counts(ws, doomed, ws.len() as int, id, Seq::empty());
        assert(id_count(ws, id, ws.len() as int) <= 1);
    }
    assert forall|key: Seq<char>| #[trigger] key_count(after, key, after.len() as int) <= 1 by {
        lemma_remaining_counts(ws, doomed, ws.len() as int, WindowId(0), key);
        assert(key_count(ws, key, ws.len() as int) <= 1);
    }
}

/// An identity among `orphans` is that of a widget whose monitor is gone.
pub proof fn lemma_orphans(ws: Seq<LiveWindowModel>, state: StateView, n: int)
    requires
        0 <= n <= ws.len(),
    ensures
        forall|id: WindowId|
            orphans(ws, state, n).contains(id) <==> exists|i: int|
                0 <= i < n && #[trigger] ws[i].id == id && orphaned(ws[i], state),
    decreases n,
{
    if n > 0 {
        lemma_orphans(ws, state, n - 1);
        let before = orphans(ws, state, n - 1);
        let after = orphans(ws, state, n);
        assert forall|id: WindowId| after.contains(id) <==> exists|i: int|
            0 <= i < n && #[trigger] ws[i].id == id && orphaned(ws[i], state) by {
            if after.contains(id) {
                let j = choose|j: int| 0 <= j < after.len() && after[j] == id;
                if j < before.len() {
                    assert(before[j] == id);
                    assert(before.contains(id));
                    let i = choose|i: int|
                        0 <= i < n - 1 && #[trigger] ws[i].id == id && orphaned(ws[i], state);
                    assert(0 <= i < n && ws[i].id == id && orphaned(ws[i], state));
                } else {
                    assert(ws[n - 1].id == id && orphaned(ws[n - 1], state));
                }
            }
            if exists|i: int| 0 <= i < n && #[trigger] ws[i].id == id && orphaned(ws[i], state) {
                let i = choose|i: int|
                    0 <= i < n && #[trigger] ws[i].id == id && orphaned(ws[i], state);
                if i < n - 1 {
                    assert(before.contains(id));
                    let j = choose|j: int| 0 <= j < before.len() && before[j] == id;
                    assert(after[j] == id);
                } else {
                    assert(after[after.len() - 1] == id);
                }
            }
        }
    }
}

/// The place of the first window at or after `from` with the identity `id`.
pub open spec fn window_index(ws: Seq<LiveWindowModel>, id: WindowId, from: int) -> Option<int>
    decreases ws.len() - from,
{
    if from < 0 || from >= ws.len() {
        None
    } else if ws[from].id == id {
        Some(from)
    } else {
        window_index(ws, id, from + 1)
    }
}

/// Counts depend on the identities and the monitors of the windows only.
pub proof fn lemma_counts_of_identities(
    a: Seq<LiveWindowModel>,
    b: Seq<LiveWindowModel>,
    n: int,
    id: WindowId,
    key: Seq<char>,
)
    requires
        0 <= n <= a.len(),
        a.len() == b.len(),
        forall|k: int| 0 <= k < n ==> a[k].id == b[k].id && a[k].key == b[k].key,
    ensures
        id_count(a, id, n) == id_count(b, id, n),
        key_count(a, key, n) == key_count(b, key, n),
    decreases n,
{
    if n > 0 {
        lemma_counts_of_identities(a, b, n - 1, id, key);
    }
}

} // verus!
