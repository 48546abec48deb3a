//! Reading the state from a document that lists the workspaces of one
//! monitor, or holds them somewhere in a tree of containers.

use vstd::prelude::*;
use vstd::string::*;
use crate::glazewm::order::{sort_workspaces, stable_sorted, NameNumber};
use crate::glazewm::scan::{collect_workspaces, found_views, scan, Found, FoundView};
use crate::glazewm::shape::{
    bool_member, first, first_of, flag, flag_of, focus_of_list, get_array, get_bool,
    get_nested_array, item_name, member_array, name_of_item, nested_array, single_monitor,
    single_monitor_state, top_focus,
};
use crate::json::{text_json, views_of, Json, JsonError, JsonValue};
use crate::state::{workspace_views, State, StateView, Workspace, WorkspaceView};
use crate::text::{decimal, decimal_string};

verus! {

/// The list of workspaces of a document: the array `workspaces`, else the
/// array `workspaces` of the member `data`, else the document itself where it
/// is an array, else nothing.
pub open spec fn flat_items(v: JsonValue) -> Seq<JsonValue> {
    match member_array(v, "workspaces"@) {
        Some(ws) => ws,
        None => match nested_array(v, "data"@, "workspaces"@) {
            Some(ws) => ws,
            None => match v.as_array() {
                Some(items) => items,
                None => Seq::empty(),
            },
        },
    }
}

/// Whether the workspace `w` at position `idx` has the focus: what the first
/// of its members `focused`, `isActive`, `active` and `is_focused` says where
/// that is a boolean, else whether the document names `idx` for the list.
pub open spec fn flat_focused(w: JsonValue, idx: usize, top: Option<u64>) -> bool {
    flag_of(
        first_of(
            first_of(first_of(w.get("focused"@), w.get("isActive"@)), w.get("active"@)),
            w.get("is_focused"@),
        ),
        top == Some(idx as u64),
    )
}

/// Whether the workspace `w` is empty: what the first boolean among its
/// members `isEmpty`, `empty` and (negated) `hasWindows` says; not empty where
/// it has none of them or is a bare name.
pub open spec fn flat_is_empty(w: JsonValue) -> bool {
    if w is String {
        false
    } else {
        match bool_member(w, "isEmpty"@) {
            Some(b) => b,
            None => match bool_member(w, "empty"@) {
                Some(b) => b,
                None => match bool_member(w, "hasWindows"@) {
                    Some(b) => !b,
                    None => false,
                },
            },
        }
    }
}

/// The workspace that the item `w` at position `idx` of the list describes.
pub open spec fn flat_workspace(w: JsonValue, idx: usize, top: Option<u64>) -> WorkspaceView {
    WorkspaceView {
        name: item_name(w, idx),
        index: idx,
        focused: flat_focused(w, idx, top),
        is_empty: flat_is_empty(w),
    }
}

/// The workspaces that the document lists.
pub open spec fn listed_workspaces(v: JsonValue) -> Seq<WorkspaceView> {
    Seq::new(
        flat_items(v).len(),
        |i: int| flat_workspace(flat_items(v)[i], i as usize, top_focus(v)),
    )
}

/// The workspace that was found as number `idx` in a tree: one without a
/// name is named by `idx`, counted from one.
pub open spec fn scanned_workspace(f: FoundView, idx: usize) -> WorkspaceView {
    WorkspaceView {
        name: if f.name.len() == 0 {
            decimal((idx + 1) as nat)
        } else {
            f.name
        },
        index: idx,
        focused: f.focused,
        is_empty: f.is_empty,
    }
}

/// The workspaces that stand anywhere in the tree of the document.
pub open spec fn scanned_workspaces(found: Seq<FoundView>) -> Seq<WorkspaceView> {
    Seq::new(found.len(), |i: int| scanned_workspace(found[i], i as usize))
}

/// `ws` with each workspace's index set to its position.
pub open spec fn renumbered(ws: Seq<WorkspaceView>) -> Seq<WorkspaceView> {
    Seq::new(
        ws.len(),
        |i: int|
            WorkspaceView {
                name: ws[i].name,
                index: i as usize,
                focused: ws[i].focused,
                is_empty: ws[i].is_empty,
            },
    )
}

/// The workspaces of a document before they are put in order: those that it
/// lists, or, where it lists none, those found in its tree.
pub open spec fn flat_unsorted(v: JsonValue) -> Seq<WorkspaceView> {
    if listed_workspaces(v).len() > 0 {
        listed_workspaces(v)
    } else {
        scanned_workspaces(scan(v))
    }
}

/// The workspaces of a document: in order of the numbers that their names
/// start with, then of their names, and numbered anew in that order.
pub open spec fn flat_workspaces(v: JsonValue) -> Seq<WorkspaceView> {
    renumbered(stable_sorted(NameNumber::Leading, flat_unsorted(v)))
}

/// The snapshot that a document describes: one monitor with its workspaces.
pub open spec fn flat_state(v: JsonValue) -> StateView {
    single_monitor(flat_workspaces(v))
}

fn items_of(value: &Json) -> (r: Option<&Vec<Json>>)
    ensures
        match r {
            Some(items) => flat_items(value@) == views_of(items@),
            None => flat_items(value@) == Seq::<JsonValue>::empty(),
        },
{
    match get_array(value, "workspaces") {
        Some(ws) => Some(ws),
        None => match get_nested_array(value, "data", "workspaces") {
            Some(ws) => Some(ws),
            None => value.as_array(),
        },
    }
}

fn workspace_of_item(w: &Json, idx: usize, top: Option<u64>) -> (r: Workspace)
    ensures
        r@ == flat_workspace(w@, idx, top),
{
    let name = name_of_item(w, idx);
    let named = first(
        first(first(w.get("focused"), w.get("isActive")), w.get("active")),
        w.get("is_focused"),
    );
    let by_list = match top {
        Some(f) => f == idx as u64,
        None => false,
    };
    let focused = flag(named, by_list);
    let is_empty = if w.is_string() {
        false
    } else {
        match get_bool(w, "isEmpty") {
            Some(b) => b,
            None => match get_bool(w, "empty") {
                Some(b) => b,
                None => match get_bool(w, "hasWindows") {
                    Some(b) => !b,
                    None => false,
                },
            },
        }
    };
    Workspace { name, index: idx, focused, is_empty }
}

fn listed(value: &Json) -> (r: Vec<Workspace>)
    ensures
        workspace_views(r@) == listed_workspaces(value@),
{
    let top = focus_of_list(value);
    let mut out: Vec<Workspace> = Vec::new();
    match items_of(value) {
        Some(items) => {
            let n: usize = items.len();
            let mut idx: usize = 0;
            while idx < n
                invariant
                    0 <= idx <= n,
                    n == items@.len(),
                    flat_items(value@) == views_of(items@),
                    top == top_focus(value@),
                    out@.len() == idx,
                    forall|k: int|
                        0 <= k < idx ==> out@[k]@ == flat_workspace(
                            views_of(items@)[k],
                            k as usize,
                            top,
                        ),
                decreases n - idx,
            {
                out.push(workspace_of_item(&items[idx], idx, top));
                idx = idx + 1;
            }
            assert(workspace_views(out@) =~= listed_workspaces(value@));
        },
        None => {
            assert(workspace_views(out@) =~= listed_workspaces(value@));
        },
    }
    out
}

fn scanned(mut found: Vec<Found>) -> (r: Vec<Workspace>)
    ensures
        workspace_views(r@) == scanned_workspaces(found_views(found@)),
{
    let ghost all = found_views(found@);
    let n: usize = found.len();
    let mut reversed: Vec<Workspace> = Vec::new();
    let mut left: usize = n;
    while left > 0
        invariant
            0 <= left <= n,
            n == all.len(),
            found@.len() == left,
            forall|i: int| 0 <= i < left ==> found@[i]@ == all[i],
            reversed@.len() == n - left,
            forall|i: int|
                0 <= i < n - left ==> reversed@[i]@ == scanned_workspace(
                    all[n - 1 - i],
                    (n - 1 - i) as usize,
                ),
        decreases left,
    {
        let f = found.pop().unwrap();
        left = left - 1;
        let name = if f.name.as_str().unicode_len() == 0 {
            decimal_string(left as u128 + 1)
        } else {
            f.name
        };
        reversed.push(Workspace { name, index: left, focused: f.focused, is_empty: f.is_empty });
    }
    let mut out: Vec<Workspace> = Vec::new();
    let mut i: usize = 0;
    while i < n
        invariant
            0 <= i <= n,
            n == all.len(),
            reversed@.len() == n - i,
            forall|j: int|
                0 <= j < n - i ==> reversed@[j]@ == scanned_workspace(
                    all[n - 1 - j],
                    (n - 1 - j) as usize,
                ),
            out@.len() == i,
            forall|j: int| 0 <= j < i ==> out@[j]@ == scanned_workspace(all[j], j as usize),
        decreases n - i,
    {
        let w = reversed.pop().unwrap();
        out.push(w);
        i = i + 1;
    }
    assert(workspace_views(out@) =~= scanned_workspaces(all));
    out
}

/// Sets the index of each workspace to its position.
pub fn renumber(ws: Vec<Workspace>) -> (r: Vec<Workspace>)
    ensures
        workspace_views(r@) == renumbered(workspace_views(ws@)),
{
    let mut out: Vec<Workspace> = Vec::new();
    let n: usize = ws.len();
    let mut i: usize = 0;
    while i < n
        invariant
            0 <= i <= n,
            n == ws@.len(),
            out@.len() == i,
            forall|k: int|
                0 <= k < i ==> out@[k]@ == renumbered(workspace_views(ws@))[k],
        decreases n - i,
    {
        let w = &ws[i];
        out.push(
            Workspace { name: w.name.clone(), index: i, focused: w.focused, is_empty: w.is_empty },
        );
        i = i + 1;
    }
    assert(workspace_views(out@) =~= renumbered(workspace_views(ws@)));
    out
}

/// Reads the snapshot from a document: the workspaces that it lists, or,
/// where it lists none, those found anywhere in its tree.
pub fn flat_state_from(value: &Json) -> (r: State)
    ensures
        r@ == flat_state(value@),
{
    let mut workspaces = listed(value);
    if workspaces.len() == 0 {
        let mut found: Vec<Found> = Vec::new();
        collect_workspaces(value, &mut found);
        assert(found_views(found@) =~= scan(value@));
        workspaces = scanned(found);
    }
    let sorted = sort_workspaces(NameNumber::Leading, workspaces);
    single_monitor_state(renumber(sorted))
}

/// Reads the snapshot from a text that is a JSON document. Any document
/// gives a snapshot; one without workspaces gives a monitor without any.
pub fn parse_state_json(text: &str) -> (r: Result<State, JsonError>)
    ensures
        match r {
            Ok(state) => text_json(text@) matches Some(j) && state@ == flat_state(j),
            Err(_) => text_json(text@) is None,
        },
{
    match Json::parse(text) {
        Ok(j) => Ok(flat_state_from(&j)),
        Err(e) => Err(e),
    }
}

} // verus!
