//! What the documents of GlazeWM have in common: where the list of
//! workspaces stands, how a workspace is named, and which one has the focus.

use vstd::prelude::*;
use vstd::string::*;
use crate::json::{view_of, views_of, Json, JsonValue};
use crate::state::{workspace_views, Monitor, MonitorView, Rect, State, StateView, Workspace, WorkspaceView};
use crate::text::{decimal, decimal_string};

verus! {

/// The items of the array that is the member `key` of `v`.
pub open spec fn member_array(v: JsonValue, key: Seq<char>) -> Option<Seq<JsonValue>> {
    match v.get(key) {
        Some(x) => x.as_array(),
        None => None,
    }
}

/// The items of the array `inner` of the member `outer` of `v`.
pub open spec fn nested_array(v: JsonValue, outer: Seq<char>, inner: Seq<char>) -> Option<
    Seq<JsonValue>,
> {
    match v.get(outer) {
        Some(d) => member_array(d, inner),
        None => None,
    }
}

/// `a` where there is one, else `b`.
pub open spec fn first_of(a: Option<JsonValue>, b: Option<JsonValue>) -> Option<JsonValue> {
    match a {
        Some(_) => a,
        None => b,
    }
}

/// The number that `found` is, where it is a number from 0 to `u64::MAX`.
pub open spec fn number_of(found: Option<JsonValue>) -> Option<u64> {
    match found {
        Some(f) => f.as_u64(),
        None => None,
    }
}

/// The boolean that `found` is, else `fallback`.
pub open spec fn flag_of(found: Option<JsonValue>, fallback: bool) -> bool {
    match found {
        Some(f) => match f.as_bool() {
            Some(b) => b,
            None => fallback,
        },
        None => fallback,
    }
}

/// The boolean that the member `key` of `v` is.
pub open spec fn bool_member(v: JsonValue, key: Seq<char>) -> Option<bool> {
    match v.get(key) {
        Some(f) => f.as_bool(),
        None => None,
    }
}

/// The position of the focused workspace that the document gives for the
/// whole list: `focused`, else `focusedIndex`, of the member `workspaces`,
/// where that is a number; else the member `focusedWorkspaceIndex`.
pub open spec fn top_focus(v: JsonValue) -> Option<u64> {
    let in_workspaces = match v.get("workspaces"@) {
        Some(w) => number_of(first_of(w.get("focused"@), w.get("focusedIndex"@))),
        None => None,
    };
    match in_workspaces {
        Some(f) => Some(f),
        None => number_of(v.get("focusedWorkspaceIndex"@)),
    }
}

/// The name of the workspace `w` at position `idx` of the list: `w` itself
/// where it is a string, else its member `name` where that is a string, else
/// the position, counted from one.
pub open spec fn item_name(w: JsonValue, idx: usize) -> Seq<char> {
    match w {
        JsonValue::String(s) => s,
        _ => match w.get("name"@) {
            Some(n) => match n.as_str() {
                Some(s) => s,
                None => decimal((idx + 1) as nat),
            },
            None => decimal((idx + 1) as nat),
        },
    }
}

/// The index by which a workspace is focused: one less than the number that
/// its name is, and not below 0; the position in the list where the name is
/// no number.
pub open spec fn index_of_number(number: Option<i32>, idx: usize) -> usize {
    match number {
        Some(n) => if n >= 1 {
            (n - 1) as usize
        } else {
            0
        },
        None => idx,
    }
}

/// The one monitor that stands for a window manager which names none.
pub open spec fn single_monitor(workspaces: Seq<WorkspaceView>) -> StateView {
    StateView {
        monitors: seq![
            MonitorView {
                name: "Monitor"@,
                index: 0,
                id: "glazewm-default"@,
                workspaces,
                rect: Rect { left: 0, top: 0, right: 0, bottom: 0 },
            },
        ],
    }
}

pub fn get_array<'a>(value: &'a Json, key: &str) -> (r: Option<&'a Vec<Json>>)
    ensures
        match r {
            Some(items) => member_array(value@, key@) == Some(views_of(items@)),
            None => member_array(value@, key@) is None,
        },
{
    match value.get(key) {
        Some(x) => x.as_array(),
        None => None,
    }
}

pub fn get_nested_array<'a>(value: &'a Json, outer: &str, inner: &str) -> (r: Option<
    &'a Vec<Json>,
>)
    ensures
        match r {
            Some(items) => nested_array(value@, outer@, inner@) == Some(views_of(items@)),
            None => nested_array(value@, outer@, inner@) is None,
        },
{
    match value.get(outer) {
        Some(d) => get_array(d, inner),
        None => None,
    }
}

pub fn first<'a>(a: Option<&'a Json>, b: Option<&'a Json>) -> (r: Option<&'a Json>)
    ensures
        view_of(r) == first_of(view_of(a), view_of(b)),
{
    match a {
        Some(_) => a,
        None => b,
    }
}

pub fn number(found: Option<&Json>) -> (r: Option<u64>)
    ensures
        r == number_of(view_of(found)),
{
    match found {
        Some(f) => f.as_u64(),
        None => None,
    }
}

pub fn flag(found: Option<&Json>, fallback: bool) -> (r: bool)
    ensures
        r == flag_of(view_of(found), fallback),
{
    match found {
        Some(f) => match f.as_bool() {
            Some(b) => b,
            None => fallback,
        },
        None => fallback,
    }
}

pub fn get_bool(value: &Json, key: &str) -> (r: Option<bool>)
    ensures
        r == bool_member(value@, key@),
{
    match value.get(key) {
        Some(f) => f.as_bool(),
        None => None,
    }
}

/// The position of the focused workspace that the document gives for the
/// whole list.
pub fn focus_of_list(value: &Json) -> (r: Option<u64>)
    ensures
        r == top_focus(value@),
{
    let in_workspaces = match value.get("workspaces") {
        Some(w) => number(first(w.get("focused"), w.get("focusedIndex"))),
        None => None,
    };
    match in_workspaces {
        Some(f) => Some(f),
        None => number(value.get("focusedWorkspaceIndex")),
    }
}

/// The name of the workspace `w` at position `idx` of the list.
pub fn name_of_item(w: &Json, idx: usize) -> (r: String)
    ensures
        r@ == item_name(w@, idx),
{
    match w {
        Json::String(s) => s.clone(),
        _ => match w.get("name") {
            Some(n) => match n.as_str() {
                Some(s) => String::from_str(s),
                None => decimal_string(idx as u128 + 1),
            },
            None => decimal_string(idx as u128 + 1),
        },
    }
}

/// The index by which a workspace is focused.
pub fn index_from(number: Option<i32>, idx: usize) -> (r: usize)
    ensures
        r == index_of_number(number, idx),
{
    match number {
        Some(n) => {
            if n >= 1 {
                (n - 1) as usize
            } else {
                0
            }
        },
        None => idx,
    }
}

/// The snapshot with one monitor that holds `workspaces`.
pub fn single_monitor_state(workspaces: Vec<Workspace>) -> (r: State)
    ensures
        r@ == single_monitor(workspace_views(workspaces@)),
{
    let monitor = Monitor {
        name: String::from_str("Monitor"),
        index: 0,
        id: String::from_str("glazewm-default"),
        workspaces,
        rect: Rect::default(),
    };
    let mut monitors: Vec<Monitor> = Vec::new();
    monitors.push(monitor);
    let r = State { monitors };
    assert(r@.monitors =~= single_monitor(workspace_views(workspaces@)).monitors);
    r
}

} // verus!
