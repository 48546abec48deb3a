//! Finding workspaces anywhere in a document of GlazeWM.

use vstd::prelude::*;
use vstd::string::*;
use crate::json::{views_of, Json, JsonValue};
use crate::text::{eq_ignore_ascii_case, eq_ignoring_ascii_case};

verus! {

/// A workspace found in a document.
#[derive(Debug)]
pub struct Found {
    pub name: String,
    pub focused: bool,
    pub is_empty: bool,
}

/// A found workspace as a plain value.
pub struct FoundView {
    pub name: Seq<char>,
    pub focused: bool,
    pub is_empty: bool,
}

impl View for Found {
    type V = FoundView;

    open spec fn view(&self) -> FoundView {
        FoundView { name: self.name@, focused: self.focused, is_empty: self.is_empty }
    }
}

/// The found workspaces of `found` as plain values, in order.
pub open spec fn found_views(found: Seq<Found>) -> Seq<FoundView> {
    Seq::new(found.len(), |i: int| found[i]@)
}

/// Whether the member `type` of `v` is the string `ty`, up to the case of
/// ASCII letters.
pub open spec fn has_type(v: JsonValue, ty: Seq<char>) -> bool {
    match v.get("type"@) {
        Some(t) => match t.as_str() {
            Some(s) => eq_ignoring_ascii_case(s, ty),
            None => false,
        },
        None => false,
    }
}

/// Whether one of `items` is a window.
pub open spec fn any_window(items: Seq<JsonValue>) -> bool {
    exists|i: int| 0 <= i < items.len() && has_type(#[trigger] items[i], "window"@)
}

/// The workspace that an object of the type `workspace` describes: its name,
/// or no name; whether it has the focus; and it is empty unless one of its
/// children is a window.
pub open spec fn found_of(v: JsonValue) -> FoundView {
    FoundView {
        name: match v.get("name"@) {
            Some(n) => match n.as_str() {
                Some(s) => s,
                None => Seq::empty(),
            },
            None => Seq::empty(),
        },
        focused: match (match v.get("hasFocus"@) {
            Some(f) => Some(f),
            None => v.get("focused"@),
        }) {
            Some(f) => match f.as_bool() {
                Some(b) => b,
                None => false,
            },
            None => false,
        },
        is_empty: match v.get("children"@) {
            Some(c) => match c.as_array() {
                Some(items) => !any_window(items),
                None => true,
            },
            None => true,
        },
    }
}

/// The workspace that `v` itself is, if it is one.
pub open spec fn found_here(v: JsonValue) -> Seq<FoundView> {
    if v is Object && has_type(v, "workspace"@) {
        seq![found_of(v)]
    } else {
        Seq::empty()
    }
}

/// The workspaces in `v`, at any depth: `v` itself where it is one, then
/// those in its members or items, in their order.
pub open spec fn scan(v: JsonValue) -> Seq<FoundView>
    decreases v, 0int,
{
    match v {
        JsonValue::Object(members) => found_here(v) + scan_members(members, members.len() as int),
        JsonValue::Array(items) => scan_items(items, items.len() as int),
        _ => Seq::empty(),
    }
}

/// The workspaces in the first `n` of `items`.
pub open spec fn scan_items(items: Seq<JsonValue>, n: int) -> Seq<FoundView>
    decreases items, n,
{
    if n <= 0 || n > items.len() {
        Seq::empty()
    } else {
        scan_items(items, n - 1) + scan(items[n - 1])
    }
}

/// The workspaces in the values of the first `n` of `members`.
pub open spec fn scan_members(members: Seq<(Seq<char>, JsonValue)>, n: int) -> Seq<FoundView>
    decreases members, n,
{
    if n <= 0 || n > members.len() {
        Seq::empty()
    } else {
        scan_members(members, n - 1) + scan(members[n - 1].1)
    }
}

/// Whether the member `type` of `value` is the string `ty`, up to the case
/// of ASCII letters.
pub fn node_has_type(value: &Json, ty: &str) -> (r: bool)
    ensures
        r == has_type(value@, ty@),
{
    match value.get("type") {
        Some(t) => match t.as_str() {
            Some(s) => eq_ignore_ascii_case(s, ty),
            None => false,
        },
        None => false,
    }
}

fn holds_window(items: &Vec<Json>) -> (r: bool)
    ensures
        r == any_window(views_of(items@)),
{
    let n: usize = items.len();
    let mut i: usize = 0;
    while i < n
        invariant
            0 <= i <= n,
            n == items@.len(),
            forall|k: int| 0 <= k < i ==> !has_type(#[trigger] views_of(items@)[k], "window"@),
        decreases n - i,
    {
        if node_has_type(&items[i], "window") {
            assert(has_type(views_of(items@)[i as int], "window"@));
            return true;
        }
        i = i + 1;
    }
    false
}

/// The workspace that an object of the type `workspace` describes.
pub fn found_from(value: &Json) -> (r: Found)
    ensures
        r@ == found_of(value@),
{
    let name = match value.get("name") {
        Some(n) => match n.as_str() {
            Some(s) => String::from_str(s),
            None => String::new(),
        },
        None => String::new(),
    };
    let flag = match value.get("hasFocus") {
        Some(f) => Some(f),
        None => value.get("focused"),
    };
    let focused = match flag {
        Some(f) => match f.as_bool() {
            Some(b) => b,
            None => false,
        },
        None => false,
    };
    let is_empty = match value.get("children") {
        Some(c) => match c.as_array() {
            Some(items) => !holds_window(items),
            None => true,
        },
        None => true,
    };
    Found { name, focused, is_empty }
}

/// Appends to `out` the workspaces in `value`, at any depth.
pub fn collect_workspaces(value: &Json, out: &mut Vec<Found>)
    ensures
        found_views(final(out)@) == found_views(old(out)@) + scan(value@),
    decreases value,
{
    let ghost before = found_views(out@);
    match value {
        Json::Object(members) => {
            if node_has_type(value, "workspace") {
                out.push(found_from(value));
            }
            assert(found_views(out@) =~= before + found_here(value@));
            let n: usize = members.len();
            let mut i: usize = 0;
            while i < n
                invariant
                    0 <= i <= n,
                    n == members@.len(),
                    *value == Json::Object(*members),
                    found_views(out@) == before + found_here(value@) + scan_members(
                        value@->Object_0,
                        i as int,
                    ),
                decreases n - i,
            {
                assert(value is Object && value->Object_0 == *members);
                assert(decreases_to!(*value => members@[i as int].1));
                collect_workspaces(&members[i].1, out);
                assert(value@->Object_0[i as int].1 == members@[i as int].1@);
                assert(found_views(out@) =~= before + found_here(value@) + scan_members(
                    value@->Object_0,
                    i + 1,
                ));
                i = i + 1;
            }
            assert(found_views(out@) =~= before + scan(value@));
        },
        Json::Array(items) => {
            let n: usize = items.len();
            let mut i: usize = 0;
            assert(found_views(out@) =~= before + scan_items(value@->Array_0, 0));
            while i < n
                invariant
                    0 <= i <= n,
                    n == items@.len(),
                    *value == Json::Array(*items),
                    found_views(out@) == before + scan_items(value@->Array_0, i as int),
                decreases n - i,
            {
                assert(value is Array && value->Array_0 == *items);
                assert(decreases_to!(*value => items@[i as int]));
                collect_workspaces(&items[i], out);
                assert(value@->Array_0[i as int] == items@[i as int]@);
                assert(found_views(out@) =~= before + scan_items(value@->Array_0, i + 1));
                i = i + 1;
            }
        },
        _ => {
            assert(found_views(out@) =~= before + scan(value@));
        },
    }
}

} // verus!
