//! Reading komorebi's state and notifications from JSON documents.
//!
//! A record is an object. A member that a record needs must be there and of
//! the right kind; a member that may be missing counts as missing where it is
//! `null`; members that the record does not know are passed over.

use vstd::prelude::*;
use vstd::string::*;
use crate::json::{view_of, views_of, Json, JsonValue};
use crate::komorebi::client::{
    json_view, kmonitor_views, kworkspace_views, string_view, KMonitor, KMonitorView, KRect,
    KState, KStateView, KWorkspace, KWorkspaceView, MaybeRingOrVec, MaybeRingOrVecView, Ring,
    RingView,
};
use crate::komorebi::event::{KNotificationEvent, KSocketEvent};

verus! {

/// The number that `j` writes, where it is one that fits a `usize`.
pub open spec fn usize_of(j: JsonValue) -> Option<usize> {
    match j.as_u64() {
        Some(v) => if v <= usize::MAX {
            Some(v as usize)
        } else {
            None
        },
        None => None,
    }
}

/// The number that `j` writes, where it is one that fits an `i32`.
pub open spec fn i32_of(j: JsonValue) -> Option<i32> {
    match j.as_int() {
        Some(v) => if i32::MIN <= v <= i32::MAX {
            Some(v as i32)
        } else {
            None
        },
        None => None,
    }
}

/// A member that may be missing: `null` counts as missing.
pub open spec fn optional_of(j: Option<JsonValue>) -> Option<JsonValue> {
    match j {
        Some(JsonValue::Null) => None,
        other => other,
    }
}

/// A string that may be missing; the outer `None` says that the member is
/// there and no string.
pub open spec fn optional_string_of(j: Option<JsonValue>) -> Option<Option<Seq<char>>> {
    match optional_of(j) {
        None => Some(None),
        Some(v) => match v.as_str() {
            Some(s) => Some(Some(s)),
            None => None,
        },
    }
}

/// A string that must be there.
pub open spec fn string_of(j: Option<JsonValue>) -> Option<Seq<char>> {
    match j {
        Some(v) => v.as_str(),
        None => None,
    }
}

/// An `i32` that must be there.
pub open spec fn i32_member(j: Option<JsonValue>) -> Option<i32> {
    match j {
        Some(v) => i32_of(v),
        None => None,
    }
}

/// A ring: an object with the array `elements` and the number `focused`.
pub open spec fn ring_of(j: Option<JsonValue>) -> Option<RingView<JsonValue>> {
    match j {
        Some(j) => match (j.get("elements"@), j.get("focused"@)) {
            (Some(e), Some(f)) => match (e.as_array(), usize_of(f)) {
                (Some(elements), Some(focused)) => Some(RingView { elements, focused }),
                _ => None,
            },
            _ => None,
        },
        None => None,
    }
}

/// A list that is a ring where it reads as one, else a bare array.
pub open spec fn maybe_ring_or_vec_of(j: Option<JsonValue>) -> Option<
    MaybeRingOrVecView<JsonValue>,
> {
    match ring_of(j) {
        Some(ring) => Some(MaybeRingOrVecView::Ring(ring)),
        None => match j {
            Some(v) => match v.as_array() {
                Some(items) => Some(MaybeRingOrVecView::Vec(items)),
                None => None,
            },
            None => None,
        },
    }
}

/// A workspace: an object with `containers` and `floating_windows`, and
/// maybe `name`, `maximized_window` and `monocle_container`.
pub open spec fn kworkspace_of(j: JsonValue) -> Option<KWorkspaceView> {
    if !(j is Object) {
        None
    } else {
        match (
            optional_string_of(j.get("name"@)),
            ring_of(j.get("containers"@)),
            maybe_ring_or_vec_of(j.get("floating_windows"@)),
        ) {
            (Some(name), Some(containers), Some(floating_windows)) => Some(
                KWorkspaceView {
                    name,
                    containers,
                    maximized_window: optional_of(j.get("maximized_window"@)),
                    monocle_container: optional_of(j.get("monocle_container"@)),
                    floating_windows,
                },
            ),
            _ => None,
        }
    }
}

/// The workspaces that the items of an array are, where each is one.
pub open spec fn kworkspaces_of(items: Seq<JsonValue>) -> Option<Seq<KWorkspaceView>> {
    if forall|i: int| 0 <= i < items.len() ==> (#[trigger] kworkspace_of(items[i])) is Some {
        Some(Seq::new(items.len(), |i: int| kworkspace_of(items[i]).unwrap()))
    } else {
        None
    }
}

/// A rectangle: an object with the numbers `left`, `top`, `right` and
/// `bottom`.
pub open spec fn krect_of(j: Option<JsonValue>) -> Option<KRect> {
    match j {
        Some(j) => match (
            i32_member(j.get("left"@)),
            i32_member(j.get("top"@)),
            i32_member(j.get("right"@)),
            i32_member(j.get("bottom"@)),
        ) {
            (Some(left), Some(top), Some(right), Some(bottom)) => Some(
                KRect { left, top, right, bottom },
            ),
            _ => None,
        },
        None => None,
    }
}

/// A monitor: an object with `name`, `workspaces` and `size`, and maybe
/// `device_id` and `serial_number_id`.
pub open spec fn kmonitor_of(j: JsonValue) -> Option<KMonitorView> {
    match (
        string_of(j.get("name"@)),
        optional_string_of(j.get("device_id"@)),
        optional_string_of(j.get("serial_number_id"@)),
        ring_of(j.get("workspaces"@)),
        krect_of(j.get("size"@)),
    ) {
        (Some(name), Some(device_id), Some(serial_number_id), Some(ring), Some(size)) => {
            match kworkspaces_of(ring.elements) {
                Some(elements) => Some(
                    KMonitorView {
                        name,
                        device_id,
                        serial_number_id,
                        workspaces: RingView { elements, focused: ring.focused },
                        size,
                    },
                ),
                None => None,
            }
        },
        _ => None,
    }
}

/// The monitors that the items of an array are, where each is one.
pub open spec fn kmonitors_of(items: Seq<JsonValue>) -> Option<Seq<KMonitorView>> {
    if forall|i: int| 0 <= i < items.len() ==> (#[trigger] kmonitor_of(items[i])) is Some {
        Some(Seq::new(items.len(), |i: int| kmonitor_of(items[i]).unwrap()))
    } else {
        None
    }
}

/// The state: an object with the ring `monitors`.
pub open spec fn kstate_of(j: JsonValue) -> Option<KStateView> {
    match ring_of(j.get("monitors"@)) {
        Some(ring) => match kmonitors_of(ring.elements) {
            Some(elements) => Some(
                KStateView { monitors: RingView { elements, focused: ring.focused } },
            ),
            None => None,
        },
        None => None,
    }
}

/// The kind of event that an object names in its member `type`.
pub open spec fn event_of(j: Option<JsonValue>) -> Option<KSocketEvent> {
    match j {
        Some(e) => match e.get("type"@) {
            Some(t) => match t.as_str() {
                Some(name) => KSocketEvent::of_name(name),
                None => None,
            },
            None => None,
        },
        None => None,
    }
}

/// A notification as a plain value.
pub struct KNotificationView {
    pub event: KNotificationEvent,
    pub state: KStateView,
}

/// A notification: an object with `event`, of a kind that is listed, and
/// `state`.
pub open spec fn knotification_of(j: JsonValue) -> Option<KNotificationView> {
    match (event_of(j.get("event"@)), j.get("state"@)) {
        (Some(event), Some(s)) => match kstate_of(s) {
            Some(state) => Some(KNotificationView { event: KNotificationEvent::Socket(event), state }),
            None => None,
        },
        _ => None,
    }
}

/// What komorebi sends after a change: the event and the state after it.
#[derive(Debug)]
pub struct KNotification {
    pub event: KNotificationEvent,
    pub state: KState,
}

impl View for KNotification {
    type V = KNotificationView;

    open spec fn view(&self) -> KNotificationView {
        KNotificationView { event: self.event, state: self.state@ }
    }
}

fn decode_usize(j: &Json) -> (r: Option<usize>)
    ensures
        r == usize_of(j@),
{
    match j.as_u64() {
        Some(v) => {
            if v <= usize::MAX as u64 {
                Some(v as usize)
            } else {
                None
            }
        },
        None => None,
    }
}

fn decode_i32(j: Option<&Json>) -> (r: Option<i32>)
    ensures
        r == i32_member(view_of(j)),
{
    match j {
        Some(v) => v.as_i32(),
        None => None,
    }
}

fn decode_optional<'a>(j: Option<&'a Json>) -> (r: Option<&'a Json>)
    ensures
        view_of(r) == optional_of(view_of(j)),
{
    match j {
        Some(Json::Null) => None,
        other => other,
    }
}

fn clone_optional(j: Option<&Json>) -> (r: Option<Json>)
    ensures
        json_view(r) == view_of(j),
{
    match j {
        Some(v) => Some(v.clone()),
        None => None,
    }
}

fn decode_optional_string(j: Option<&Json>) -> (r: Option<Option<String>>)
    ensures
        match r {
            Some(s) => optional_string_of(view_of(j)) == Some(string_view(s)),
            None => optional_string_of(view_of(j)) is None,
        },
{
    match decode_optional(j) {
        None => Some(None),
        Some(v) => match v.as_str() {
            Some(s) => Some(Some(String::from_str(s))),
            None => None,
        },
    }
}

fn decode_string(j: Option<&Json>) -> (r: Option<String>)
    ensures
        string_view(r) == string_of(view_of(j)),
{
    match j {
        Some(v) => match v.as_str() {
            Some(s) => Some(String::from_str(s)),
            None => None,
        },
        None => None,
    }
}

fn clone_items(items: &Vec<Json>) -> (r: Vec<Json>)
    ensures
        views_of(r@) == views_of(items@),
{
    let mut out: Vec<Json> = Vec::new();
    let n: usize = items.len();
    let mut i: usize = 0;
    while i < n
        invariant
            0 <= i <= n,
            n == items@.len(),
            out@.len() == i,
            forall|k: int| 0 <= k < i ==> out@[k]@ == items@[k]@,
        decreases n - i,
    {
        out.push(items[i].clone());
        i = i + 1;
    }
    assert(views_of(out@) =~= views_of(items@));
    out
}

/// The array `elements` and the number `focused` of a ring.
fn ring_parts<'a>(j: Option<&'a Json>) -> (r: Option<(&'a Vec<Json>, usize)>)
    ensures
        match r {
            Some((items, focused)) => ring_of(view_of(j)) == Some(
                RingView { elements: views_of(items@), focused },
            ),
            None => ring_of(view_of(j)) is None,
        },
{
    match j {
        Some(j) => match (j.get("elements"), j.get("focused")) {
            (Some(e), Some(f)) => match (e.as_array(), decode_usize(f)) {
                (Some(items), Some(focused)) => Some((items, focused)),
                _ => None,
            },
            _ => None,
        },
        None => None,
    }
}

fn decode_maybe_ring_or_vec(j: Option<&Json>) -> (r: Option<MaybeRingOrVec<Json>>)
    ensures
        match r {
            Some(MaybeRingOrVec::Ring(ring)) => maybe_ring_or_vec_of(view_of(j)) == Some(
                MaybeRingOrVecView::Ring(
                    RingView { elements: views_of(ring.elements@), focused: ring.focused },
                ),
            ),
            Some(MaybeRingOrVec::Vec(vec)) => maybe_ring_or_vec_of(view_of(j)) == Some(
                MaybeRingOrVecView::Vec(views_of(vec@)),
            ),
            None => maybe_ring_or_vec_of(view_of(j)) is None,
        },
{
    match ring_parts(j) {
        Some((items, focused)) => Some(
            MaybeRingOrVec::Ring(Ring { elements: clone_items(items), focused }),
        ),
        None => match j {
            Some(v) => match v.as_array() {
                Some(items) => Some(MaybeRingOrVec::Vec(clone_items(items))),
                None => None,
            },
            None => None,
        },
    }
}

fn decode_krect(j: Option<&Json>) -> (r: Option<KRect>)
    ensures
        r == krect_of(view_of(j)),
{
    match j {
        Some(j) => match (
            decode_i32(j.get("left")),
            decode_i32(j.get("top")),
            decode_i32(j.get("right")),
            decode_i32(j.get("bottom")),
        ) {
            (Some(left), Some(top), Some(right), Some(bottom)) => Some(
                KRect { left, top, right, bottom },
            ),
            _ => None,
        },
        None => None,
    }
}

/// The view of a value that may be missing.
pub open spec fn option_view<T: View>(o: Option<T>) -> Option<T::V> {
    match o {
        Some(v) => Some(v@),
        None => None,
    }
}

impl KWorkspace {
    /// Reads a workspace from a document.
    pub fn from_json(j: &Json) -> (r: Option<KWorkspace>)
        ensures
            option_view(r) == kworkspace_of(j@),
    {
        match j {
            Json::Object(_) => {},
            _ => {
                return None;
            },
        }
        match (
            decode_optional_string(j.get("name")),
            ring_parts(j.get("containers")),
            decode_maybe_ring_or_vec(j.get("floating_windows")),
        ) {
            (Some(name), Some((items, focused)), Some(floating_windows)) => Some(
                KWorkspace {
                    name,
                    containers: Ring { elements: clone_items(items), focused },
                    maximized_window: clone_optional(decode_optional(j.get("maximized_window"))),
                    monocle_container: clone_optional(decode_optional(j.get("monocle_container"))),
                    floating_windows,
                },
            ),
            _ => None,
        }
    }
}

fn decode_kworkspaces(items: &Vec<Json>) -> (r: Option<Vec<KWorkspace>>)
    ensures
        match r {
            Some(v) => kworkspaces_of(views_of(items@)) == Some(kworkspace_views(v@)),
            None => kworkspaces_of(views_of(items@)) is None,
        },
{
    let mut out: Vec<KWorkspace> = Vec::new();
    let n: usize = items.len();
    let mut i: usize = 0;
    while i < n
        invariant
            0 <= i <= n,
            n == items@.len(),
            out@.len() == i,
            forall|k: int|
                0 <= k < i ==> (#[trigger] kworkspace_of(views_of(items@)[k])) == Some(out@[k]@),
        decreases n - i,
    {
        match KWorkspace::from_json(&items[i]) {
            Some(w) => {
                out.push(w);
            },
            None => {
                assert(kworkspace_of(views_of(items@)[i as int]) is None);
                return None;
            },
        }
        i = i + 1;
    }
    assert(kworkspaces_of(views_of(items@)).unwrap() =~= kworkspace_views(out@));
    Some(out)
}

impl KMonitor {
    /// Reads a monitor from a document.
    pub fn from_json(j: &Json) -> (r: Option<KMonitor>)
        ensures
            option_view(r) == kmonitor_of(j@),
    {
        match (
            decode_string(j.get("name")),
            decode_optional_string(j.get("device_id")),
            decode_optional_string(j.get("serial_number_id")),
            ring_parts(j.get("workspaces")),
            decode_krect(j.get("size")),
        ) {
            (
                Some(name),
                Some(device_id),
                Some(serial_number_id),
                Some((items, focused)),
                Some(size),
            ) => match decode_kworkspaces(items) {
                Some(elements) => Some(
                    KMonitor {
                        name,
                        device_id,
                        serial_number_id,
                        workspaces: Ring { elements, focused },
                        size,
                    },
                ),
                None => None,
            },
            _ => None,
        }
    }
}

fn decode_kmonitors(items: &Vec<Json>) -> (r: Option<Vec<KMonitor>>)
    ensures
        match r {
            Some(v) => kmonitors_of(views_of(items@)) == Some(kmonitor_views(v@)),
            None => kmonitors_of(views_of(items@)) is None,
        },
{
    let mut out: Vec<KMonitor> = Vec::new();
    let n: usize = items.len();
    let mut i: usize = 0;
    while i < n
        invariant
            0 <= i <= n,
            n == items@.len(),
            out@.len() == i,
            forall|k: int|
                0 <= k < i ==> (#[trigger] kmonitor_of(views_of(items@)[k])) == Some(out@[k]@),
        decreases n - i,
    {
        match KMonitor::from_json(&items[i]) {
            Some(m) => {
                out.push(m);
            },
            None => {
                assert(kmonitor_of(views_of(items@)[i as int]) is None);
                return None;
            },
        }
        i = i + 1;
    }
    assert(kmonitors_of(views_of(items@)).unwrap() =~= kmonitor_views(out@));
    Some(out)
}

impl KState {
    /// Reads the state from a document.
    pub fn from_json(j: &Json) -> (r: Option<KState>)
        ensures
            option_view(r) == kstate_of(j@),
    {
        match ring_parts(j.get("monitors")) {
            Some((items, focused)) => match decode_kmonitors(items) {
                Some(elements) => Some(KState { monitors: Ring { elements, focused } }),
                None => None,
            },
            None => None,
        }
    }
}

fn decode_event(j: Option<&Json>) -> (r: Option<KSocketEvent>)
    ensures
        r == event_of(view_of(j)),
{
    match j {
        Some(e) => match e.get("type") {
            Some(t) => match t.as_str() {
                Some(name) => KSocketEvent::from_name(name),
                None => None,
            },
            None => None,
        },
        None => None,
    }
}

impl KNotification {
    /// Reads a notification from a document.
    pub fn from_json(j: &Json) -> (r: Option<KNotification>)
        ensures
            option_view(r) == knotification_of(j@),
    {
        match (decode_event(j.get("event")), j.get("state")) {
            (Some(event), Some(s)) => match KState::from_json(s) {
                Some(state) => Some(KNotification { event: KNotificationEvent::Socket(event), state }),
                None => None,
            },
            _ => None,
        }
    }
}

} // verus!
