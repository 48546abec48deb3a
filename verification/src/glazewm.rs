//! The client of GlazeWM, which is asked through its command line.

use vstd::prelude::*;
use vstd::string::*;
use crate::glazewm::client::{focus_args, focus_workspace};
use crate::glazewm::flat::{flat_state, flat_state_from};
use crate::glazewm::grouped::{grouped_state, grouped_state_from};
use crate::glazewm::plain::{name_views, parse_plain_workspaces, plain_state};
use crate::json::{text_json, Json, JsonError, JsonValue};
use crate::state::{State, StateView};

pub mod client;
pub mod flat;
pub mod grouped;
pub mod order;
pub mod plain;
pub mod scan;
pub mod shape;

verus! {

/// The time between two queries for the state, in milliseconds.
pub const POLL_INTERVAL_MILLIS: u64 = 750;

/// The snapshot that a text gives, `document` being what the text is as
/// JSON: of a document the monitors that its workspaces name, else the one
/// monitor that it lists or holds; of any other text one workspace for each
/// line; and no monitor where that gives nothing.
pub open spec fn state_of_text(document: Option<JsonValue>, text: Seq<char>) -> StateView {
    match document {
        Some(j) => match grouped_state(j) {
            Some(state) => state,
            None => flat_state(j),
        },
        None => match plain_state(text) {
            Some(state) => state,
            None => StateView { monitors: Seq::empty() },
        },
    }
}

/// The snapshot that a text gives, `document` being what the text is as
/// JSON.
pub fn state_from_text(document: &Result<Json, JsonError>, text: &str) -> (r: State)
    ensures
        r@ == state_of_text(
            match document {
                Ok(j) => Some(j@),
                Err(_) => None,
            },
            text@,
        ),
{
    match document {
        Ok(j) => match grouped_state_from(j) {
            Some(state) => state,
            None => flat_state_from(j),
        },
        Err(_) => match parse_plain_workspaces(text) {
            Some(state) => state,
            None => State::default(),
        },
    }
}

/// The snapshot after a query for the state: that of the text which the
/// query gave, and no monitor where it gave none.
pub fn read_state(text: Option<&str>) -> (r: State)
    ensures
        r@ == match text {
            Some(text) => state_of_text(text_json(text@), text@),
            None => StateView { monitors: Seq::empty() },
        },
{
    match text {
        Some(text) => {
            let document = Json::parse(text);
            state_from_text(&document, text)
        },
        None => State::default(),
    }
}

/// The arguments of the command that focuses the workspace with the index
/// `workspace_idx`. GlazeWM numbers its workspaces over all monitors, so the
/// monitor plays no part.
pub fn change_workspace(monitor_idx: usize, workspace_idx: usize) -> (r: Vec<String>)
    ensures
        name_views(r@) == focus_args(workspace_idx),
{
    focus_workspace(workspace_idx)
}

} // verus!
