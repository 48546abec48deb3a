//! The switches that the widgets honour, as the environment sets them.

use vstd::prelude::*;
use vstd::string::*;
use crate::text::str_eq;

verus! {

/// The variable that sets `hide_empty_workspaces`.
pub const HIDE_EMPTY_WORKSPACES_VAR: &'static str = "SWITCHER_HIDE_EMPTY_WORKSPACES";

/// The variable that sets `hide_if_offline`.
pub const HIDE_IF_OFFLINE_VAR: &'static str = "SWITCHER_HIDE_IF_OFFLINE";

/// The variable that sets `enable_scroll_switching`.
pub const ENABLE_SCROLL_SWITCHING_VAR: &'static str = "SWITCHER_ENABLE_SCROLL_SWITCHING";

/// The switches a widget honours.
#[derive(Clone, Copy, Debug, PartialEq, Eq, Structural)]
pub struct Options {
    /// Suppress the indicators of workspaces that are empty and not focused.
    pub hide_empty_workspaces: bool,
    /// Suppress the "offline" placeholder when no indicator is shown.
    pub hide_if_offline: bool,
    /// Let the scroll wheel switch workspaces.
    pub enable_scroll_switching: bool,
}

/// The switches where the environment sets none.
pub open spec fn default_options() -> Options {
    Options { hide_empty_workspaces: true, hide_if_offline: false, enable_scroll_switching: true }
}

impl Default for Options {
    fn default() -> (opts: Options)
        ensures
            opts == default_options(),
    {
        Options { hide_empty_workspaces: true, hide_if_offline: false, enable_scroll_switching: true }
    }
}

/// Whether a value switches on: `1`, `true` and `yes` do, nothing else.
pub open spec fn truthy(val: Seq<char>) -> bool {
    val == "1"@ || val == "true"@ || val == "yes"@
}

/// A switch as the environment sets it: on or off by the value of its
/// variable, `default` where the variable is not set.
pub open spec fn switch_of(val: Option<&str>, default: bool) -> bool {
    match val {
        Some(val) => truthy(val@),
        None => default,
    }
}

/// Whether a value switches on.
pub fn is_truthy(val: &str) -> (r: bool)
    ensures
        r == truthy(val@),
{
    str_eq(val, "1") || str_eq(val, "true") || str_eq(val, "yes")
}

fn switch_from(val: Option<&str>, default: bool) -> (r: bool)
    ensures
        r == switch_of(val, default),
{
    match val {
        Some(val) => is_truthy(val),
        None => default,
    }
}

impl Options {
    /// The switches as the environment sets them: the arguments are the
    /// values of the three variables, `None` for one that is not set.
    pub fn from_env(
        hide_empty_workspaces: Option<&str>,
        hide_if_offline: Option<&str>,
        enable_scroll_switching: Option<&str>,
    ) -> (opts: Options)
        ensures
            opts == (Options {
                hide_empty_workspaces: switch_of(
                    hide_empty_workspaces,
                    default_options().hide_empty_workspaces,
                ),
                hide_if_offline: switch_of(hide_if_offline, default_options().hide_if_offline),
                enable_scroll_switching: switch_of(
                    enable_scroll_switching,
                    default_options().enable_scroll_switching,
                ),
            }),
    {
        let defaults = Options::default();
        Options {
            hide_empty_workspaces: switch_from(
                hide_empty_workspaces,
                defaults.hide_empty_workspaces,
            ),
            hide_if_offline: switch_from(hide_if_offline, defaults.hide_if_offline),
            enable_scroll_switching: switch_from(
                enable_scroll_switching,
                defaults.enable_scroll_switching,
            ),
        }
    }
}

} // verus!
