//! The taskbars of the desktop, and which one a monitor's widget goes into.

use vstd::prelude::*;
use vstd::string::*;
use crate::state::{RECTExt, Rect};
use crate::text::str_eq;

verus! {

/// The class of the window of the primary taskbar.
pub const TASKBAR_CLASS_NAME: &'static str = "Shell_TrayWnd";

/// The class of the windows of the other taskbars.
pub const TASKBAR_SECONDARY_CLASS_NAME: &'static str = "Shell_SecondaryTrayWnd";

/// One taskbar: the handle of its window, where it stands, and whether it is
/// the primary one.
#[derive(Clone, Copy, Debug, PartialEq, Eq, Structural)]
pub struct Taskbar {
    pub hwnd: isize,
    pub rect: Rect,
    pub primary: bool,
}

/// One window of the desktop, as far as taskbars are told from it: its
/// handle, its class, and where it stands, if that could be read.
#[derive(Debug)]
pub struct TopLevelWindow {
    pub hwnd: isize,
    pub class_name: String,
    pub rect: Option<Rect>,
}

/// Whether a window of this class is a taskbar.
pub open spec fn taskbar_class(class_name: Seq<char>) -> bool {
    class_name == TASKBAR_CLASS_NAME@ || class_name == TASKBAR_SECONDARY_CLASS_NAME@
}

/// The taskbar that a window is: one of a taskbar's class whose place could
/// be read.
pub open spec fn taskbar_of(window: TopLevelWindow) -> Option<Taskbar> {
    match window.rect {
        Some(rect) => if taskbar_class(window.class_name@) {
            Some(
                Taskbar {
                    hwnd: window.hwnd,
                    rect,
                    primary: window.class_name@ == TASKBAR_CLASS_NAME@,
                },
            )
        } else {
            None
        },
        None => None,
    }
}

/// The taskbars among the first `n` of `windows`, in their order.
pub open spec fn taskbars_among(windows: Seq<TopLevelWindow>, n: int) -> Seq<Taskbar>
    decreases n,
{
    if n <= 0 || n > windows.len() {
        Seq::empty()
    } else {
        match taskbar_of(windows[n - 1]) {
            Some(taskbar) => taskbars_among(windows, n - 1).push(taskbar),
            None => taskbars_among(windows, n - 1),
        }
    }
}

/// Whether a window of this class is a taskbar.
pub fn is_taskbar(class_name: &str) -> (r: bool)
    ensures
        r == taskbar_class(class_name@),
{
    str_eq(class_name, TASKBAR_CLASS_NAME) || str_eq(class_name, TASKBAR_SECONDARY_CLASS_NAME)
}

/// The taskbars among the windows of the desktop, in their order.
pub fn all(windows: &Vec<TopLevelWindow>) -> (r: Vec<Taskbar>)
    ensures
        r@ == taskbars_among(windows@, windows@.len() as int),
{
    let mut out: Vec<Taskbar> = Vec::new();
    let n: usize = windows.len();
    let mut i: usize = 0;
    while i < n
        invariant
            0 <= i <= n,
            n == windows@.len(),
            out@ == taskbars_among(windows@, i as int),
        decreases n - i,
    {
        let window = &windows[i];
        if is_taskbar(window.class_name.as_str()) {
            match window.rect {
                Some(rect) => {
                    let primary = str_eq(window.class_name.as_str(), TASKBAR_CLASS_NAME);
                    out.push(Taskbar { hwnd: window.hwnd, rect, primary });
                },
                None => {},
            }
        }
        i = i + 1;
    }
    out
}

/// The first place at or after `from` whose taskbar starts within `rect`.
pub open spec fn first_within(taskbars: Seq<Taskbar>, rect: Rect, from: int) -> Option<int>
    decreases taskbars.len() - from,
{
    if from < 0 || from >= taskbars.len() {
        None
    } else if rect.spec_contains(&taskbars[from].rect) {
        Some(from)
    } else {
        first_within(taskbars, rect, from + 1)
    }
}

/// The first place at or after `from` that holds the primary taskbar.
pub open spec fn first_primary(taskbars: Seq<Taskbar>, from: int) -> Option<int>
    decreases taskbars.len() - from,
{
    if from < 0 || from >= taskbars.len() {
        None
    } else if taskbars[from].primary {
        Some(from)
    } else {
        first_primary(taskbars, from + 1)
    }
}

/// The place of the taskbar for a monitor: the first taskbar that starts
/// within the monitor's rectangle; else the one at the monitor's index; else
/// the primary one; else the first; `None` where there is no taskbar.
pub open spec fn selected_taskbar(taskbars: Seq<Taskbar>, rect: Rect, index: usize) -> Option<int> {
    match first_within(taskbars, rect, 0) {
        Some(i) => Some(i),
        None => if index < taskbars.len() {
            Some(index as int)
        } else {
            match first_primary(taskbars, 0) {
                Some(i) => Some(i),
                None => if taskbars.len() > 0 {
                    Some(0)
                } else {
                    None
                },
            }
        },
    }
}

/// The place of the taskbar for the monitor with the rectangle `rect` at the
/// position `index`.
pub fn select_taskbar(taskbars: &Vec<Taskbar>, rect: Rect, index: usize) -> (r: Option<usize>)
    ensures
        match r {
            Some(i) => selected_taskbar(taskbars@, rect, index) == Some(i as int) && i
                < taskbars@.len(),
            None => selected_taskbar(taskbars@, rect, index) is None,
        },
{
    let n: usize = taskbars.len();
    let mut i: usize = 0;
    while i < n
        invariant
            0 <= i <= n,
            n == taskbars@.len(),
            first_within(taskbars@, rect, 0) == first_within(taskbars@, rect, i as int),
        decreases n - i,
    {
        if rect.contains(&taskbars[i].rect) {
            return Some(i);
        }
        i = i + 1;
    }
    if index < n {
        return Some(index);
    }
    let mut j: usize = 0;
    while j < n
        invariant
            0 <= j <= n,
            n == taskbars@.len(),
            first_within(taskbars@, rect, 0) is None,
            index >= n,
            first_primary(taskbars@, 0) == first_primary(taskbars@, j as int),
        decreases n - j,
    {
        if taskbars[j].primary {
            return Some(j);
        }
        j = j + 1;
    }
    if n > 0 {
        Some(0)
    } else {
        None
    }
}

} // verus!
