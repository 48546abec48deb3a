use komorebi_switcher::state::{RECTExt, Rect};
use komorebi_switcher::taskbar::{
    all, is_taskbar, select_taskbar, Taskbar, TopLevelWindow, TASKBAR_CLASS_NAME,
    TASKBAR_SECONDARY_CLASS_NAME,
};

fn rect(left: i32, top: i32) -> Rect {
    Rect { left, top, right: left + 100, bottom: top + 40 }
}

fn bar(hwnd: isize, left: i32, top: i32, primary: bool) -> Taskbar {
    Taskbar { hwnd, rect: rect(left, top), primary }
}

#[test]
fn classes_of_taskbars() {
    assert_eq!(TASKBAR_CLASS_NAME, "Shell_TrayWnd");
    assert_eq!(TASKBAR_SECONDARY_CLASS_NAME, "Shell_SecondaryTrayWnd");
    assert!(is_taskbar("Shell_TrayWnd"));
    assert!(is_taskbar("Shell_SecondaryTrayWnd"));
    assert!(!is_taskbar("shell_traywnd"));
    assert!(!is_taskbar("Shell_TrayWnd "));
    assert!(!is_taskbar(""));
}

#[test]
fn contains_looks_at_the_left_and_top_edges() {
    let outer = Rect { left: 0, top: 0, right: 10, bottom: 10 };
    assert!(outer.contains(&Rect { left: 0, top: 0, right: 99, bottom: 99 }));
    assert!(outer.contains(&Rect { left: 5, top: 1000, right: 6, bottom: 1001 }));
    assert!(!outer.contains(&Rect { left: -1, top: 0, right: 1, bottom: 1 }));
    assert!(!outer.contains(&Rect { left: 0, top: -1, right: 1, bottom: 1 }));
    assert_eq!(Rect::default(), Rect { left: 0, top: 0, right: 0, bottom: 0 });
}

#[test]
fn all_keeps_the_taskbars_whose_place_is_known() {
    let windows = vec![
        TopLevelWindow { hwnd: 1, class_name: "Chrome".to_string(), rect: Some(rect(0, 0)) },
        TopLevelWindow {
            hwnd: 2,
            class_name: "Shell_SecondaryTrayWnd".to_string(),
            rect: Some(rect(1920, 1040)),
        },
        TopLevelWindow { hwnd: 3, class_name: "Shell_TrayWnd".to_string(), rect: None },
        TopLevelWindow { hwnd: 4, class_name: "Shell_TrayWnd".to_string(), rect: Some(rect(0, 1040)) },
    ];
    assert_eq!(all(&windows), vec![bar(2, 1920, 1040, false), bar(4, 0, 1040, true)]);
    assert_eq!(all(&vec![]), vec![]);
}

#[test]
fn select_takes_the_first_taskbar_within_the_monitor() {
    let taskbars = vec![bar(1, 0, 1040, true), bar(2, 1920, 1040, false), bar(3, 3840, 1040, false)];
    let monitor = Rect { left: 1920, top: 0, right: 3840, bottom: 1080 };
    assert_eq!(select_taskbar(&taskbars, monitor, 0), Some(1));
    let monitor = Rect { left: 0, top: 0, right: 1920, bottom: 1080 };
    assert_eq!(select_taskbar(&taskbars, monitor, 2), Some(0));
}

#[test]
fn select_falls_back_to_the_index_then_the_primary_then_the_first() {
    let taskbars = vec![bar(1, 0, 0, false), bar(2, 10, 0, true), bar(3, 20, 0, true)];
    let far = Rect { left: 5000, top: 5000, right: 6000, bottom: 6000 };
    assert_eq!(select_taskbar(&taskbars, far, 0), Some(0));
    assert_eq!(select_taskbar(&taskbars, far, 2), Some(2));
    assert_eq!(select_taskbar(&taskbars, far, 3), Some(1));
    let none_primary = vec![bar(1, 0, 0, false), bar(2, 10, 0, false)];
    assert_eq!(select_taskbar(&none_primary, far, 7), Some(0));
    assert_eq!(select_taskbar(&vec![], far, 0), None);
    assert_eq!(select_taskbar(&vec![], Rect::default(), 0), None);
}

#[test]
fn select_maps_monitors_without_a_rectangle_by_index() {
    let taskbars = vec![bar(1, -1920, 0, true), bar(2, -10, -5, false)];
    let empty = Rect::default();
    assert_eq!(select_taskbar(&taskbars, empty, 0), Some(0));
    assert_eq!(select_taskbar(&taskbars, empty, 1), Some(1));
    let taskbars = vec![bar(1, 0, 1040, true), bar(2, 1920, 1040, false)];
    assert_eq!(select_taskbar(&taskbars, empty, 1), Some(0));
}
