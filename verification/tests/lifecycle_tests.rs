use komorebi_switcher::app::registry::{LiveWindow, WindowView};
use komorebi_switcher::app::App;
use komorebi_switcher::message::{AppMessage, WindowEvent, WindowId};
use komorebi_switcher::options::Options;
use komorebi_switcher::state::{Monitor, Rect, State, Workspace};
use komorebi_switcher::taskbar::Taskbar;
use komorebi_switcher::window_registry_info::{Placement, WindowRegistryInfo};
use komorebi_switcher::windows::resize::ResizeWindowView;
use komorebi_switcher::windows::switcher::{
    ChangeWorkspace, SwitcherAction, SwitcherWindowView,
};

fn workspace(name: &str, index: usize, focused: bool, is_empty: bool) -> Workspace {
    Workspace { name: name.to_string(), index, focused, is_empty }
}

fn monitor(id: &str, index: usize, workspaces: Vec<Workspace>) -> Monitor {
    Monitor {
        name: format!("Display {}", id),
        index,
        id: id.to_string(),
        workspaces,
        rect: Rect { left: 1920 * index as i32, top: 0, right: 1920 * (index as i32 + 1), bottom: 1080 },
    }
}

fn taskbar(index: usize) -> Taskbar {
    Taskbar {
        hwnd: 100 + index as isize,
        rect: Rect {
            left: 1920 * index as i32,
            top: 1040,
            right: 1920 * (index as i32 + 1),
            bottom: 1080,
        },
        primary: index == 0,
    }
}

fn widget(window: u64, host: isize, bar: Taskbar, monitor: Monitor) -> SwitcherWindowView {
    SwitcherWindowView {
        window_id: WindowId(window),
        host,
        taskbar: bar,
        monitor_state: monitor,
        window_info: WindowRegistryInfo::default(),
        options: Options::default(),
        move_resize_menu_id: format!("move-{}", window),
        quit_menu_id: format!("quit-{}", window),
        in_resize: false,
    }
}

fn registry(app: &App) -> Vec<(u64, Option<String>)> {
    app.windows.iter().map(|w| (w.id.0, w.key.clone())).collect()
}

fn make_requested(app: &mut App, taskbars: &Vec<Taskbar>, first_window: u64) {
    let mut next = first_window;
    for request in app.create_switchers(taskbars) {
        let host = 1000 + next as isize;
        assert!(app.insert_switcher(widget(next, host, request.taskbar, request.monitor)));
        next += 1;
    }
}

fn two_monitors() -> State {
    State {
        monitors: vec![
            monitor("M1", 0, vec![workspace("1", 0, true, true), workspace("2", 1, false, true)]),
            monitor("M2", 1, vec![workspace("a", 0, true, false)]),
        ],
    }
}

fn switcher_of(app: &App, window: u64) -> &SwitcherWindowView {
    for w in &app.windows {
        if w.id.0 == window {
            match &w.view {
                WindowView::Switcher(v) => return v,
                WindowView::Resize(_) => panic!("a dialog"),
            }
        }
    }
    panic!("no window {}", window)
}

#[test]
fn a_new_manager_asks_for_one_widget_for_each_monitor() {
    let taskbars = vec![taskbar(0), taskbar(1)];
    let app = App::new(two_monitors(), Options::default());
    assert!(app.is_empty());
    let requests = app.create_switchers(&taskbars);
    assert_eq!(requests.len(), 2);
    assert_eq!(requests[0].monitor.id, "M1");
    assert_eq!(requests[0].taskbar, taskbar(0));
    assert_eq!(requests[1].monitor.id, "M2");
    assert_eq!(requests[1].taskbar, taskbar(1));
}

#[test]
fn no_widget_is_asked_for_twice() {
    let taskbars = vec![taskbar(0), taskbar(1)];
    let mut app = App::new(two_monitors(), Options::default());
    make_requested(&mut app, &taskbars, 1);
    assert!(app.create_switchers(&taskbars).is_empty());
    assert!(app.contains_key_alt("M1"));
    assert!(app.contains_key_alt("M2"));
    assert!(!app.contains_key_alt("M3"));
    assert!(app.contains_key(WindowId(1)));
    assert!(!app.contains_key(WindowId(3)));
}

#[test]
fn monitors_of_one_identity_get_one_widget() {
    let state = State {
        monitors: vec![monitor("M1", 0, vec![]), monitor("M1", 1, vec![]), monitor("M2", 2, vec![])],
    };
    let app = App::new(state, Options::default());
    let requests = app.create_switchers(&vec![taskbar(0)]);
    let ids: Vec<String> = requests.iter().map(|r| r.monitor.id.clone()).collect();
    assert_eq!(ids, vec!["M1", "M2"]);
}

#[test]
fn no_widget_without_a_taskbar() {
    let app = App::new(two_monitors(), Options::default());
    assert!(app.create_switchers(&vec![]).is_empty());
}

#[test]
fn insert_refuses_a_second_widget_for_a_monitor() {
    let mut app = App::new(two_monitors(), Options::default());
    assert!(app.insert_switcher(widget(1, 11, taskbar(0), monitor("M1", 0, vec![]))));
    assert!(!app.insert_switcher(widget(2, 12, taskbar(0), monitor("M1", 0, vec![]))));
    assert!(!app.insert_switcher(widget(1, 13, taskbar(0), monitor("M2", 0, vec![]))));
    assert!(app.insert_switcher(widget(2, 12, taskbar(1), monitor("M2", 1, vec![]))));
    assert_eq!(registry(&app), vec![(1, Some("M1".to_string())), (2, Some("M2".to_string()))]);
    let dialog = ResizeWindowView::new(
        WindowId(1),
        WindowId(2),
        11,
        WindowRegistryInfo::default(),
        "M1".to_string(),
    );
    assert!(!app.insert_resize(dialog));
    let dialog = ResizeWindowView::new(
        WindowId(9),
        WindowId(3),
        11,
        WindowRegistryInfo::default(),
        "M9".to_string(),
    );
    assert!(!app.insert_resize(dialog));
    let dialog = ResizeWindowView::new(
        WindowId(1),
        WindowId(3),
        11,
        WindowRegistryInfo::default(),
        "M1".to_string(),
    );
    assert!(app.insert_resize(dialog));
    assert_eq!(app.windows.len(), 3);
    assert!(!app.insert(LiveWindow {
        id: WindowId(3),
        key: None,
        view: WindowView::Resize(ResizeWindowView::new(
            WindowId(1),
            WindowId(3),
            11,
            WindowRegistryInfo::default(),
            "M1".to_string(),
        )),
    }));
}

#[test]
fn a_snapshot_keeps_the_widgets_of_monitors_that_stay_whatever_their_order() {
    let taskbars = vec![taskbar(0), taskbar(1)];
    let mut app = App::new(two_monitors(), Options::default());
    make_requested(&mut app, &taskbars, 1);
    let before = registry(&app);
    let reordered = State {
        monitors: vec![
            monitor("M2", 0, vec![workspace("a", 0, false, false), workspace("b", 1, true, true)]),
            monitor("M1", 1, vec![workspace("1", 0, true, false)]),
        ],
    };
    let (outcome, actions) = app.user_event(&AppMessage::UpdateState(reordered), &taskbars);
    assert!(outcome.closed.is_empty());
    assert!(outcome.switchers.is_empty());
    assert!(outcome.resize.is_none());
    assert_eq!(registry(&app), before);
    assert_eq!(actions.len(), 2);
    let first = switcher_of(&app, 1);
    assert_eq!(first.host, 1001);
    assert_eq!(first.monitor_state.id, "M1");
    assert_eq!(first.monitor_state.index, 1);
    assert_eq!(first.monitor_state.workspaces.len(), 1);
    let second = switcher_of(&app, 2);
    assert_eq!(second.host, 1002);
    assert_eq!(second.monitor_state.id, "M2");
    assert_eq!(second.monitor_state.index, 0);
    assert_eq!(second.monitor_state.workspaces.len(), 2);
    assert!(second.monitor_state.workspaces[1].focused);
}

#[test]
fn a_snapshot_closes_the_widgets_of_monitors_that_are_gone() {
    let taskbars = vec![taskbar(0), taskbar(1)];
    let mut app = App::new(two_monitors(), Options::default());
    make_requested(&mut app, &taskbars, 1);
    let one = State { monitors: vec![monitor("M2", 0, vec![workspace("a", 0, true, false)])] };
    let (outcome, actions) = app.user_event(&AppMessage::UpdateState(one), &taskbars);
    assert_eq!(outcome.closed, vec![WindowId(1)]);
    assert!(outcome.switchers.is_empty());
    assert_eq!(registry(&app), vec![(2, Some("M2".to_string()))]);
    assert!(!app.contains_key(WindowId(1)));
    assert!(!app.contains_key_alt("M1"));
    assert_eq!(actions.len(), 1);
    assert_eq!(actions[0].window, WindowId(2));
    let kept = switcher_of(&app, 2);
    assert_eq!(kept.host, 1002);
    assert_eq!(kept.window_info, WindowRegistryInfo::default());
    assert_eq!(app.state.monitors.len(), 1);
}

#[test]
fn a_snapshot_closes_the_dialog_of_a_widget_that_it_closes() {
    let taskbars = vec![taskbar(0), taskbar(1)];
    let mut app = App::new(two_monitors(), Options::default());
    make_requested(&mut app, &taskbars, 1);
    for (target, own) in [(1, 7), (2, 8)] {
        assert!(app.insert_resize(ResizeWindowView::new(
            WindowId(target),
            WindowId(own),
            1000 + target as isize,
            WindowRegistryInfo::default(),
            format!("M{}", target),
        )));
    }
    let one = State { monitors: vec![monitor("M2", 0, vec![])] };
    let (outcome, _) = app.user_event(&AppMessage::UpdateState(one), &taskbars);
    assert_eq!(outcome.closed, vec![WindowId(1), WindowId(7)]);
    assert_eq!(registry(&app), vec![(2, Some("M2".to_string())), (8, None)]);
}

#[test]
fn a_snapshot_asks_for_the_widgets_of_new_monitors() {
    let taskbars = vec![taskbar(0), taskbar(1)];
    let one = State { monitors: vec![monitor("M1", 0, vec![])] };
    let mut app = App::new(one, Options::default());
    make_requested(&mut app, &taskbars, 1);
    let (outcome, _) = app.user_event(&AppMessage::UpdateState(two_monitors()), &taskbars);
    assert!(outcome.closed.is_empty());
    assert_eq!(outcome.switchers.len(), 1);
    assert_eq!(outcome.switchers[0].monitor.id, "M2");
    assert_eq!(outcome.switchers[0].taskbar, taskbar(1));
    assert_eq!(registry(&app), vec![(1, Some("M1".to_string()))]);
    let (again, _) = app.user_event(&AppMessage::UpdateState(two_monitors()), &taskbars);
    assert_eq!(again.switchers.len(), 1);
    assert_eq!(again.switchers[0].monitor.id, "M2");
}

#[test]
fn from_two_monitors_to_one() {
    let taskbars = vec![taskbar(0), taskbar(1)];
    let mut app = App::new(two_monitors(), Options::default());
    make_requested(&mut app, &taskbars, 1);
    assert_eq!(app.windows.len(), 2);
    let kept_before = format!("{:?}", switcher_of(&app, 1).window_info);
    let one = State {
        monitors: vec![monitor(
            "M1",
            0,
            vec![workspace("1", 0, true, true), workspace("2", 1, false, true)],
        )],
    };
    let (outcome, actions) = app.user_event(&AppMessage::UpdateState(one), &taskbars);
    assert_eq!(outcome.closed, vec![WindowId(2)]);
    assert!(outcome.switchers.is_empty());
    assert!(outcome.resize.is_none());
    assert_eq!(registry(&app), vec![(1, Some("M1".to_string()))]);
    let kept = switcher_of(&app, 1);
    assert_eq!(kept.window_id, WindowId(1));
    assert_eq!(kept.host, 1001);
    assert_eq!(kept.taskbar, taskbar(0));
    assert_eq!(format!("{:?}", kept.window_info), kept_before);
    assert!(!kept.in_resize);
    assert_eq!(actions.len(), 1);
    assert!(matches!(actions[0].action, SwitcherAction::Nothing));
}

#[test]
fn one_monitor_two_workspaces_click_and_next_snapshot() {
    let taskbars = vec![taskbar(0)];
    let initial = State {
        monitors: vec![monitor(
            "M1",
            0,
            vec![workspace("1", 0, true, true), workspace("2", 1, false, true)],
        )],
    };
    let options =
        Options { hide_empty_workspaces: false, hide_if_offline: false, enable_scroll_switching: true };
    let mut app = App::new(initial, options);
    for request in app.create_switchers(&taskbars) {
        let mut view = widget(1, 55, request.taskbar, request.monitor);
        view.options = options;
        assert!(app.insert_switcher(view));
    }
    {
        let view = switcher_of(&app, 1);
        assert_eq!(view.visible_workspaces(), vec![0, 1]);
        assert!(view.monitor_state.workspaces[0].focused);
        assert!(!view.monitor_state.workspaces[1].focused);
        assert!(!view.shows_offline());
        assert_eq!(view.click(1), Some(ChangeWorkspace { monitor_idx: 0, workspace_idx: 1 }));
    }
    let next = State {
        monitors: vec![monitor(
            "M1",
            0,
            vec![workspace("1", 0, false, false), workspace("2", 1, true, true)],
        )],
    };
    let (outcome, actions) = app.user_event(&AppMessage::UpdateState(next), &taskbars);
    assert!(outcome.closed.is_empty());
    assert!(outcome.switchers.is_empty());
    assert_eq!(registry(&app), vec![(1, Some("M1".to_string()))]);
    assert_eq!(actions.len(), 1);
    let view = switcher_of(&app, 1);
    assert_eq!(view.host, 55);
    assert!(!view.monitor_state.workspaces[0].focused);
    assert!(!view.monitor_state.workspaces[0].is_empty);
    assert!(view.monitor_state.workspaces[1].focused);
    assert_eq!(view.visible_workspaces(), vec![0, 1]);
}

#[test]
fn close_window_takes_the_window_and_its_dialog_out() {
    let taskbars = vec![taskbar(0), taskbar(1)];
    let mut app = App::new(two_monitors(), Options::default());
    make_requested(&mut app, &taskbars, 1);
    assert!(app.insert_resize(ResizeWindowView::new(
        WindowId(2),
        WindowId(5),
        1002,
        WindowRegistryInfo::default(),
        "M2".to_string(),
    )));
    let (outcome, _) = app.user_event(&AppMessage::CloseWindow(WindowId(5)), &taskbars);
    assert_eq!(outcome.closed, vec![WindowId(5)]);
    assert_eq!(app.windows.len(), 2);
    let (outcome, _) = app.user_event(&AppMessage::CloseWindow(WindowId(5)), &taskbars);
    assert!(outcome.closed.is_empty());
    assert!(app.insert_resize(ResizeWindowView::new(
        WindowId(2),
        WindowId(6),
        1002,
        WindowRegistryInfo::default(),
        "M2".to_string(),
    )));
    let (outcome, actions) = app.user_event(&AppMessage::CloseWindow(WindowId(2)), &taskbars);
    assert_eq!(outcome.closed, vec![WindowId(2), WindowId(6)]);
    assert_eq!(registry(&app), vec![(1, Some("M1".to_string()))]);
    assert_eq!(actions.len(), 1);
    assert_eq!(app.remove(WindowId(1)), vec![WindowId(1)]);
    assert!(app.is_empty());
}

#[test]
fn a_request_for_the_dialog_of_a_window_that_is_gone_is_dropped() {
    let taskbars = vec![taskbar(0)];
    let mut app = App::new(two_monitors(), Options::default());
    assert!(app.insert_switcher(widget(1, 11, taskbar(0), monitor("M1", 0, vec![]))));
    let info =
        WindowRegistryInfo { x: 1, y: 2, width: 3, height: 4, auto_width: false, auto_height: false };
    let live = AppMessage::CreateResizeWindow {
        host: 11,
        info,
        subkey: "M1".to_string(),
        window_id: WindowId(1),
    };
    let (outcome, _) = app.user_event(&live, &taskbars);
    let request = outcome.resize.unwrap();
    assert_eq!(request.window_id, WindowId(1));
    assert_eq!(request.host, 11);
    assert_eq!(request.info, info);
    assert_eq!(request.subkey, "M1");
    let gone = AppMessage::CreateResizeWindow {
        host: 12,
        info,
        subkey: "M2".to_string(),
        window_id: WindowId(2),
    };
    let (outcome, _) = app.user_event(&gone, &taskbars);
    assert!(outcome.resize.is_none());
    assert!(outcome.closed.is_empty());
}

#[test]
fn window_events_close_windows() {
    let taskbars = vec![taskbar(0), taskbar(1)];
    let mut app = App::new(two_monitors(), Options::default());
    make_requested(&mut app, &taskbars, 1);
    let outcome = app.window_event(WindowId(1), WindowEvent::Other, 0, 0);
    assert!(outcome.deliver && !outcome.exit && outcome.closed.is_empty());
    let outcome = app.window_event(WindowId(9), WindowEvent::Other, 0, 0);
    assert!(!outcome.deliver);
    let outcome = app.window_event(WindowId(1), WindowEvent::Destroyed, 0, 0);
    assert_eq!(outcome.closed, vec![WindowId(1)]);
    assert!(!outcome.exit && !outcome.deliver && outcome.rollback.is_none());
    let outcome = app.window_event(WindowId(1), WindowEvent::Destroyed, 0, 0);
    assert!(outcome.closed.is_empty());
    let outcome = app.window_event(WindowId(2), WindowEvent::CloseRequested, 0, 0);
    assert_eq!(outcome.closed, vec![WindowId(2)]);
    assert!(outcome.exit);
    assert!(outcome.rollback.is_none());
    assert!(app.is_empty());
}

#[test]
fn destroying_the_last_window_does_not_end_the_loop() {
    let mut app = App::new(State::default(), Options::default());
    assert!(app.insert_switcher(widget(1, 11, taskbar(0), monitor("M1", 0, vec![]))));
    let outcome = app.window_event(WindowId(1), WindowEvent::Destroyed, 0, 0);
    assert!(!outcome.exit);
    assert!(app.is_empty());
}

#[test]
fn closing_a_dialog_puts_the_host_back() {
    let mut app = App::new(two_monitors(), Options::default());
    assert!(app.insert_switcher(widget(1, 11, taskbar(0), monitor("M1", 0, vec![]))));
    let entry =
        WindowRegistryInfo { x: 9, y: 8, width: 70, height: 60, auto_width: false, auto_height: true };
    let mut dialog = ResizeWindowView::new(WindowId(1), WindowId(4), 11, entry, "M1".to_string());
    dialog.info.x = 500;
    dialog.info.width = 1;
    assert!(app.insert_resize(dialog));
    let taskbars = vec![taskbar(0)];
    let start = AppMessage::StartMoveResize("M1".to_string());
    let (_, actions) = app.user_event(&start, &taskbars);
    assert!(matches!(actions[0].action, SwitcherAction::StartResize(_)));
    assert!(switcher_of(&app, 1).in_resize);
    let outcome = app.window_event(WindowId(4), WindowEvent::CloseRequested, 123, 45);
    let rollback = outcome.rollback.unwrap();
    assert_eq!(rollback.host, 11);
    assert_eq!(rollback.placement, Placement { x: 9, y: 8, width: 70, height: 45 });
    assert!(matches!(rollback.close, AppMessage::CloseWindow(WindowId(4))));
    assert_eq!(outcome.closed, vec![WindowId(4)]);
    assert!(!outcome.exit);
    assert_eq!(registry(&app), vec![(1, Some("M1".to_string())), ]);
    let (_, actions) = app.user_event(&rollback.notify, &taskbars);
    assert!(matches!(actions[0].action, SwitcherAction::EndResize));
    let widget = switcher_of(&app, 1);
    assert!(!widget.in_resize);
    assert_eq!(
        widget.window_info,
        WindowRegistryInfo { x: 9, y: 8, width: 70, height: 45, auto_width: false, auto_height: true }
    );
    let (outcome, _) = app.user_event(&rollback.close, &taskbars);
    assert!(outcome.closed.is_empty());
}

fn items(app: &App) -> Vec<(String, String)> {
    app.switcher_items().into_iter().map(|i| (i.id, i.label)).collect()
}

#[test]
fn items_of_the_widgets() {
    let taskbars = vec![taskbar(0), taskbar(1)];
    let mut app = App::new(two_monitors(), Options::default());
    assert!(app.switcher_items().is_empty());
    assert!(app.insert_switcher(widget(1, 11, taskbar(1), monitor("M2", 1, vec![]))));
    assert_eq!(items(&app), vec![("M2".to_string(), "Display M2-M2".to_string())]);
    make_requested(&mut app, &taskbars, 2);
    assert_eq!(
        items(&app),
        vec![
            ("M1".to_string(), "Display M1-M1".to_string()),
            ("M2".to_string(), "Display M2-M2".to_string()),
        ]
    );
}

#[test]
fn orphaned_windows_are_the_widgets_without_a_monitor() {
    let taskbars = vec![taskbar(0), taskbar(1)];
    let mut app = App::new(two_monitors(), Options::default());
    make_requested(&mut app, &taskbars, 1);
    assert!(app.orphaned_windows(&two_monitors()).is_empty());
    assert_eq!(app.orphaned_windows(&State::default()), vec![WindowId(1), WindowId(2)]);
    let one = State { monitors: vec![monitor("M1", 5, vec![])] };
    assert_eq!(app.orphaned_windows(&one), vec![WindowId(2)]);
    assert_eq!(app.find_window(WindowId(2)), Some(1));
    assert_eq!(app.find_window(WindowId(3)), None);
}
