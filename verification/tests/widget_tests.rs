use komorebi_switcher::message::{AppMessage, WindowEvent, WindowId};
use komorebi_switcher::options::Options;
use komorebi_switcher::state::{Monitor, Rect, State, Workspace};
use komorebi_switcher::taskbar::Taskbar;
use komorebi_switcher::window_registry_info::{Placement, WindowRegistryInfo};
use komorebi_switcher::windows::resize::ResizeWindowView;
use komorebi_switcher::windows::switcher::{
    find_monitor, is_taskbar_on_top, ChangeWorkspace, Scroll, SwitcherAction, SwitcherWindowView,
};

fn workspace(name: &str, index: usize, focused: bool, is_empty: bool) -> Workspace {
    Workspace { name: name.to_string(), index, focused, is_empty }
}

fn widget(workspaces: Vec<Workspace>, options: Options) -> SwitcherWindowView {
    SwitcherWindowView {
        window_id: WindowId(7),
        host: 70,
        taskbar: Taskbar { hwnd: 1, rect: Rect::default(), primary: true },
        monitor_state: Monitor {
            name: "Main".to_string(),
            index: 3,
            id: "MON".to_string(),
            workspaces,
            rect: Rect::default(),
        },
        window_info: WindowRegistryInfo {
            x: 5,
            y: 0,
            width: 200,
            height: 40,
            auto_width: true,
            auto_height: true,
        },
        options,
        move_resize_menu_id: "1001".to_string(),
        quit_menu_id: "1002".to_string(),
        in_resize: false,
    }
}

fn numbered(count: usize, focused: Option<usize>) -> Vec<Workspace> {
    (0..count).map(|i| workspace(&format!("{}", i + 1), 10 + i, focused == Some(i), false)).collect()
}

#[test]
fn scroll_previous_from_the_first_goes_to_the_last() {
    for n in 1..6 {
        let view = widget(numbered(n, Some(0)), Options::default());
        assert_eq!(
            view.scroll(Scroll::Previous),
            Some(ChangeWorkspace { monitor_idx: 3, workspace_idx: n - 1 })
        );
    }
}

#[test]
fn scroll_next_from_the_last_goes_to_the_first() {
    for n in 1..6 {
        let view = widget(numbered(n, Some(n - 1)), Options::default());
        assert_eq!(
            view.scroll(Scroll::Next),
            Some(ChangeWorkspace { monitor_idx: 3, workspace_idx: 0 })
        );
    }
}

#[test]
fn scroll_moves_by_one_in_between() {
    let view = widget(numbered(5, Some(2)), Options::default());
    assert_eq!(
        view.scroll(Scroll::Previous),
        Some(ChangeWorkspace { monitor_idx: 3, workspace_idx: 1 })
    );
    assert_eq!(view.scroll(Scroll::Next), Some(ChangeWorkspace { monitor_idx: 3, workspace_idx: 3 }));
}

#[test]
fn scroll_counts_from_zero_where_nothing_has_the_focus() {
    let view = widget(numbered(4, None), Options::default());
    assert_eq!(
        view.scroll(Scroll::Previous),
        Some(ChangeWorkspace { monitor_idx: 3, workspace_idx: 3 })
    );
    assert_eq!(view.scroll(Scroll::Next), Some(ChangeWorkspace { monitor_idx: 3, workspace_idx: 1 }));
}

#[test]
fn scroll_counts_from_the_first_focused_workspace() {
    let mut workspaces = numbered(4, Some(1));
    workspaces[3].focused = true;
    let view = widget(workspaces, Options::default());
    assert_eq!(view.scroll(Scroll::Next), Some(ChangeWorkspace { monitor_idx: 3, workspace_idx: 2 }));
}

#[test]
fn scroll_does_nothing_when_switched_off_or_without_workspaces() {
    let off = Options { enable_scroll_switching: false, ..Options::default() };
    assert_eq!(widget(numbered(3, Some(0)), off).scroll(Scroll::Next), None);
    assert_eq!(widget(vec![], Options::default()).scroll(Scroll::Next), None);
    assert_eq!(widget(vec![], Options::default()).scroll(Scroll::Previous), None);
}

#[test]
fn the_wheel_turned_up_goes_to_the_previous_workspace() {
    assert_eq!(Scroll::from_wheel(true), Scroll::Previous);
    assert_eq!(Scroll::from_wheel(false), Scroll::Next);
}

#[test]
fn click_names_the_monitor_and_the_workspace() {
    let view = widget(numbered(3, Some(0)), Options::default());
    assert_eq!(view.click(0), Some(ChangeWorkspace { monitor_idx: 3, workspace_idx: 10 }));
    assert_eq!(view.click(2), Some(ChangeWorkspace { monitor_idx: 3, workspace_idx: 12 }));
    assert_eq!(view.click(3), None);
}

#[test]
fn empty_workspaces_are_hidden_unless_focused() {
    let workspaces = vec![
        workspace("1", 0, false, true),
        workspace("2", 1, true, true),
        workspace("3", 2, false, false),
        workspace("4", 3, false, true),
    ];
    let hide = Options { hide_empty_workspaces: true, ..Options::default() };
    assert_eq!(widget(workspaces, hide).visible_workspaces(), vec![1, 2]);
    let workspaces = vec![workspace("1", 0, false, true), workspace("2", 1, false, false)];
    let show = Options { hide_empty_workspaces: false, ..Options::default() };
    assert_eq!(widget(workspaces, show).visible_workspaces(), vec![0, 1]);
}

#[test]
fn the_offline_placeholder_shows_where_no_indicator_does() {
    let shown = Options { hide_empty_workspaces: true, hide_if_offline: false, ..Options::default() };
    let hidden = Options { hide_empty_workspaces: true, hide_if_offline: true, ..Options::default() };
    assert!(widget(vec![], shown).shows_offline());
    assert!(!widget(vec![], hidden).shows_offline());
    assert!(widget(vec![workspace("1", 0, false, true)], shown).shows_offline());
    assert!(!widget(vec![workspace("1", 0, true, true)], shown).shows_offline());
    assert!(!widget(vec![workspace("1", 0, false, false)], shown).shows_offline());
}

#[test]
fn a_snapshot_gives_the_widget_its_monitor_by_identity() {
    let mut view = widget(numbered(2, Some(0)), Options::default());
    let state = State {
        monitors: vec![
            Monitor {
                name: "Other".to_string(),
                index: 0,
                id: "OTHER".to_string(),
                workspaces: numbered(4, None),
                rect: Rect::default(),
            },
            Monitor {
                name: "Main".to_string(),
                index: 1,
                id: "MON".to_string(),
                workspaces: numbered(3, Some(2)),
                rect: Rect { left: 1, top: 2, right: 3, bottom: 4 },
            },
        ],
    };
    assert!(find_monitor(&state.monitors, "MON").is_some());
    assert!(find_monitor(&state.monitors, "mon").is_none());
    let action = view.handle_app_message(&AppMessage::UpdateState(state));
    assert!(matches!(action, SwitcherAction::Nothing));
    assert_eq!(view.monitor_state.index, 1);
    assert_eq!(view.monitor_state.workspaces.len(), 3);
    assert!(view.monitor_state.workspaces[2].focused);
    assert_eq!(view.window_id, WindowId(7));
    assert_eq!(view.host, 70);
    let action = view.handle_app_message(&AppMessage::UpdateState(State::default()));
    assert!(matches!(action, SwitcherAction::Nothing));
    assert_eq!(view.monitor_state.id, "");
    assert!(view.monitor_state.workspaces.is_empty());
}

#[test]
fn the_menu_starts_the_dialog_or_closes_the_host() {
    let mut view = widget(numbered(1, Some(0)), Options::default());
    let action = view.handle_app_message(&AppMessage::MenuEvent("1001".to_string()));
    match action {
        SwitcherAction::StartResize(AppMessage::CreateResizeWindow {
            host,
            info,
            subkey,
            window_id,
        }) => {
            assert_eq!(host, 70);
            assert_eq!(info, view.window_info);
            assert_eq!(subkey, "MON");
            assert_eq!(window_id, WindowId(7));
        }
        other => panic!("{:?}", other),
    }
    assert!(view.in_resize);
    let mut view = widget(numbered(1, Some(0)), Options::default());
    assert!(matches!(
        view.handle_app_message(&AppMessage::MenuEvent("1002".to_string())),
        SwitcherAction::CloseHost
    ));
    assert!(matches!(
        view.handle_app_message(&AppMessage::MenuEvent("1003".to_string())),
        SwitcherAction::Nothing
    ));
    assert!(!view.in_resize);
    assert!(matches!(
        view.handle_app_message(&AppMessage::StartMoveResize("OTHER".to_string())),
        SwitcherAction::Nothing
    ));
    assert!(matches!(
        view.handle_app_message(&AppMessage::StartMoveResize("MON".to_string())),
        SwitcherAction::StartResize(_)
    ));
    assert!(view.in_resize);
}

#[test]
fn other_messages() {
    let mut view = widget(numbered(1, Some(0)), Options::default());
    assert!(matches!(
        view.handle_app_message(&AppMessage::SystemSettingsChanged),
        SwitcherAction::RefreshColors
    ));
    assert!(matches!(view.handle_app_message(&AppMessage::DpiChanged), SwitcherAction::RefreshScale));
    assert!(matches!(
        view.handle_app_message(&AppMessage::CloseWindow(WindowId(7))),
        SwitcherAction::Nothing
    ));
    let info =
        WindowRegistryInfo { x: 1, y: 1, width: 1, height: 1, auto_width: false, auto_height: false };
    let before = view.window_info;
    assert!(matches!(
        view.handle_app_message(&AppMessage::NotifyWindowInfoChanges(WindowId(8), info)),
        SwitcherAction::Nothing
    ));
    assert_eq!(view.window_info, before);
    view.in_resize = true;
    assert!(matches!(
        view.handle_app_message(&AppMessage::NotifyWindowInfoChanges(WindowId(7), info)),
        SwitcherAction::EndResize
    ));
    assert_eq!(view.window_info, info);
    assert!(!view.in_resize);
}

#[test]
fn the_host_follows_the_measured_sizes() {
    let mut view = widget(numbered(1, Some(0)), Options::default());
    let resize = view.resize_host_to_rect(321, 48).unwrap();
    assert_eq!((resize.width, resize.height), (321, 48));
    assert_eq!(resize.fields.width, Some("321".to_string()));
    assert_eq!(resize.fields.height, Some("48".to_string()));
    assert_eq!(resize.fields.x, Some("5".to_string()));
    assert_eq!(resize.fields.auto_width, Some(1));
    assert_eq!(view.window_info.width, 321);
    assert_eq!(view.window_info.height, 48);
    assert!(view.resize_host_to_rect(321, 48).is_none());
    view.window_info.auto_width = false;
    view.window_info.auto_height = false;
    assert!(view.resize_host_to_rect(1, 2).is_none());
    assert_eq!((view.window_info.width, view.window_info.height), (321, 48));
    view.window_info.auto_height = true;
    let resize = view.resize_host_to_rect(1, 2).unwrap();
    assert_eq!((resize.width, resize.height), (321, 2));
}

#[test]
fn children_follow_the_host_except_in_resize_mode() {
    let mut view = widget(vec![], Options::default());
    assert_eq!(view.child_size(300, 40), Some((300, 40)));
    view.in_resize = true;
    assert_eq!(view.child_size(300, 40), None);
    view.update_window_info(&WindowRegistryInfo::default());
    assert_eq!(view.child_size(0, -1), Some((0, -1)));
}

#[test]
fn taskbar_on_top() {
    assert!(is_taskbar_on_top(Some(0), Some(0)));
    assert!(is_taskbar_on_top(Some(-5), None));
    assert!(!is_taskbar_on_top(Some(1040), Some(0)));
    assert!(is_taskbar_on_top(Some(1080), Some(1080)));
    assert!(!is_taskbar_on_top(Some(1), None));
    assert!(!is_taskbar_on_top(None, Some(0)));
}

fn dialog(entry: WindowRegistryInfo) -> ResizeWindowView {
    ResizeWindowView::new(WindowId(7), WindowId(8), 70, entry, "MON".to_string())
}

#[test]
fn cancel_restores_the_geometry_at_entry() {
    let entry =
        WindowRegistryInfo { x: 10, y: 20, width: 300, height: 44, auto_width: false, auto_height: false };
    let mut d = dialog(entry);
    assert_eq!(d.info, entry);
    d.info.x = -999;
    d.info.y = 7;
    d.info.width = 1;
    d.info.height = 2;
    d.info.auto_width = true;
    assert_eq!(d.update(640, 48), Placement { x: -999, y: 7, width: 640, height: 2 });
    let rollback = d.cancel(640, 48);
    assert_eq!(rollback.host, 70);
    assert_eq!(rollback.placement, Placement { x: 10, y: 20, width: 300, height: 44 });
    assert!(
        matches!(rollback.notify, AppMessage::NotifyWindowInfoChanges(WindowId(7), info) if info == entry)
    );
    assert!(matches!(rollback.close, AppMessage::CloseWindow(WindowId(8))));
    assert_eq!(d.initial_info, entry);
    let mut view = widget(numbered(1, Some(0)), Options::default());
    view.window_info = entry;
    view.in_resize = true;
    assert!(matches!(view.handle_app_message(&rollback.notify), SwitcherAction::EndResize));
    assert_eq!(view.window_info, entry);
    assert!(!view.in_resize);
}

#[test]
fn cancel_measures_what_was_automatic_at_entry() {
    let entry = WindowRegistryInfo::default();
    let mut d = dialog(entry);
    d.info.auto_width = false;
    d.info.auto_height = false;
    d.info.width = 1;
    let rollback = d.cancel(640, 48);
    assert_eq!(rollback.placement, Placement { x: 5, y: 0, width: 640, height: 48 });
}

#[test]
fn save_persists_the_edited_values_and_they_load_again() {
    let entry =
        WindowRegistryInfo { x: 10, y: 20, width: 300, height: 44, auto_width: false, auto_height: false };
    let mut d = dialog(entry);
    d.info.x = -12;
    d.info.width = 512;
    d.info.auto_height = true;
    let before = d.rollback(640, 48);
    assert_eq!(before.placement, Placement { x: 10, y: 20, width: 300, height: 44 });
    let commit = d.save(640, 48);
    let edited =
        WindowRegistryInfo { x: -12, y: 20, width: 512, height: 48, auto_width: false, auto_height: true };
    assert_eq!(commit.host, 70);
    assert_eq!(commit.placement, Placement { x: -12, y: 20, width: 512, height: 48 });
    assert_eq!(commit.subkey, "MON");
    assert!(
        matches!(commit.notify, AppMessage::NotifyWindowInfoChanges(WindowId(7), info) if info == edited)
    );
    assert!(matches!(commit.close, AppMessage::CloseWindow(WindowId(8))));
    let (loaded, backfill) = WindowRegistryInfo::load(&commit.fields);
    assert_eq!(loaded, edited);
    assert!(backfill.x.is_none() && backfill.width.is_none() && backfill.auto_height.is_none());
    assert_eq!(d.initial_info, entry);
}

#[test]
fn the_widget_takes_what_the_dialog_saved() {
    let mut view = widget(numbered(1, Some(0)), Options::default());
    let request = match view.handle_app_message(&AppMessage::MenuEvent("1001".to_string())) {
        SwitcherAction::StartResize(message) => message,
        other => panic!("{:?}", other),
    };
    let mut d = match request {
        AppMessage::CreateResizeWindow { host, info, subkey, window_id } => {
            ResizeWindowView::new(window_id, WindowId(8), host, info, subkey)
        }
        other => panic!("{:?}", other),
    };
    d.info.x = 77;
    d.info.auto_width = false;
    d.info.width = 250;
    let commit = d.save(640, 48);
    assert!(matches!(view.handle_app_message(&commit.notify), SwitcherAction::EndResize));
    assert_eq!(
        view.window_info,
        WindowRegistryInfo { x: 77, y: 0, width: 250, height: 48, auto_width: false, auto_height: true }
    );
    assert!(!view.in_resize);
}

#[test]
fn only_a_request_to_close_makes_the_dialog_go_back() {
    let mut d = dialog(WindowRegistryInfo::default());
    assert!(d.handle_window_event(WindowEvent::Other, 1, 2).is_none());
    assert!(d.handle_window_event(WindowEvent::Destroyed, 1, 2).is_none());
    let rollback = d.handle_window_event(WindowEvent::CloseRequested, 1, 2).unwrap();
    assert_eq!(rollback.placement, Placement { x: 5, y: 0, width: 1, height: 2 });
}
