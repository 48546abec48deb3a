use komorebi_switcher::message::{AppMessage, WindowId};
use komorebi_switcher::tray_icon::{TrayAction, TrayIcon};

#[test]
fn the_item_that_quits_ends_the_loop() {
    let tray = TrayIcon::new("q".to_string());
    assert!(matches!(tray.handle_app_message(&AppMessage::MenuEvent("q".to_string())), TrayAction::Exit));
    assert!(matches!(
        tray.handle_app_message(&AppMessage::MenuEvent("x".to_string())),
        TrayAction::Nothing
    ));
    assert!(matches!(
        tray.handle_app_message(&AppMessage::CloseWindow(WindowId(1))),
        TrayAction::Nothing
    ));
}

#[test]
fn the_item_of_a_widget_starts_moving_and_resizing_it() {
    let mut tray = TrayIcon::new("q".to_string());
    tray.create_items_for_switchers(vec!["M1".to_string(), "M2".to_string()]);
    assert_eq!(tray.move_resize_items, vec!["M1", "M2"]);
    match tray.handle_app_message(&AppMessage::MenuEvent("M2".to_string())) {
        TrayAction::Send(AppMessage::StartMoveResize(id)) => assert_eq!(id, "M2"),
        other => panic!("{:?}", other),
    }
    tray.create_items_for_switchers(vec!["M3".to_string()]);
    assert_eq!(tray.move_resize_items, vec!["M1", "M2", "M3"]);
    assert_eq!(tray.destroy_items_for_switchers(), vec!["M1", "M2", "M3"]);
    assert!(tray.move_resize_items.is_empty());
    assert!(matches!(
        tray.handle_app_message(&AppMessage::MenuEvent("M2".to_string())),
        TrayAction::Nothing
    ));
    assert_eq!(tray.quit, "q");
}
