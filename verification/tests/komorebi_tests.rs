use komorebi_switcher::json::Json;
use komorebi_switcher::komorebi::client::{
    KMonitor, KRect, KSocketMessage, KState, KWorkspace, MaybeRingOrVec, Ring,
};
use komorebi_switcher::komorebi::event::KSocketEvent;
use komorebi_switcher::komorebi::listener::{
    listener_start, listener_step, on_payload, subscribe_message, ListenerAction, ListenerEvent,
    ListenerState, RETRY_BACKOFF_MILLIS,
};
use komorebi_switcher::komorebi::wire::KNotification;
use komorebi_switcher::komorebi::{
    change_workspace, read_state, state_from_json, state_from_notification, state_query,
    workspaces_from_state, ProtocolError,
};
use komorebi_switcher::state::{Monitor, Rect, State};

fn workspace_json(name: &str, extra: &str) -> String {
    format!(
        "{{\"name\": {}, \"containers\": {{\"elements\": [], \"focused\": 0}}, \
         \"floating_windows\": [] {}}}",
        name, extra
    )
}

fn monitor_json(name: &str, serial: &str, workspaces: &[String], focused: usize) -> String {
    format!(
        "{{\"name\": \"{}\", \"device_id\": \"dev-{}\", \"serial_number_id\": {}, \
         \"workspaces\": {{\"elements\": [{}], \"focused\": {}}}, \
         \"size\": {{\"left\": 0, \"top\": 0, \"right\": 1920, \"bottom\": 1080}}}}",
        name,
        name,
        serial,
        workspaces.join(", "),
        focused
    )
}

fn state_json(monitors: &[String]) -> String {
    format!("{{\"monitors\": {{\"elements\": [{}], \"focused\": 0}}}}", monitors.join(", "))
}

fn one_workspace_state(workspace: String) -> State {
    let text = state_json(&[monitor_json("M", "\"S\"", &[workspace], 0)]);
    read_state(&text).unwrap()
}

#[test]
fn is_empty_without_any_content() {
    let state = one_workspace_state(workspace_json("\"a\"", ""));
    assert!(state.monitors[0].workspaces[0].is_empty);
}

#[test]
fn is_empty_with_null_optional_content() {
    let state = one_workspace_state(workspace_json(
        "\"a\"",
        ", \"maximized_window\": null, \"monocle_container\": null",
    ));
    assert!(state.monitors[0].workspaces[0].is_empty);
}

#[test]
fn not_empty_with_a_container() {
    let w = "{\"name\": \"a\", \"containers\": {\"elements\": [{\"id\": 1}], \"focused\": 0}, \
             \"floating_windows\": []}";
    let state = one_workspace_state(w.to_string());
    assert!(!state.monitors[0].workspaces[0].is_empty);
}

#[test]
fn not_empty_with_a_floating_window_in_a_bare_list() {
    let w = "{\"name\": \"a\", \"containers\": {\"elements\": [], \"focused\": 0}, \
             \"floating_windows\": [{\"hwnd\": 1}]}";
    let state = one_workspace_state(w.to_string());
    assert!(!state.monitors[0].workspaces[0].is_empty);
}

#[test]
fn not_empty_with_a_floating_window_in_a_ring() {
    let w = "{\"name\": \"a\", \"containers\": {\"elements\": [], \"focused\": 0}, \
             \"floating_windows\": {\"elements\": [{\"hwnd\": 1}], \"focused\": 0}}";
    let state = one_workspace_state(w.to_string());
    assert!(!state.monitors[0].workspaces[0].is_empty);
}

#[test]
fn is_empty_with_an_empty_ring_of_floating_windows() {
    let w = "{\"name\": \"a\", \"containers\": {\"elements\": [], \"focused\": 0}, \
             \"floating_windows\": {\"elements\": [], \"focused\": 0}}";
    let state = one_workspace_state(w.to_string());
    assert!(state.monitors[0].workspaces[0].is_empty);
}

#[test]
fn not_empty_with_a_maximized_window() {
    let state =
        one_workspace_state(workspace_json("\"a\"", ", \"maximized_window\": {\"hwnd\": 1}"));
    assert!(!state.monitors[0].workspaces[0].is_empty);
}

#[test]
fn not_empty_with_a_monocle_container() {
    let state =
        one_workspace_state(workspace_json("\"a\"", ", \"monocle_container\": {\"id\": 1}"));
    assert!(!state.monitors[0].workspaces[0].is_empty);
}

#[test]
fn not_empty_with_every_kind_of_content() {
    let w = "{\"name\": \"a\", \"containers\": {\"elements\": [1, 2], \"focused\": 1}, \
             \"maximized_window\": {}, \"monocle_container\": {}, \
             \"floating_windows\": [1]}";
    let state = one_workspace_state(w.to_string());
    assert!(!state.monitors[0].workspaces[0].is_empty);
}

#[test]
fn kworkspace_is_empty_counts_each_kind() {
    let empty = || KWorkspace {
        name: None,
        containers: Ring { elements: vec![], focused: 0 },
        maximized_window: None,
        monocle_container: None,
        floating_windows: MaybeRingOrVec::Vec(vec![]),
    };
    assert!(empty().is_empty());
    let mut w = empty();
    w.containers.elements.push(Json::Null);
    assert!(!w.is_empty());
    let mut w = empty();
    w.maximized_window = Some(Json::Null);
    assert!(!w.is_empty());
    let mut w = empty();
    w.monocle_container = Some(Json::Bool(false));
    assert!(!w.is_empty());
    let mut w = empty();
    w.floating_windows = MaybeRingOrVec::Vec(vec![Json::Null]);
    assert!(!w.is_empty());
    let mut w = empty();
    w.floating_windows = MaybeRingOrVec::Ring(Ring { elements: vec![Json::Null], focused: 0 });
    assert!(!w.is_empty());
    let mut w = empty();
    w.floating_windows = MaybeRingOrVec::Ring(Ring { elements: vec![], focused: 3 });
    assert!(w.is_empty());
}

#[test]
fn ring_methods() {
    let ring = Ring { elements: vec![10, 20, 30], focused: 1 };
    assert_eq!(ring.focused_idx(), 1);
    assert!(!ring.is_empty());
    assert_eq!(ring.focused(), Some(&20));
    let ring = Ring { elements: vec![10], focused: 1 };
    assert_eq!(ring.focused(), None);
    let ring: Ring<u8> = Ring { elements: vec![], focused: 0 };
    assert!(ring.is_empty());
    assert!(MaybeRingOrVec::Vec(Vec::<u8>::new()).is_empty());
    assert!(!MaybeRingOrVec::Vec(vec![1u8]).is_empty());
}

#[test]
fn read_state_builds_monitors_and_workspaces() {
    let text = state_json(&[
        monitor_json(
            "Left",
            "\"SER1\"",
            &[workspace_json("\"web\"", ""), workspace_json("null", ""), workspace_json("\"c\"", "")],
            1,
        ),
        monitor_json("Right", "null", &[workspace_json("\"x\"", "")], 0),
    ]);
    let state = read_state(&text).unwrap();
    assert_eq!(state.monitors.len(), 2);
    let left = &state.monitors[0];
    assert_eq!(left.name, "Left");
    assert_eq!(left.index, 0);
    assert_eq!(left.id, "SER1");
    assert_eq!(left.rect, Rect { left: 0, top: 0, right: 1920, bottom: 1080 });
    assert_eq!(left.workspaces.len(), 3);
    assert_eq!(left.workspaces[0].name, "web");
    assert_eq!(left.workspaces[1].name, "2");
    assert_eq!(left.workspaces[2].name, "c");
    assert_eq!(left.workspaces[0].index, 0);
    assert_eq!(left.workspaces[2].index, 2);
    assert!(!left.workspaces[0].focused);
    assert!(left.workspaces[1].focused);
    assert!(!left.workspaces[2].focused);
    let right = &state.monitors[1];
    assert_eq!(right.index, 1);
    assert_eq!(right.id, "dev-Right");
    assert!(right.workspaces[0].focused);
}

#[test]
fn monitor_identity_falls_back_to_the_name() {
    let k = KMonitor {
        name: "Only".to_string(),
        device_id: None,
        serial_number_id: None,
        workspaces: Ring { elements: vec![], focused: 0 },
        size: KRect { left: -5, top: 1, right: 2, bottom: 3 },
    };
    let m = Monitor::from(k, 4);
    assert_eq!(m.id, "Only");
    assert_eq!(m.index, 4);
    assert_eq!(m.rect, Rect { left: -5, top: 1, right: 2, bottom: 3 });
    assert!(m.workspaces.is_empty());
}

#[test]
fn monitor_identity_does_not_depend_on_position() {
    let a = monitor_json("A", "\"SA\"", &[], 0);
    let b = monitor_json("B", "\"SB\"", &[], 0);
    let first = read_state(&state_json(&[a.clone(), b.clone()])).unwrap();
    let second = read_state(&state_json(&[b, a])).unwrap();
    assert_eq!(first.monitors[0].id, second.monitors[1].id);
    assert_eq!(first.monitors[1].id, second.monitors[0].id);
    assert_eq!(second.monitors[0].index, 0);
    assert_eq!(second.monitors[1].index, 1);
}

#[test]
fn state_from_kstate_without_focus_in_range() {
    let k = KState {
        monitors: Ring {
            elements: vec![KMonitor {
                name: "M".to_string(),
                device_id: Some("D".to_string()),
                serial_number_id: None,
                workspaces: Ring {
                    elements: vec![KWorkspace {
                        name: None,
                        containers: Ring { elements: vec![], focused: 0 },
                        maximized_window: None,
                        monocle_container: None,
                        floating_windows: MaybeRingOrVec::Vec(vec![]),
                    }],
                    focused: 7,
                },
                size: KRect { left: 0, top: 0, right: 0, bottom: 0 },
            }],
            focused: 9,
        },
    };
    assert!(workspaces_from_state(&k).is_none());
    let state = State::from(k);
    assert_eq!(state.monitors[0].id, "D");
    assert_eq!(state.monitors[0].workspaces[0].name, "1");
    assert!(!state.monitors[0].workspaces[0].focused);
}

#[test]
fn workspaces_from_state_takes_the_focused_monitor() {
    let text = state_json(&[
        monitor_json("A", "\"SA\"", &[workspace_json("\"a1\"", "")], 0),
        monitor_json("B", "\"SB\"", &[workspace_json("\"b1\"", ""), workspace_json("\"b2\"", "")], 1),
    ])
    .replace("\"focused\": 0}}", "\"focused\": 1}}");
    let j = Json::parse(&text).unwrap();
    let k = KState::from_json(&j).unwrap();
    assert_eq!(k.monitors.focused, 1);
    let ws = workspaces_from_state(&k).unwrap();
    assert_eq!(ws.len(), 2);
    assert_eq!(ws[1].name, "b2");
    assert!(ws[1].focused);
}

#[test]
fn read_state_tells_malformed_from_unexpected() {
    assert_eq!(read_state("{\"monitors\": ").err(), Some(ProtocolError::Malformed));
    assert_eq!(read_state("").err(), Some(ProtocolError::Malformed));
    assert_eq!(read_state("{}").err(), Some(ProtocolError::Unexpected));
    assert_eq!(read_state("[]").err(), Some(ProtocolError::Unexpected));
    assert_eq!(
        read_state("{\"monitors\": {\"elements\": [], \"focused\": -1}}").err(),
        Some(ProtocolError::Unexpected)
    );
    assert_eq!(
        read_state("{\"monitors\": {\"elements\": [], \"focused\": 1.5}}").err(),
        Some(ProtocolError::Unexpected)
    );
    assert_eq!(
        read_state("{\"monitors\": {\"elements\": [{}], \"focused\": 0}}").err(),
        Some(ProtocolError::Unexpected)
    );
    assert!(read_state("{\"monitors\": {\"elements\": [], \"focused\": 0}, \"more\": 1}").is_ok());
}

#[test]
fn a_record_needs_its_members() {
    let ok = workspace_json("\"a\"", "");
    assert!(KWorkspace::from_json(&Json::parse(&ok).unwrap()).is_some());
    let no_containers = "{\"name\": \"a\", \"floating_windows\": []}";
    assert!(KWorkspace::from_json(&Json::parse(no_containers).unwrap()).is_none());
    let no_floating = "{\"name\": \"a\", \"containers\": {\"elements\": [], \"focused\": 0}}";
    assert!(KWorkspace::from_json(&Json::parse(no_floating).unwrap()).is_none());
    let bad_name = workspace_json("5", "");
    assert!(KWorkspace::from_json(&Json::parse(&bad_name).unwrap()).is_none());
    let no_name = "{\"containers\": {\"elements\": [], \"focused\": 0}, \"floating_windows\": []}";
    let w = KWorkspace::from_json(&Json::parse(no_name).unwrap()).unwrap();
    assert!(w.name.is_none());
    assert!(KWorkspace::from_json(&Json::parse("[]").unwrap()).is_none());
    let big = "{\"name\": \"m\", \"workspaces\": {\"elements\": [], \"focused\": 0}, \
               \"size\": {\"left\": 0, \"top\": 0, \"right\": 2147483648, \"bottom\": 0}}";
    assert!(KMonitor::from_json(&Json::parse(big).unwrap()).is_none());
}

fn notification(event: &str, state: &str) -> String {
    format!("{{\"event\": {}, \"state\": {}}}", event, state)
}

#[test]
fn notification_of_a_listed_kind_gives_the_state() {
    let state = state_json(&[monitor_json("M", "\"S\"", &[workspace_json("\"a\"", "")], 0)]);
    let text = notification("{\"type\": \"FocusWorkspaceNumber\", \"content\": 1}", &state);
    let j = Json::parse(&text).unwrap();
    let n = KNotification::from_json(&j).unwrap();
    assert_eq!(format!("{:?}", n.event), "Socket(FocusWorkspaceNumber)");
    let s = state_from_notification(&j).unwrap();
    assert_eq!(s.monitors[0].id, "S");
}

#[test]
fn notification_of_another_kind_is_left_aside() {
    let state = state_json(&[]);
    for event in [
        "{\"type\": \"Retile\"}",
        "{\"type\": 5}",
        "{\"kind\": \"FocusChange\"}",
        "\"FocusChange\"",
        "null",
    ] {
        let j = Json::parse(&notification(event, &state)).unwrap();
        assert!(state_from_notification(&j).is_none(), "{}", event);
    }
    let j = Json::parse(&format!("{{\"state\": {}}}", state)).unwrap();
    assert!(state_from_notification(&j).is_none());
    let j = Json::parse("{\"event\": {\"type\": \"FocusChange\"}}").unwrap();
    assert!(state_from_notification(&j).is_none());
}

#[test]
fn event_names_round_trip() {
    let names = [
        "FocusWorkspaceNumber", "FocusMonitorNumber", "FocusMonitorWorkspaceNumber",
        "FocusNamedWorkspace", "FocusWorkspaceNumbers", "CycleFocusMonitor", "CycleFocusWorkspace",
        "ReloadConfiguration", "ReplaceConfiguration", "CompleteConfiguration",
        "ReloadStaticConfiguration", "MoveContainerToMonitorNumber",
        "MoveContainerToMonitorWorkspaceNumber", "MoveContainerToNamedWorkspace",
        "MoveContainerToWorkspaceNumber", "MoveWorkspaceToMonitorNumber",
        "CycleMoveContainerToMonitor", "CycleMoveContainerToWorkspace",
        "CycleMoveWorkspaceToMonitor", "CloseWorkspace", "SendContainerToMonitorNumber",
        "SendContainerToMonitorWorkspaceNumber", "SendContainerToNamedWorkspace",
        "SendContainerToWorkspaceNumber", "CycleSendContainerToMonitor",
        "CycleSendContainerToWorkspace", "Cloak", "Uncloak", "Destroy", "FocusChange", "Hide",
        "Minimize", "Show", "TitleUpdate",
    ];
    assert_eq!(names.len(), 34);
    for name in names {
        let event = KSocketEvent::from_name(name).unwrap();
        assert_eq!(event.name(), name);
        assert_eq!(format!("{:?}", event), name);
    }
    assert_eq!(KSocketEvent::from_name("focuschange"), None);
    assert_eq!(KSocketEvent::from_name(""), None);
    assert_eq!(KSocketEvent::from_name("Manage"), None);
}

#[test]
fn messages_to_komorebi() {
    assert!(matches!(state_query(), KSocketMessage::State));
    assert!(matches!(change_workspace(2, 5), KSocketMessage::FocusMonitorWorkspaceNumber(2, 5)));
    assert!(matches!(change_workspace(0, 1), KSocketMessage::FocusMonitorWorkspaceNumber(0, 1)));
    match subscribe_message("komorebi-switcher.sock") {
        KSocketMessage::AddSubscriberSocket(name) => assert_eq!(name, "komorebi-switcher.sock"),
        other => panic!("{:?}", other),
    }
}

#[test]
fn listener_subscribes_with_a_pause_between_attempts() {
    let (state, action) = listener_start();
    assert_eq!(state, ListenerState::Subscribing);
    assert!(matches!(action, ListenerAction::Subscribe { after_millis: 0 }));
    let (state, action) = listener_step(state, &ListenerEvent::SubscribeFailed);
    assert_eq!(state, ListenerState::Subscribing);
    assert_eq!(RETRY_BACKOFF_MILLIS, 1000);
    assert!(matches!(action, ListenerAction::Subscribe { after_millis: 1000 }));
    let (state, action) = listener_step(state, &ListenerEvent::Subscribed);
    assert_eq!(state, ListenerState::Listening);
    assert!(matches!(action, ListenerAction::Accept));
}

#[test]
fn listener_reconnects_after_a_disconnect() {
    let (state, action) = listener_step(ListenerState::Listening, &ListenerEvent::Disconnected);
    assert_eq!(state, ListenerState::Reconnecting);
    assert!(matches!(action, ListenerAction::Reconnect { after_millis: 0 }));
    let (state, action) = listener_step(state, &ListenerEvent::ReconnectFailed);
    assert_eq!(state, ListenerState::Reconnecting);
    assert!(matches!(action, ListenerAction::Reconnect { after_millis: 1000 }));
    let (state, action) = listener_step(state, &ListenerEvent::Reconnected);
    assert_eq!(state, ListenerState::Listening);
    assert!(matches!(action, ListenerAction::Accept));
}

#[test]
fn listener_goes_on_after_what_it_cannot_use() {
    for event in [ListenerEvent::AcceptFailed, ListenerEvent::Unreadable, ListenerEvent::Subscribed] {
        let (state, action) = listener_step(ListenerState::Listening, &event);
        assert_eq!(state, ListenerState::Listening);
        assert!(matches!(action, ListenerAction::Accept));
    }
    let (state, action) =
        listener_step(ListenerState::Subscribing, &ListenerEvent::Payload("{}".to_string()));
    assert_eq!(state, ListenerState::Subscribing);
    assert!(matches!(action, ListenerAction::Subscribe { after_millis: 1000 }));
}

#[test]
fn malformed_payload_is_dropped_and_the_next_one_is_processed() {
    let state = state_json(&[monitor_json("M", "\"S\"", &[workspace_json("\"a\"", "")], 0)]);
    let good = notification("{\"type\": \"FocusChange\", \"content\": [1, 2]}", &state);
    let truncated = good[..good.len() / 2].to_string();
    let (s, action) = listener_step(ListenerState::Listening, &ListenerEvent::Payload(truncated));
    assert_eq!(s, ListenerState::Listening);
    assert!(matches!(action, ListenerAction::Accept));
    let (s, action) = listener_step(s, &ListenerEvent::Payload(good));
    assert_eq!(s, ListenerState::Listening);
    match action {
        ListenerAction::Push(pushed) => {
            assert_eq!(pushed.monitors.len(), 1);
            assert_eq!(pushed.monitors[0].id, "S");
            assert_eq!(pushed.monitors[0].workspaces[0].name, "a");
        }
        other => panic!("{:?}", other),
    }
}

#[test]
fn payload_that_is_no_notification_is_dropped() {
    let (s, action) =
        listener_step(ListenerState::Listening, &ListenerEvent::Payload("{\"a\": 1}".to_string()));
    assert_eq!(s, ListenerState::Listening);
    assert!(matches!(action, ListenerAction::Accept));
    assert!(matches!(on_payload(&Json::parse("[")), ListenerAction::Accept));
    assert!(matches!(on_payload(&Json::parse("[]")), ListenerAction::Accept));
}

#[test]
fn state_from_json_reads_the_answer_to_a_query() {
    let text = state_json(&[monitor_json("M", "\"S\"", &[], 0)]);
    let state = state_from_json(&Json::parse(&text).unwrap()).unwrap();
    assert_eq!(state.monitors.len(), 1);
    assert!(state_from_json(&Json::Null).is_none());
}
