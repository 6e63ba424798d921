use event_bridge::channel::{Channel, CHANNEL_CAPACITY};
use event_bridge::projector::WorkspaceProjector;
use event_bridge::sway::{focus_command, event_kind_of, Action, Client, EventKind, RawEvent};
use event_bridge::workspace::{
    Visibility, Workspace, WorkspaceChange, WorkspaceEvent, WorkspaceUpdate,
};

fn ws(id: i64, name: &str, monitor: &str, focused: bool, visible: bool) -> Workspace {
    Workspace::from_ipc_parts(id, name.to_string(), monitor.to_string(), focused, visible)
}

#[test]
fn registration_keeps_every_kind() {
    let mut client = Client::new();
    let first = client.add_listener_type(EventKind::Workspace, 0);
    // No task was running yet: connect, subscribe, spawn.
    assert_eq!(first.len(), 3);
    assert!(matches!(first[0], Action::OpenConnection));
    match &first[1] {
        Action::Subscribe { kinds } => assert_eq!(kinds, &vec![EventKind::Workspace]),
        other => panic!("expected subscribe action, got {other:?}"),
    }
    assert!(matches!(first[2], Action::SpawnDispatcher { generation: 0 }));

    let second = client.add_listener_type(EventKind::Mode, 1);
    // The subscription now covers the union of all registered kinds.
    match &second[2] {
        Action::Subscribe { kinds } => {
            assert_eq!(kinds, &vec![EventKind::Workspace, EventKind::Mode]);
        }
        other => panic!("expected subscribe action, got {other:?}"),
    }
}

#[test]
fn old_dispatcher_cancelled_before_new_one_spawns() {
    let mut client = Client::new();
    let _ = client.add_listener_type(EventKind::Workspace, 0);
    let actions = client.add_listener_type(EventKind::Mode, 1);
    assert_eq!(actions.len(), 4);
    assert!(matches!(actions[0], Action::CancelTask { generation: 0 }));
    assert!(matches!(actions[1], Action::OpenConnection));
    assert!(matches!(actions[2], Action::Subscribe { .. }));
    assert!(matches!(actions[3], Action::SpawnDispatcher { generation: 1 }));
}

#[test]
fn dispatch_order_matches_registration_order() {
    let mut client = Client::new();
    let _ = client.add_listener_type(EventKind::Workspace, 0);
    let _ = client.add_listener_type(EventKind::Mode, 1);
    let _ = client.add_listener_type(EventKind::Workspace, 2);
    assert_eq!(client.dispatch_targets(EventKind::Workspace), vec![0, 2]);
    assert_eq!(client.dispatch_targets(EventKind::Mode), vec![1]);
    assert_eq!(client.dispatch_targets(EventKind::Tick), Vec::<usize>::new());
}

#[test]
fn channel_is_fifo_and_drops_oldest_when_full() {
    let mut channel: Channel<i64> = Channel::new();
    assert_eq!(channel.recv(), None);
    for i in 0..(CHANNEL_CAPACITY as i64 + 1) {
        channel.send(i);
    }
    assert_eq!(channel.len(), CHANNEL_CAPACITY);
    // The oldest entry was dropped; the rest arrive in send order.
    assert_eq!(channel.recv(), Some(1));
    assert_eq!(channel.recv(), Some(2));
}

#[test]
fn subscriber_first_message_is_init_snapshot() {
    let mut projector = WorkspaceProjector::new();
    let snapshot = vec![ws(1, "one", "DP-1", true, true), ws(2, "two", "DP-2", false, false)];
    let (sub, actions) = projector.subscribe_workspace_change(snapshot);
    assert_eq!(sub, 0);
    assert_eq!(actions.len(), 3);
    match projector.recv(sub) {
        Some(WorkspaceUpdate::Init(state)) => {
            assert_eq!(state.len(), 2);
            assert_eq!(state[0].id, 1);
            assert_eq!(state[0].name, "one");
            assert_eq!(state[0].monitor, "DP-1");
            assert_eq!(state[0].visibility, Visibility::Visible { focused: true });
            assert_eq!(state[1].id, 2);
            assert_eq!(state[1].visibility, Visibility::Hidden);
        }
        other => panic!("expected an init message first, got {other:?}"),
    }
    assert!(projector.recv(sub).is_none());
}

#[test]
fn two_subscribers_get_same_init_and_identical_focus_update() {
    let mut projector = WorkspaceProjector::new();
    let snapshot = || vec![ws(1, "one", "DP-1", true, true)];
    let (first, _) = projector.subscribe_workspace_change(snapshot());
    let (second, _) = projector.subscribe_workspace_change(snapshot());
    assert_ne!(first, second);
    assert_eq!(projector.num_subscribers(), 2);

    for sub in [first, second] {
        match projector.recv(sub) {
            Some(WorkspaceUpdate::Init(state)) => {
                assert_eq!(state.len(), 1);
                assert_eq!(state[0].id, 1);
                assert_eq!(state[0].name, "one");
            }
            other => panic!("expected an init message first, got {other:?}"),
        }
    }

    let event = RawEvent::Workspace(WorkspaceEvent {
        change: WorkspaceChange::Focus,
        current: Some(ws(2, "two", "DP-1", true, true)),
        old: Some(ws(1, "one", "DP-1", false, true)),
    });
    projector.handle_event(&event);

    let mut seen = Vec::new();
    for sub in [first, second] {
        match projector.recv(sub) {
            Some(WorkspaceUpdate::Focus { old, new }) => {
                let old = old.expect("the focus update carries the workspace the focus left");
                seen.push((old.id, old.name, new.id, new.name));
            }
            other => panic!("expected a focus update, got {other:?}"),
        }
    }
    assert_eq!(seen[0], seen[1]);
}

#[test]
fn non_workspace_events_reach_no_workspace_subscriber() {
    let mut projector = WorkspaceProjector::new();
    let (sub, _) = projector.subscribe_workspace_change(Vec::new());
    let _ = projector.recv(sub);
    projector.handle_event(&RawEvent::Tick);
    assert!(projector.recv(sub).is_none());
}

#[test]
fn init_event_maps_to_add() {
    let update = WorkspaceUpdate::from_event(WorkspaceEvent {
        change: WorkspaceChange::Init,
        current: Some(ws(7, "seven", "DP-1", false, true)),
        old: None,
    });
    match update {
        WorkspaceUpdate::Add(w) => {
            assert_eq!(w.id, 7);
            assert_eq!(w.name, "seven");
            assert_eq!(w.visibility, Visibility::Visible { focused: false });
        }
        other => panic!("expected an add update, got {other:?}"),
    }
}

#[test]
fn empty_event_maps_to_remove_with_same_id() {
    let update = WorkspaceUpdate::from_event(WorkspaceEvent {
        change: WorkspaceChange::Empty,
        current: Some(ws(7, "seven", "DP-1", false, false)),
        old: None,
    });
    assert!(matches!(update, WorkspaceUpdate::Remove(7)));
}

#[test]
fn move_event_maps_to_move() {
    let update = WorkspaceUpdate::from_event(WorkspaceEvent {
        change: WorkspaceChange::Move,
        current: Some(ws(3, "three", "DP-2", false, false)),
        old: None,
    });
    match update {
        WorkspaceUpdate::Move(w) => assert_eq!(w.monitor, "DP-2"),
        other => panic!("expected a move update, got {other:?}"),
    }
}

#[test]
fn unrecognized_events_map_to_unknown() {
    for change in [WorkspaceChange::Rename, WorkspaceChange::Urgent, WorkspaceChange::Reload] {
        let update = WorkspaceUpdate::from_event(WorkspaceEvent {
            change,
            current: None,
            old: None,
        });
        assert!(matches!(update, WorkspaceUpdate::Unknown));
    }
}

#[test]
fn node_parts_default_missing_fields() {
    let w = Workspace::from_node_parts(5, None, None, false, None);
    assert_eq!(w.id, 5);
    assert_eq!(w.name, "");
    assert_eq!(w.monitor, "");
    assert_eq!(w.visibility, Visibility::Hidden);

    let w = Workspace::from_node_parts(6, Some("six".to_string()), None, false, Some(true));
    assert_eq!(w.name, "six");
    assert_eq!(w.visibility, Visibility::Visible { focused: false });
}

#[test]
fn visibility_prefers_focus() {
    assert_eq!(Visibility::from_flags(true, false), Visibility::Visible { focused: true });
    assert_eq!(Visibility::from_flags(true, true), Visibility::Visible { focused: true });
    assert_eq!(Visibility::from_flags(false, true), Visibility::Visible { focused: false });
    assert_eq!(Visibility::from_flags(false, false), Visibility::Hidden);
}

#[test]
fn events_classify_by_kind() {
    let workspace_event = RawEvent::Workspace(WorkspaceEvent {
        change: WorkspaceChange::Init,
        current: Some(ws(1, "one", "DP-1", false, false)),
        old: None,
    });
    assert_eq!(event_kind_of(&workspace_event), EventKind::Workspace);
    assert_eq!(event_kind_of(&RawEvent::Shutdown), EventKind::Shutdown);
    assert_eq!(event_kind_of(&RawEvent::BarConfigUpdate), EventKind::BarConfigUpdate);
}

#[test]
fn focus_command_names_workspace() {
    assert_eq!(focus_command("3"), "workspace 3");
    assert_eq!(focus_command("dev"), "workspace dev");
}
