use miniclient::gamepads::{display_labels, GamepadEvent, GamepadRegistry};

#[test]
fn initial_gamepads_keep_their_order() {
    let reg = GamepadRegistry::from_initial(vec![4, 1, 7]);
    assert_eq!(reg.ids(), vec![4, 1, 7]);
    assert_eq!(reg.selected(0), Some(4));
    assert_eq!(reg.selected(2), Some(7));
    assert_eq!(reg.selected(3), None);
}

#[test]
fn connect_appends_a_new_gamepad() {
    let mut reg = GamepadRegistry::from_initial(vec![2]);
    let shown = reg.handle_event(GamepadEvent::Connected(5));
    assert_eq!(shown, Some(vec![2, 5]));
    assert!(reg.contains(5));
}

#[test]
fn connect_of_a_listed_gamepad_changes_nothing() {
    let mut reg = GamepadRegistry::from_initial(vec![2, 5]);
    let shown = reg.handle_event(GamepadEvent::Connected(2));
    assert_eq!(shown, Some(vec![2, 5]));
    reg.connect(5);
    assert_eq!(reg.ids(), vec![2, 5]);
}

#[test]
fn disconnect_drops_every_entry_and_keeps_order() {
    let mut reg = GamepadRegistry::from_initial(vec![3, 9, 3, 1]);
    let shown = reg.handle_event(GamepadEvent::Disconnected(3));
    assert_eq!(shown, Some(vec![9, 1]));
    assert!(!reg.contains(3));
}

#[test]
fn disconnect_of_the_last_gamepad_leaves_an_empty_list() {
    let mut reg = GamepadRegistry::from_initial(vec![6]);
    let shown = reg.handle_event(GamepadEvent::Disconnected(6));
    assert_eq!(shown, Some(vec![]));
    assert_eq!(reg.selected(0), None);
}

#[test]
fn disconnect_of_an_unknown_gamepad_changes_nothing() {
    let mut reg = GamepadRegistry::from_initial(vec![6, 8]);
    reg.disconnect(7);
    assert_eq!(reg.ids(), vec![6, 8]);
}

#[test]
fn other_events_leave_the_list_alone() {
    let mut reg = GamepadRegistry::from_initial(vec![1]);
    assert_eq!(reg.handle_event(GamepadEvent::Other), None);
    assert_eq!(reg.ids(), vec![1]);
}

#[test]
fn connect_then_disconnect_restores_the_list() {
    let mut reg = GamepadRegistry::from_initial(vec![1, 2]);
    reg.connect(3);
    reg.disconnect(3);
    assert_eq!(reg.ids(), vec![1, 2]);
}

#[test]
fn connect_keeps_the_selected_gamepad() {
    let mut reg = GamepadRegistry::from_initial(vec![10, 20]);
    let before = reg.selected(1);
    reg.connect(30);
    assert_eq!(reg.selected(1), before);
    assert_eq!(reg.selected(2), Some(30));
}

#[test]
fn labels_show_a_placeholder_when_empty() {
    assert_eq!(display_labels(vec![]), vec!["No gamepad detected".to_string()]);
}

#[test]
fn labels_show_the_names() {
    let names = vec!["Xbox Controller".to_string(), "DualShock".to_string()];
    assert_eq!(display_labels(names.clone()), names);
}

#[test]
fn initial_duplicates_are_listed_once() {
    let reg = GamepadRegistry::from_initial(vec![3, 3, 4, 3]);
    assert_eq!(reg.ids(), vec![3, 4]);
}
