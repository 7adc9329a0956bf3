use texture::state::{BaseState, BasicState};

#[test]
fn unset_keys_read_defaults() {
    let state = BasicState::new();
    assert_eq!(state.get_flag("in_start".to_string()), false);
    assert_eq!(state.get_value("time".to_string()), 0);
}

#[test]
fn unset_keys_read_defaults_beside_others() {
    let mut state = BasicState::new();
    state.set_flag("a".to_string(), true);
    state.set_value("b".to_string(), -5);
    assert_eq!(state.get_flag("b".to_string()), false);
    assert_eq!(state.get_value("a".to_string()), 0);
    assert_eq!(state.get_flag("c".to_string()), false);
    assert_eq!(state.get_value("c".to_string()), 0);
}

#[test]
fn flags_are_set_and_overwritten() {
    let mut state = BasicState::new();
    state.set_flag("in_start".to_string(), true);
    assert_eq!(state.get_flag("in_start".to_string()), true);
    state.set_flag("in_start".to_string(), false);
    assert_eq!(state.get_flag("in_start".to_string()), false);
}

#[test]
fn values_are_set_and_overwritten() {
    let mut state = BasicState::new();
    state.set_value("time".to_string(), 850);
    assert_eq!(state.get_value("time".to_string()), 850);
    state.set_value("time".to_string(), 700);
    assert_eq!(state.get_value("time".to_string()), 700);
    state.set_value("low".to_string(), i32::MIN);
    assert_eq!(state.get_value("low".to_string()), i32::MIN);
    assert_eq!(state.get_value("time".to_string()), 700);
}

#[test]
fn clear_forgets_everything() {
    let mut state = BasicState::new();
    state.set_flag("f".to_string(), true);
    state.set_value("v".to_string(), 3);
    state.clear();
    assert_eq!(state.get_flag("f".to_string()), false);
    assert_eq!(state.get_value("v".to_string()), 0);
    state.set_flag("f".to_string(), true);
    assert_eq!(state.get_flag("f".to_string()), true);
}
