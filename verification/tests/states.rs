use fluffy_fiesta::states::{apply_transition, StateTransition};

#[test]
fn end_pops_the_state_on_top() {
    let mut states = vec!["menu", "game", "pause"];
    assert!(apply_transition(&mut states, StateTransition::End));
    assert_eq!(states, vec!["menu", "game"]);
}

#[test]
fn replace_swaps_the_state_on_top() {
    let mut states = vec!["menu", "selection"];
    assert!(apply_transition(&mut states, StateTransition::Replace("game")));
    assert_eq!(states, vec!["menu", "game"]);
}

#[test]
fn push_keeps_the_state_below() {
    let mut states = vec!["game"];
    assert!(apply_transition(&mut states, StateTransition::Push("pause")));
    assert_eq!(states, vec!["game", "pause"]);
    let mut empty: Vec<&str> = Vec::new();
    assert!(apply_transition(&mut empty, StateTransition::Push("menu")));
    assert_eq!(empty, vec!["menu"]);
}

#[test]
fn quit_stops_and_leaves_the_stack() {
    let mut states = vec!["menu", "game"];
    assert!(!apply_transition(&mut states, StateTransition::Quit));
    assert_eq!(states, vec!["menu", "game"]);
}

#[test]
fn last_state_can_end() {
    let mut states = vec!["game"];
    assert!(apply_transition(&mut states, StateTransition::End));
    assert!(states.is_empty());
}
