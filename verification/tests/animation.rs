use std::rc::Rc;

use fluffy_fiesta::animation::{Animation, AnimationMap, Sequence};

/// Whole milliseconds in `seconds`.
fn ms(seconds: f64) -> u64 {
    (seconds * 1000.0).round() as u64
}

#[derive(Debug)]
struct TestSequence {
    id: usize,
}

impl Sequence for TestSequence {
    type Frame = usize;

    fn interval(&self) -> u64 {
        ms(1.0)
    }

    fn duration(&self) -> u64 {
        ms(5.0)
    }

    fn get(&self, time: u64) -> Option<usize> {
        Some(self.id + (time / ms(1.0)) as usize)
    }
}

#[derive(Debug, Clone, Copy)]
enum TestState {
    Idle,
    IdleAnim,
    Running,
    Stopping,
}

fn frame_offset(state: TestState) -> usize {
    match state {
        TestState::Idle => 10,
        TestState::IdleAnim => 20,
        TestState::Running => 30,
        TestState::Stopping => 40,
    }
}

struct TestMap {}

impl AnimationMap for TestMap {
    type Sequence = TestSequence;
    type State = TestState;

    fn initial_states(&self) -> Vec<TestState> {
        vec![TestState::Idle, TestState::Idle, TestState::IdleAnim]
    }

    fn transition_to(&self, current: TestState, other: Option<TestState>) -> Vec<TestState> {
        match (current, other) {
            (TestState::Running, Some(TestState::Idle)) => {
                vec![TestState::Stopping, TestState::Idle]
            }
            (_, Some(t)) => vec![t],
            (TestState::Running, None) => vec![TestState::Running],
            (_, None) => vec![TestState::Idle, TestState::Idle, TestState::IdleAnim],
        }
    }

    fn sequence(&self, state: TestState) -> Rc<TestSequence> {
        Rc::new(TestSequence { id: frame_offset(state) })
    }
}

#[test]
fn test_animation() {
    let mut animation = Animation::new(TestMap {});
    // starts with states=[Idle, Idle, IdleAnim], idx=0
    assert_eq!(animation.get(), 10);
    animation.update(ms(9.2));
    // moves to idx=1
    assert_eq!(animation.get(), 14);
    animation.update(ms(1.0));
    // moves to idx=2
    assert_eq!(animation.get(), 20);
    animation.update(ms(8.0));
    // moves to idx=3
    // runs out of states, call transition_to(., None)
    // states=[Idle, Idle, IdleAnim], idx=0
    assert_eq!(animation.get(), 13);
    animation.update(ms(3.0));
    // moves to idx=1
    assert_eq!(animation.get(), 11);
    animation.goto_state(TestState::Running);
    // states=[Running], idx=0
    assert_eq!(animation.get(), 30);
    animation.update(ms(8.2));
    assert_eq!(animation.get(), 33);
    animation.goto_state(TestState::Idle);
    assert_eq!(animation.get(), 40);
    animation.update(ms(3.2));
    assert_eq!(animation.get(), 43);
    animation.update(ms(3.0));
    assert_eq!(animation.get(), 11);
}

#[test]
fn update_in_parts_is_update_at_once() {
    for &(a, b) in &[(9.2, 1.0), (0.3, 4.7), (5.0, 5.0), (12.5, 0.0), (0.0, 33.3), (7.7, 18.1)] {
        let mut in_parts = Animation::new(TestMap {});
        in_parts.update(ms(a));
        in_parts.update(ms(b));
        let mut at_once = Animation::new(TestMap {});
        at_once.update(ms(a) + ms(b));
        assert_eq!(in_parts.get(), at_once.get());
        // and they go on alike
        in_parts.update(ms(1.0));
        at_once.update(ms(1.0));
        assert_eq!(in_parts.get(), at_once.get());
    }
}

#[test]
fn update_crosses_many_states_at_once() {
    let mut animation = Animation::new(TestMap {});
    // 15 seconds are the whole list [Idle, Idle, IdleAnim]; 17 more are
    // the list again and 2 seconds into Idle
    animation.update(ms(32.0));
    assert_eq!(animation.get(), 12);
    let mut running = Animation::new(TestMap {});
    running.goto_state(TestState::Running);
    running.update(ms(5000.0) + 1500);
    assert_eq!(running.get(), 31);
}

#[test]
fn update_of_no_time_changes_nothing() {
    let mut animation = Animation::new(TestMap {});
    animation.update(ms(3.5));
    animation.update(0);
    assert_eq!(animation.get(), 13);
    // a long time is whole rounds of the list, and then some
    animation.update(1_000_000 * ms(15.0) + ms(5.5));
    assert_eq!(animation.get(), 14);
}

#[test]
fn goto_state_starts_the_new_list_from_its_start() {
    let mut animation = Animation::new(TestMap {});
    animation.update(ms(7.3));
    assert_eq!(animation.get(), 12);
    animation.goto_state(TestState::Running);
    assert_eq!(animation.get(), 30);
    animation.update(ms(4.9));
    assert_eq!(animation.get(), 34);
    // the policy is asked from Running, the first state of the list
    animation.goto_state(TestState::Idle);
    assert_eq!(animation.get(), 40);
    // and from Stopping, not from where the time has got to
    animation.update(ms(6.0));
    assert_eq!(animation.get(), 11);
    animation.goto_state(TestState::Idle);
    assert_eq!(animation.get(), 10);
}
