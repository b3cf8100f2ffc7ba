use stack_exec::action_state::{ActionFlag, ActionStates, Busy, StackActionState};

fn id(s: &str) -> String {
    s.to_string()
}

#[test]
fn fresh_registry_is_idle() {
    let states = ActionStates::new();
    let state = states.get(&id("stack-1"));
    assert_eq!(state, StackActionState::new());
    assert!(!state.busy());
    assert_eq!(state.current(), None);
}

#[test]
fn claim_sets_exactly_its_flag() {
    let mut states = ActionStates::new();
    let guard = states.update(&id("stack-1"), ActionFlag::Deploying).unwrap();
    assert_eq!(guard.id(), "stack-1");
    assert_eq!(guard.flag(), ActionFlag::Deploying);
    let state = states.get(&id("stack-1"));
    assert!(state.deploying);
    assert!(state.busy());
    assert_eq!(state, StackActionState::with(ActionFlag::Deploying));
    assert_eq!(state.current(), Some(ActionFlag::Deploying));
}

#[test]
fn second_claim_is_refused_while_first_is_held() {
    let mut states = ActionStates::new();
    let _guard = states.update(&id("stack-1"), ActionFlag::Deploying).unwrap();
    let refused = states.update(&id("stack-1"), ActionFlag::Destroying).unwrap_err();
    assert_eq!(refused, Busy { resource: id("stack-1"), operation: ActionFlag::Deploying });
    let again = states.update(&id("stack-1"), ActionFlag::Deploying).unwrap_err();
    assert_eq!(again, Busy { resource: id("stack-1"), operation: ActionFlag::Deploying });
    assert_eq!(states.get(&id("stack-1")), StackActionState::with(ActionFlag::Deploying));
}

#[test]
fn claim_succeeds_after_release() {
    let mut states = ActionStates::new();
    let guard = states.update(&id("stack-1"), ActionFlag::Pulling).unwrap();
    states.release(guard);
    assert_eq!(states.get(&id("stack-1")), StackActionState::new());
    assert!(!states.get(&id("stack-1")).busy());
    let guard = states.update(&id("stack-1"), ActionFlag::Stopping).unwrap();
    assert_eq!(states.get(&id("stack-1")), StackActionState::with(ActionFlag::Stopping));
    states.release(guard);
    assert!(!states.get(&id("stack-1")).busy());
}

#[test]
fn different_resources_do_not_exclude_each_other() {
    let mut states = ActionStates::new();
    let one = states.update(&id("stack-1"), ActionFlag::Deploying).unwrap();
    let two = states.update(&id("stack-2"), ActionFlag::Deploying).unwrap();
    assert!(states.get(&id("stack-1")).busy());
    assert!(states.get(&id("stack-2")).busy());
    assert!(!states.get(&id("stack-3")).busy());
    states.release(one);
    assert!(!states.get(&id("stack-1")).busy());
    assert!(states.get(&id("stack-2")).busy());
    states.release(two);
    assert!(!states.get(&id("stack-2")).busy());
}

#[test]
fn every_flag_can_be_claimed() {
    let flags = [
        ActionFlag::Pulling,
        ActionFlag::Deploying,
        ActionFlag::Starting,
        ActionFlag::Restarting,
        ActionFlag::Pausing,
        ActionFlag::Unpausing,
        ActionFlag::Stopping,
        ActionFlag::Destroying,
    ];
    for flag in flags {
        let mut states = ActionStates::new();
        let guard = states.update(&id("s"), flag).unwrap();
        let state = states.get(&id("s"));
        assert_eq!(state.current(), Some(flag));
        let set = [
            state.pulling,
            state.deploying,
            state.starting,
            state.restarting,
            state.pausing,
            state.unpausing,
            state.stopping,
            state.destroying,
        ];
        assert_eq!(set.iter().filter(|b| **b).count(), 1);
        states.release(guard);
        assert_eq!(states.get(&id("s")), StackActionState::new());
    }
}
