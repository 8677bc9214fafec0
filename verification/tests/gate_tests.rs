use agent_bridge::gate::AgentGate;

#[test]
fn grants_follow_arrival_order() {
    let mut gate = AgentGate::new();
    gate.arrive(11);
    gate.arrive(22);
    gate.arrive(33);
    assert_eq!(gate.try_grant(), Some(11));
    gate.release(11);
    assert_eq!(gate.try_grant(), Some(22));
    gate.release(22);
    assert_eq!(gate.try_grant(), Some(33));
    gate.release(33);
    assert_eq!(gate.try_grant(), None);
}

#[test]
fn no_grant_while_the_agent_is_held() {
    let mut gate = AgentGate::new();
    gate.arrive(1);
    assert_eq!(gate.try_grant(), Some(1));
    gate.arrive(2);
    // 1 still holds the agent: 2 must wait.
    assert_eq!(gate.try_grant(), None);
    assert_eq!(gate.holder, Some(1));
    gate.release(1);
    assert_eq!(gate.try_grant(), Some(2));
}

#[test]
fn a_late_arrival_waits_behind_earlier_ones() {
    let mut gate = AgentGate::new();
    gate.arrive(7);
    gate.arrive(8);
    assert_eq!(gate.try_grant(), Some(7));
    gate.arrive(9);
    gate.release(7);
    assert_eq!(gate.try_grant(), Some(8));
    gate.release(8);
    assert_eq!(gate.try_grant(), Some(9));
}

#[test]
fn an_empty_gate_grants_nothing() {
    let mut gate = AgentGate::new();
    assert_eq!(gate.try_grant(), None);
    assert_eq!(gate.holder, None);
    assert!(gate.waiting.is_empty());
}
