use backend_supervisor::gate::{Gate, GateAction, GatePhase, GateSignal, REVEAL_TIMEOUT_SECS};

fn reveals(gate: &mut Gate, signals: &[GateSignal]) -> usize {
    let mut count = 0;
    for signal in signals {
        if gate.handle(*signal).reveals() {
            count += 1;
        }
    }
    count
}

#[test]
fn new_gate_waits_with_all_flags_down() {
    let gate = Gate::new();
    assert!(!gate.backend_ready());
    assert!(!gate.frontend_ready());
    assert!(!gate.switched());
    assert_eq!(gate.phase(), GatePhase::Waiting);
}

#[test]
fn timeout_is_five_seconds() {
    assert_eq!(REVEAL_TIMEOUT_SECS, 5);
}

#[test]
fn one_flag_alone_does_not_reveal() {
    let mut gate = Gate::new();
    assert_eq!(gate.handle(GateSignal::BackendReady), GateAction::Stay);
    assert!(gate.backend_ready());
    assert!(!gate.switched());
    assert_eq!(gate.handle(GateSignal::BackendReady), GateAction::Stay);
    assert_eq!(gate.phase(), GatePhase::Waiting);

    let mut other = Gate::new();
    assert_eq!(other.handle(GateSignal::FrontendReady), GateAction::Stay);
    assert!(other.frontend_ready());
    assert!(!other.backend_ready());
    assert_eq!(other.phase(), GatePhase::Waiting);
}

#[test]
fn both_flags_reveal_with_title() {
    let mut gate = Gate::new();
    assert_eq!(gate.handle(GateSignal::FrontendReady), GateAction::Stay);
    let action = gate.handle(GateSignal::BackendReady);
    assert_eq!(action, GateAction::RevealTitled);
    assert!(action.reveals());
    assert!(action.sets_title());
    assert!(gate.switched());
    assert_eq!(gate.phase(), GatePhase::Revealed);
}

#[test]
fn one_shot_reveal_in_every_order_of_the_three_triggers() {
    let b = GateSignal::BackendReady;
    let f = GateSignal::FrontendReady;
    let t = GateSignal::TimeoutElapsed;
    let orders = [[b, f, t], [b, t, f], [f, b, t], [f, t, b], [t, b, f], [t, f, b]];
    for order in orders.iter() {
        let mut gate = Gate::new();
        assert_eq!(reveals(&mut gate, order), 1);
        assert!(gate.switched());
        // firing everything again changes nothing
        assert_eq!(reveals(&mut gate, order), 0);
        assert_eq!(reveals(&mut gate, order), 0);
        assert!(gate.backend_ready() && gate.frontend_ready() && gate.switched());
    }
}

#[test]
fn timeout_fallback_raises_all_flags() {
    let mut gate = Gate::new();
    let action = gate.handle(GateSignal::TimeoutElapsed);
    assert_eq!(action, GateAction::RevealUntitled);
    assert!(action.reveals());
    assert!(!action.sets_title());
    assert!(gate.backend_ready());
    assert!(gate.frontend_ready());
    assert!(gate.switched());
    assert_eq!(gate.phase(), GatePhase::Revealed);
}

#[test]
fn timeout_after_readiness_is_a_no_op() {
    let mut gate = Gate::new();
    gate.handle(GateSignal::BackendReady);
    gate.handle(GateSignal::FrontendReady);
    assert_eq!(gate.handle(GateSignal::TimeoutElapsed), GateAction::Stay);
    assert_eq!(gate.phase(), GatePhase::Revealed);
}

#[test]
fn timeout_with_one_flag_up_still_reveals_untitled() {
    let mut gate = Gate::new();
    gate.handle(GateSignal::FrontendReady);
    assert_eq!(gate.handle(GateSignal::TimeoutElapsed), GateAction::RevealUntitled);
    assert_eq!(gate.handle(GateSignal::BackendReady), GateAction::Stay);
}

#[test]
fn maybe_switch_flips_once() {
    let mut gate = Gate::new();
    assert_eq!(gate.maybe_switch(), GateAction::Stay);
    gate.handle(GateSignal::BackendReady);
    assert_eq!(gate.maybe_switch(), GateAction::Stay);
    assert_eq!(gate.handle(GateSignal::FrontendReady), GateAction::RevealTitled);
    assert_eq!(gate.maybe_switch(), GateAction::Stay);
    assert!(gate.switched());
}

#[test]
fn stay_neither_reveals_nor_sets_a_title() {
    assert!(!GateAction::Stay.reveals());
    assert!(!GateAction::Stay.sets_title());
}
