use gpio_edge_wait::level::{Edge, EdgeKind, Level};
use gpio_edge_wait::wait::{Action, Phase, PendingWait, WaitError, WaitOp};

fn armed(op: WaitOp, level: Level) -> PendingWait {
    let mut w = PendingWait::new(op);
    assert!(matches!(w.start(level), Action::Arm(_)));
    w
}

#[test]
fn wait_for_low_when_low_returns_without_registering() {
    let mut w = PendingWait::new(WaitOp::Low);
    assert_eq!(w.start(Level::Low), Action::Return(Ok(())));
    assert_eq!(w.registrations, 0);
    assert_eq!(w.phase, Phase::Returned);
    assert_eq!(w.outcome, Some(Ok(())));
}

#[test]
fn wait_for_low_when_high_arms_one_falling_interrupt() {
    let mut w = PendingWait::new(WaitOp::Low);
    assert_eq!(w.start(Level::High), Action::Arm(EdgeKind::Falling));
    assert_eq!(w.registrations, 1);
    assert_eq!(w.registered(true), Action::Suspend);
    assert!(w.deliver(Edge::Falling));
    assert_eq!(w.wake(), Action::Return(Ok(())));
    assert_eq!(w.registrations, 1);
}

#[test]
fn any_edge_two_rapid_deliveries_complete_once() {
    let mut w = armed(WaitOp::AnyEdge, Level::High);
    assert_eq!(w.registered(true), Action::Suspend);
    assert!(w.deliver(Edge::Rising));
    assert!(!w.deliver(Edge::Falling));
    assert_eq!(w.completions, 1);
    assert_eq!(w.wake(), Action::Return(Ok(())));
    assert_eq!(w.phase, Phase::Returned);
    let before = w;
    assert!(!w.deliver(Edge::Falling));
    assert_eq!(w, before);
}

#[test]
fn registration_failure_returns_error_without_suspending() {
    let mut w = PendingWait::new(WaitOp::RisingEdge);
    assert_eq!(w.start(Level::Low), Action::Arm(EdgeKind::Rising));
    assert_eq!(
        w.registered(false),
        Action::Return(Err(WaitError::RegistrationFailed))
    );
    assert_eq!(w.phase, Phase::Returned);
    assert_eq!(w.outcome, Some(Err(WaitError::RegistrationFailed)));
}

#[test]
fn wait_for_high_fast_path_tests_high_not_low() {
    let mut low = PendingWait::new(WaitOp::High);
    assert_eq!(low.start(Level::Low), Action::Arm(EdgeKind::Rising));
    let mut high = PendingWait::new(WaitOp::High);
    assert_eq!(high.start(Level::High), Action::Return(Ok(())));
    assert_eq!(high.registrations, 0);
}

#[test]
fn fast_path_only_for_matching_level() {
    for level in [Level::High, Level::Low] {
        for (op, target) in [(WaitOp::Low, Level::Low), (WaitOp::High, Level::High)] {
            let mut w = PendingWait::new(op);
            let fast = w.start(level) == Action::Return(Ok(()));
            assert_eq!(fast, level == target);
            assert_eq!(w.registrations == 0, level == target);
        }
    }
    for op in [WaitOp::RisingEdge, WaitOp::FallingEdge, WaitOp::AnyEdge] {
        for level in [Level::High, Level::Low] {
            let mut w = PendingWait::new(op);
            assert!(matches!(w.start(level), Action::Arm(_)));
        }
    }
}

#[test]
fn repeated_callback_completes_exactly_once() {
    let mut w = armed(WaitOp::FallingEdge, Level::High);
    assert_eq!(w.registered(true), Action::Suspend);
    let fired = (0..5).filter(|_| w.deliver(Edge::Falling)).count();
    assert_eq!(fired, 1);
    assert_eq!(w.completions, 1);
    assert_eq!(w.wake(), Action::Return(Ok(())));
}

#[test]
fn edge_before_registration_is_not_missed() {
    let mut w = armed(WaitOp::RisingEdge, Level::Low);
    assert!(w.deliver(Edge::Rising));
    assert_eq!(w.registered(true), Action::Return(Ok(())));
    assert_eq!(w.phase, Phase::Returned);
}

#[test]
fn edge_before_first_wake_is_not_missed() {
    let mut w = armed(WaitOp::Low, Level::High);
    assert_eq!(w.registered(true), Action::Suspend);
    assert!(w.deliver(Edge::Falling));
    assert_eq!(w.wake(), Action::Return(Ok(())));
}

#[test]
fn wrong_edge_kind_does_not_complete() {
    let mut rising = armed(WaitOp::RisingEdge, Level::Low);
    rising.registered(true);
    let before = rising;
    assert!(!rising.deliver(Edge::Falling));
    assert_eq!(rising, before);
    assert_eq!(rising.wake(), Action::Suspend);
    assert!(rising.deliver(Edge::Rising));

    let mut falling = armed(WaitOp::FallingEdge, Level::High);
    falling.registered(true);
    assert!(!falling.deliver(Edge::Rising));
    assert!(falling.deliver(Edge::Falling));

    let mut any = armed(WaitOp::AnyEdge, Level::Low);
    any.registered(true);
    assert!(any.deliver(Edge::Falling));
}

#[test]
fn spurious_wake_suspends_again() {
    let mut w = armed(WaitOp::AnyEdge, Level::Low);
    assert_eq!(w.registered(true), Action::Suspend);
    assert_eq!(w.wake(), Action::Suspend);
    assert_eq!(w.phase, Phase::Armed);
}

#[test]
fn closed_source_before_edge_is_an_error() {
    let mut w = armed(WaitOp::FallingEdge, Level::High);
    w.registered(true);
    assert_eq!(w.close(), Action::Return(Err(WaitError::ChannelClosed)));
    assert_eq!(w.outcome, Some(Err(WaitError::ChannelClosed)));
}

#[test]
fn closed_source_after_edge_still_succeeds() {
    let mut w = armed(WaitOp::FallingEdge, Level::High);
    w.registered(true);
    assert!(w.deliver(Edge::Falling));
    assert_eq!(w.close(), Action::Return(Ok(())));
}

#[test]
fn registration_failure_wins_over_early_edge() {
    let mut w = armed(WaitOp::AnyEdge, Level::High);
    assert!(w.deliver(Edge::Rising));
    assert_eq!(
        w.registered(false),
        Action::Return(Err(WaitError::RegistrationFailed))
    );
}

#[test]
fn armed_kind_per_operation() {
    assert_eq!(WaitOp::Low.armed_kind(), EdgeKind::Falling);
    assert_eq!(WaitOp::FallingEdge.armed_kind(), EdgeKind::Falling);
    assert_eq!(WaitOp::High.armed_kind(), EdgeKind::Rising);
    assert_eq!(WaitOp::RisingEdge.armed_kind(), EdgeKind::Rising);
    assert_eq!(WaitOp::AnyEdge.armed_kind(), EdgeKind::Either);
    assert!(WaitOp::Low.fast_path(Level::Low));
    assert!(!WaitOp::Low.fast_path(Level::High));
    assert!(WaitOp::High.fast_path(Level::High));
    assert!(!WaitOp::AnyEdge.fast_path(Level::High));
}

#[test]
fn level_predicates_and_edges() {
    assert!(Level::High.is_high());
    assert!(!Level::High.is_low());
    assert!(Level::Low.is_low());
    assert_eq!(Level::Low.toggled(), Level::High);
    assert_eq!(Level::High.toggled(), Level::Low);
    assert_eq!(Edge::between(Level::Low, Level::High), Some(Edge::Rising));
    assert_eq!(Edge::between(Level::High, Level::Low), Some(Edge::Falling));
    assert_eq!(Edge::between(Level::High, Level::High), None);
    assert_eq!(Edge::Rising.level_after(), Level::High);
    assert_eq!(Edge::Falling.level_after(), Level::Low);
    assert!(EdgeKind::Rising.accepts(Edge::Rising));
    assert!(!EdgeKind::Rising.accepts(Edge::Falling));
    assert!(!EdgeKind::Falling.accepts(Edge::Rising));
    assert!(EdgeKind::Either.accepts(Edge::Falling));
}
