use user_server::shutdown::{Action, Coordinator, LoopEvent};

#[test]
fn accepted_connections_get_fresh_ids() {
    let mut c = Coordinator::new();
    assert_eq!(c.on_event(LoopEvent::Accepted), Action::Serve(0));
    assert_eq!(c.on_event(LoopEvent::Accepted), Action::Serve(1));
    assert_eq!(c.on_event(LoopEvent::Accepted), Action::Serve(2));
    assert_eq!(c.in_flight_count(), 3);
}

#[test]
fn connections_close_in_any_order() {
    let mut c = Coordinator::new();
    for _ in 0..3 {
        c.on_event(LoopEvent::Accepted);
    }
    assert_eq!(c.on_event(LoopEvent::Closed(2)), Action::Continue);
    assert_eq!(c.in_flight_count(), 2);
    assert_eq!(c.on_event(LoopEvent::Closed(0)), Action::Continue);
    assert_eq!(c.in_flight_count(), 1);
    assert_eq!(c.on_event(LoopEvent::Closed(0)), Action::Continue);
    assert_eq!(c.in_flight_count(), 1);
    assert_eq!(c.on_event(LoopEvent::Closed(1)), Action::Continue);
    assert_eq!(c.in_flight_count(), 0);
}

#[test]
fn accept_error_keeps_the_loop_going() {
    let mut c = Coordinator::new();
    assert_eq!(c.on_event(LoopEvent::AcceptFailed), Action::ReportAcceptError);
    assert_eq!(c.on_event(LoopEvent::AcceptFailed), Action::ReportAcceptError);
    assert_eq!(c.on_event(LoopEvent::Accepted), Action::Serve(0));
    assert!(!c.is_signaled());
}

#[test]
fn interrupt_stops_accepting() {
    let mut c = Coordinator::new();
    assert_eq!(c.on_event(LoopEvent::Accepted), Action::Serve(0));
    assert_eq!(c.on_event(LoopEvent::Interrupted), Action::Stop);
    assert!(c.is_signaled());
    assert_eq!(c.on_event(LoopEvent::Accepted), Action::Stop);
    assert_eq!(c.on_event(LoopEvent::AcceptFailed), Action::Stop);
    assert_eq!(c.in_flight_count(), 1);
}

#[test]
fn interrupt_fires_once() {
    let mut c = Coordinator::new();
    assert_eq!(c.on_event(LoopEvent::Interrupted), Action::Stop);
    assert_eq!(c.on_event(LoopEvent::Interrupted), Action::Stop);
    assert!(c.is_signaled());
    assert_eq!(c.in_flight_count(), 0);
}

#[test]
fn close_after_interrupt_still_untracks() {
    let mut c = Coordinator::new();
    c.on_event(LoopEvent::Accepted);
    c.on_event(LoopEvent::Accepted);
    c.on_event(LoopEvent::Interrupted);
    assert_eq!(c.on_event(LoopEvent::Closed(1)), Action::Stop);
    assert_eq!(c.in_flight_count(), 1);
}
