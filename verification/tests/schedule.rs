use export_metrics::error::DeliveryFailure;
use export_metrics::schedule::{
    write_system_metric_by_handler, write_system_metric_by_network, HandlerEvent, LoopAction,
    LoopState, NetworkEvent,
};

#[test]
fn loop_starts_waiting_for_the_first_tick() {
    assert_eq!(LoopState::start(), LoopState::WaitingFirstTick);
}

#[test]
fn first_tick_produces_no_request() {
    let (state, action) = write_system_metric_by_network(LoopState::start(), NetworkEvent::Tick);
    assert_eq!(action, LoopAction::Wait);
    assert_eq!(state, LoopState::Idle);
}

#[test]
fn second_tick_begins_the_first_export() {
    let (state, _) = write_system_metric_by_network(LoopState::start(), NetworkEvent::Tick);
    let (state, action) = write_system_metric_by_network(state, NetworkEvent::Tick);
    assert_eq!(action, LoopAction::Export);
    assert_eq!(state, LoopState::Exporting);
}

#[test]
fn success_status_ends_the_export_quietly() {
    let (state, action) = write_system_metric_by_network(LoopState::Exporting, NetworkEvent::Responded(204));
    assert_eq!((state, action), (LoopState::Idle, LoopAction::Wait));
}

#[test]
fn failure_status_is_reported_and_the_next_tick_exports() {
    let (state, action) = write_system_metric_by_network(LoopState::Exporting, NetworkEvent::Responded(503));
    assert_eq!(action, LoopAction::Report(DeliveryFailure::Status(503)));
    assert_eq!(state, LoopState::Idle);
    let (state, action) = write_system_metric_by_network(state, NetworkEvent::Tick);
    assert_eq!((state, action), (LoopState::Exporting, LoopAction::Export));
}

#[test]
fn transport_error_is_reported_and_the_next_tick_exports() {
    let failure = DeliveryFailure::Transport("connection refused".to_string());
    let (state, action) =
        write_system_metric_by_network(LoopState::Exporting, NetworkEvent::Failed(failure.clone()));
    assert_eq!((state, action), (LoopState::Idle, LoopAction::Report(failure)));
    let (state, action) = write_system_metric_by_network(state, NetworkEvent::Tick);
    assert_eq!((state, action), (LoopState::Exporting, LoopAction::Export));
}

#[test]
fn compression_failure_is_reported_like_any_other() {
    let (state, action) = write_system_metric_by_network(
        LoopState::Exporting,
        NetworkEvent::Failed(DeliveryFailure::Compression),
    );
    assert_eq!((state, action), (LoopState::Idle, LoopAction::Report(DeliveryFailure::Compression)));
}

#[test]
fn tick_during_an_export_begins_no_second_export() {
    let (state, action) = write_system_metric_by_network(LoopState::Exporting, NetworkEvent::Tick);
    assert_eq!((state, action), (LoopState::Exporting, LoopAction::Wait));
    let (state, action) = write_system_metric_by_handler(LoopState::Exporting, HandlerEvent::Tick);
    assert_eq!((state, action), (LoopState::Exporting, LoopAction::Wait));
}

#[test]
fn end_of_an_export_that_was_not_under_way_changes_no_state() {
    let (state, action) = write_system_metric_by_network(LoopState::Idle, NetworkEvent::Responded(200));
    assert_eq!((state, action), (LoopState::Idle, LoopAction::Wait));
    let (state, action) =
        write_system_metric_by_network(LoopState::WaitingFirstTick, NetworkEvent::Responded(500));
    assert_eq!(
        (state, action),
        (LoopState::WaitingFirstTick, LoopAction::Report(DeliveryFailure::Status(500)))
    );
}

#[test]
fn network_loop_exports_once_per_tick_after_the_first() {
    let mut state = LoopState::start();
    let mut exports = 0;
    let mut reports = 0;
    for tick in 0..10u16 {
        let (next, action) = write_system_metric_by_network(state, NetworkEvent::Tick);
        state = next;
        if tick == 0 {
            assert_eq!(action, LoopAction::Wait);
            continue;
        }
        assert_eq!(action, LoopAction::Export);
        exports += 1;
        let status = if tick % 2 == 0 { 200 } else { 500 };
        let (next, action) = write_system_metric_by_network(state, NetworkEvent::Responded(status));
        state = next;
        assert_eq!(state, LoopState::Idle);
        match action {
            LoopAction::Wait => assert_eq!(status, 200),
            LoopAction::Report(failure) => {
                assert_eq!(failure, DeliveryFailure::Status(500));
                reports += 1;
            }
            LoopAction::Export => panic!("a finished export begins no other"),
        }
    }
    assert_eq!(exports, 9);
    assert_eq!(reports, 5);
}

#[test]
fn handler_loop_discards_the_first_tick() {
    let (state, action) = write_system_metric_by_handler(LoopState::start(), HandlerEvent::Tick);
    assert_eq!((state, action), (LoopState::Idle, LoopAction::Wait));
    let (state, action) = write_system_metric_by_handler(state, HandlerEvent::Tick);
    assert_eq!((state, action), (LoopState::Exporting, LoopAction::Export));
}

#[test]
fn handler_error_is_reported_and_the_next_tick_exports() {
    let (state, action) = write_system_metric_by_handler(
        LoopState::Exporting,
        HandlerEvent::Rejected("table not found".to_string()),
    );
    assert_eq!(action, LoopAction::Report(DeliveryFailure::Handler("table not found".to_string())));
    assert_eq!(state, LoopState::Idle);
    let (state, action) = write_system_metric_by_handler(state, HandlerEvent::Tick);
    assert_eq!((state, action), (LoopState::Exporting, LoopAction::Export));
}

#[test]
fn handler_success_ends_the_export_quietly() {
    let (state, action) = write_system_metric_by_handler(LoopState::Exporting, HandlerEvent::Written);
    assert_eq!((state, action), (LoopState::Idle, LoopAction::Wait));
}

#[test]
fn on_tick_and_on_finished_agree_with_the_loops() {
    assert_eq!(LoopState::Idle.on_tick(), (LoopState::Exporting, LoopAction::Export));
    assert_eq!(LoopState::WaitingFirstTick.on_tick(), (LoopState::Idle, LoopAction::Wait));
    assert_eq!(LoopState::Exporting.on_finished(Ok(())), (LoopState::Idle, LoopAction::Wait));
    assert_eq!(
        LoopState::Exporting.on_finished(Err(DeliveryFailure::Headers)),
        (LoopState::Idle, LoopAction::Report(DeliveryFailure::Headers))
    );
    assert_eq!(
        LoopState::Exporting.on_finished(Err(DeliveryFailure::Encoding("bad".to_string()))),
        (LoopState::Idle, LoopAction::Report(DeliveryFailure::Encoding("bad".to_string())))
    );
}
