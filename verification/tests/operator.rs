use brain_reader::history::Prediction;
use brain_reader::movements::CommandRequest;
use brain_reader::operator::OperatorState;

#[test]
fn the_initial_state_is_empty_and_unconnected() {
    let state = OperatorState::new();
    assert_eq!(state.movement, "");
    assert_eq!(state.reading_counter, 0);
    assert_eq!(state.history.len(), 0);
    assert!(!state.connection);
    assert!(state.connect_needed());
}

#[test]
fn recording_a_prediction_updates_display_and_history() {
    let mut state = OperatorState::new();
    state.record_prediction(Prediction {
        prediction_label: "Forward".to_string(),
        prediction_count: 1,
    });
    state.record_prediction(Prediction {
        prediction_label: "Land".to_string(),
        prediction_count: 2,
    });
    assert_eq!(state.movement, "Land");
    assert_eq!(state.reading_counter, 2);
    assert_eq!(state.history.len(), 2);
    assert_eq!(state.history.record_at(0).prediction_label, "Forward");
    assert_eq!(state.history.record_at(1).prediction_label, "Land");
    assert!(!state.connection);
}

#[test]
fn nothing_is_dispatched_while_unconnected() {
    let mut state = OperatorState::new();
    state.record_prediction(Prediction {
        prediction_label: "forward".to_string(),
        prediction_count: 1,
    });
    assert_eq!(state.planned_command(), None);
}

#[test]
fn a_connected_state_dispatches_the_last_prediction() {
    let mut state = OperatorState::new();
    state.mark_connected();
    assert!(!state.connect_needed());
    state.record_prediction(Prediction {
        prediction_label: "forward".to_string(),
        prediction_count: 1,
    });
    assert_eq!(state.planned_command(), Some(CommandRequest::MoveForward(100)));
    state.record_prediction(Prediction {
        prediction_label: "Left".to_string(),
        prediction_count: 4,
    });
    assert_eq!(state.planned_command(), Some(CommandRequest::RotateCounterClockwise(90)));
}

#[test]
fn an_unrecognized_prediction_dispatches_a_noop() {
    let mut state = OperatorState::new();
    state.mark_connected();
    state.record_prediction(Prediction {
        prediction_label: "static noise".to_string(),
        prediction_count: 5,
    });
    assert_eq!(state.planned_command(), Some(CommandRequest::NoOp));
}
