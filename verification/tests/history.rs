use brain_reader::decimal::decimal_string;
use brain_reader::history::display_count;
use brain_reader::history::display_prediction;
use brain_reader::history::Prediction;
use brain_reader::history::PredictionHistory;

fn record(label: &str, count: usize) -> Prediction {
    Prediction { prediction_label: label.to_string(), prediction_count: count }
}

#[test]
fn decimal_renders_exactly() {
    assert_eq!(decimal_string(0), "0");
    assert_eq!(decimal_string(7), "7");
    assert_eq!(decimal_string(10), "10");
    assert_eq!(decimal_string(90), "90");
    assert_eq!(decimal_string(12345), "12345");
}

#[test]
fn empty_history_renders_empty() {
    let history: Vec<Prediction> = Vec::new();
    assert_eq!(display_prediction(&history), "");
    assert_eq!(display_count(&history), "");
}

#[test]
fn a_single_record_renders_without_a_newline() {
    let history = vec![record("takeoff", 4)];
    assert_eq!(display_prediction(&history), "takeoff");
    assert_eq!(display_count(&history), "4");
}

#[test]
fn reversed_rendering_is_most_recent_first() {
    let history = vec![record("Forward", 1), record("Land", 2)];
    assert_eq!(display_prediction(&history), "Land\nForward");
    assert_eq!(display_count(&history), "2\n1");
    // Storage order is untouched by rendering.
    assert_eq!(history[0].prediction_label, "Forward");
    assert_eq!(history[1].prediction_label, "Land");
}

#[test]
fn append_preserves_order_and_render_reverses() {
    let mut history = PredictionHistory::new();
    assert_eq!(history.len(), 0);
    history.append(record("Forward", 1));
    history.append(record("Land", 2));
    assert_eq!(history.len(), 2);
    assert_eq!(history.record_at(0).prediction_label, "Forward");
    assert_eq!(history.record_at(0).prediction_count, 1);
    assert_eq!(history.record_at(1).prediction_label, "Land");
    assert_eq!(history.record_at(1).prediction_count, 2);
    assert_eq!(history.render_reversed_labels(), "Land\nForward");
    assert_eq!(history.render_reversed_counts(), "2\n1");
    // Rendering mutates nothing: the stored order is still oldest first.
    assert_eq!(history.record_at(0).prediction_label, "Forward");
    assert_eq!(history.record_at(1).prediction_label, "Land");
}

#[test]
fn streams_reverse_in_lockstep() {
    let mut history = PredictionHistory::new();
    history.append(record("takeoff", 3));
    history.append(record("left", 1));
    history.append(record("backward", 9));
    let labels = history.render_reversed_labels();
    let counts = history.render_reversed_counts();
    let label_lines: Vec<&str> = labels.lines().collect();
    let count_lines: Vec<&str> = counts.lines().collect();
    assert_eq!(label_lines, vec!["backward", "left", "takeoff"]);
    assert_eq!(count_lines, vec!["9", "1", "3"]);
}
