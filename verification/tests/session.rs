use brain_reader::mapping::SampleMapping;
use brain_reader::session::AcquisitionSession;
use brain_reader::session::CaptureStep;

fn matrix(channels: usize, samples: usize) -> Vec<Vec<f64>> {
    let mut rows = Vec::new();
    for i in 0..channels {
        let mut row = Vec::new();
        for j in 0..samples {
            row.push(i as f64 + j as f64 / 1000.0);
        }
        rows.push(row);
    }
    rows
}

#[test]
fn full_cycle_yields_one_sequence_per_channel_row() {
    // A capture window of 2 seconds at 10 samples per second.
    let mut session: AcquisitionSession<f64> = AcquisitionSession::new(10, 2);
    assert_eq!(session.pending_step(), Some(CaptureStep::Prepare));
    session.note_prepared(true);
    assert_eq!(session.pending_step(), Some(CaptureStep::Start));
    session.note_started(true);
    assert_eq!(session.capture_window_secs(), 2);
    assert_eq!(session.pending_step(), Some(CaptureStep::Stop));
    session.note_stopped(true);
    assert_eq!(session.pending_step(), Some(CaptureStep::Drain));
    assert_eq!(session.expected_samples(), Some(20));
    session.note_drained(Some(matrix(4, 20)));
    assert_eq!(session.pending_step(), Some(CaptureStep::Release));
    session.note_released(true);
    assert_eq!(session.pending_step(), None);

    let mapping = session.finish().expect("a released capture yields a mapping");
    // Exactly one key per channel row, every sequence as long as the window.
    assert_eq!(mapping.channel_count(), 4);
    for i in 0..4 {
        assert_eq!(mapping.samples_of(i).len(), 20);
    }
    assert_eq!(SampleMapping::<f64>::key_of(0), "c0");
    assert_eq!(SampleMapping::<f64>::key_of(3), "c3");
    assert_eq!(mapping.samples_of(2)[5], 2.005);
}

#[test]
fn drain_failure_is_tagged_and_yields_no_mapping() {
    let mut session: AcquisitionSession<f64> = AcquisitionSession::new(250, 10);
    session.note_prepared(true);
    session.note_started(true);
    session.note_stopped(true);
    // The fetch of the buffered matrix fails: the remaining steps are
    // aborted and no mapping, partial or otherwise, comes out.
    session.note_drained(None);
    assert_eq!(session.pending_step(), None);
    let error = session.finish().expect_err("a failed capture yields the tagged error");
    assert_eq!(error.step, CaptureStep::Drain);
}

#[test]
fn each_failing_step_tags_the_error() {
    let mut s1: AcquisitionSession<f64> = AcquisitionSession::new(250, 10);
    s1.note_prepared(false);
    assert_eq!(s1.finish().unwrap_err().step, CaptureStep::Prepare);

    let mut s2: AcquisitionSession<f64> = AcquisitionSession::new(250, 10);
    s2.note_prepared(true);
    s2.note_started(false);
    assert_eq!(s2.finish().unwrap_err().step, CaptureStep::Start);

    let mut s3: AcquisitionSession<f64> = AcquisitionSession::new(250, 10);
    s3.note_prepared(true);
    s3.note_started(true);
    s3.note_stopped(false);
    assert_eq!(s3.finish().unwrap_err().step, CaptureStep::Stop);

    let mut s4: AcquisitionSession<f64> = AcquisitionSession::new(250, 10);
    s4.note_prepared(true);
    s4.note_started(true);
    s4.note_stopped(true);
    s4.note_drained(Some(matrix(2, 4)));
    s4.note_released(false);
    assert_eq!(s4.finish().unwrap_err().step, CaptureStep::Release);
}

#[test]
fn expected_samples_reports_overflow_as_none() {
    let session: AcquisitionSession<f64> = AcquisitionSession::new(u64::MAX, 2);
    assert_eq!(session.expected_samples(), None);
}
