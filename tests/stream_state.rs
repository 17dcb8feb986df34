use drift_engine::{Step, StreamState, UpdateError};

#[test]
fn fresh_stream_has_defaults() {
    let s: StreamState<f32, f32, f64> = StreamState::new(0.0, 0.0);
    assert!(s.state().is_empty());
    assert_eq!(*s.last_drift(), 0.0);
    assert_eq!(*s.last_updated_at(), 0.0);
    assert_eq!(s.tracker().update_count(), 0);
    assert_eq!(s.check(3), Ok(Step::Baseline));
}

#[test]
fn baseline_records_vector_and_time_not_drift() {
    let mut s: StreamState<f32, f32, f64> = StreamState::new(0.0, 0.0);
    assert_eq!(s.check(2), Ok(Step::Baseline));
    s.set_baseline(vec![0.5, 0.0], 0.0);
    assert_eq!(s.state(), &vec![0.5, 0.0]);
    assert_eq!(*s.last_drift(), 0.0);
    assert_eq!(*s.last_updated_at(), 0.0);
    assert_eq!(s.tracker().update_count(), 1);
    assert_eq!(s.tracker().dimension(), Some(2));
}

#[test]
fn two_updates_on_a_plane() {
    // alpha 0.5: [1, 0] at t = 0 gives [0.5, 0]; [0, 1] at t = 1 is orthogonal
    // to it (drift 1) and gives [0.25, 0.5].
    let mut s: StreamState<f32, f32, f64> = StreamState::new(0.0, 0.0);
    assert_eq!(s.check(2), Ok(Step::Baseline));
    s.set_baseline(vec![0.5, 0.0], 0.0);
    assert_eq!(s.check(2), Ok(Step::Track));
    s.track(vec![0.25, 0.5], 1.0, 1.0);
    assert_eq!(s.state(), &vec![0.25, 0.5]);
    assert_eq!(*s.last_drift(), 1.0);
    assert_eq!(*s.last_updated_at(), 1.0);
    assert_eq!(s.tracker().update_count(), 2);
}

#[test]
fn refusals_leave_stream_unchanged() {
    let mut s: StreamState<f32, f32, f64> = StreamState::new(0.0, 0.0);
    assert_eq!(s.check(0), Err(UpdateError::EmptyEmbedding));
    assert!(s.state().is_empty());
    s.set_baseline(vec![1.0, 2.0, 3.0], 5.0);
    assert_eq!(s.check(0), Err(UpdateError::EmptyEmbedding));
    assert_eq!(s.check(2), Err(UpdateError::DimensionMismatch { expected: 3, got: 2 }));
    assert_eq!(s.state(), &vec![1.0, 2.0, 3.0]);
    assert_eq!(*s.last_updated_at(), 5.0);
    assert_eq!(s.tracker().update_count(), 1);
    assert_eq!(s.check(3), Ok(Step::Track));
}

#[test]
fn mismatch_error_reads_both_lengths() {
    let mut s: StreamState<f32, f32, f64> = StreamState::new(0.0, 0.0);
    s.set_baseline(vec![0.0; 4], 0.0);
    let e = s.check(7).unwrap_err();
    assert_eq!(e.message(), "Embedding dimension mismatch: expected 4, got 7");
}
