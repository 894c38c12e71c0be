//! The lifecycle of one fixed-duration sensor capture.
//!
//! A capture walks an ordered sequence of steps — prepare the board session,
//! start the stream, wait out the capture window, stop the stream, drain the
//! buffered sample matrix, release the board — and any step's failure aborts
//! the rest, surfacing an error tagged with the failing step. The session
//! records which step is due next and what each step's outcome did to the
//! state; the driver performs the device work itself and reports back.

use vstd::prelude::*;

use crate::mapping::SampleMapping;

verus! {

/// One step of the capture pipeline.
#[derive(Clone, Copy, Debug, PartialEq, Eq, Structural)]
pub enum CaptureStep {
    /// Allocate and open the sensor-board session.
    Prepare,
    /// Start the data stream.
    Start,
    /// Halt the stream after the capture window has passed.
    Stop,
    /// Fetch the complete buffered sample matrix.
    Drain,
    /// Free the board resources.
    Release,
}

/// Where a capture stands. `Released` and `Failed` are terminal.
#[derive(Clone, Copy, Debug, PartialEq, Eq, Structural)]
pub enum SessionState {
    Idle,
    Prepared,
    Streaming,
    Stopped,
    Drained,
    Released,
    Failed(CaptureStep),
}

/// A capture-pipeline step failed; the error carries which one.
#[derive(Clone, Copy, Debug, PartialEq, Eq, Structural)]
pub struct AcquisitionError {
    pub step: CaptureStep,
}

/// The step a session in the given state owes next; terminal states owe
/// nothing.
pub open spec fn spec_pending_step(s: SessionState) -> Option<CaptureStep> {
    match s {
        SessionState::Idle => Some(CaptureStep::Prepare),
        SessionState::Prepared => Some(CaptureStep::Start),
        SessionState::Streaming => Some(CaptureStep::Stop),
        SessionState::Stopped => Some(CaptureStep::Drain),
        SessionState::Drained => Some(CaptureStep::Release),
        SessionState::Released => None,
        SessionState::Failed(_) => None,
    }
}

/// One full sensor-capture cycle: drives `Idle → Prepared → Streaming →
/// Stopped → Drained → Released`, with `Failed` reachable from every
/// non-terminal state, and reshapes the drained matrix on success.
pub struct AcquisitionSession<T> {
    state: SessionState,
    sample_rate: u64,
    duration_secs: u64,
    samples: Vec<Vec<T>>,
}

impl<T> AcquisitionSession<T> {
    /// Where the capture stands.
    pub closed spec fn spec_state(&self) -> SessionState {
        self.state
    }

    /// The advertised sample rate of the board.
    pub closed spec fn spec_sample_rate(&self) -> u64 {
        self.sample_rate
    }

    /// The fixed wall-clock length of the capture window, in seconds.
    pub closed spec fn spec_duration_secs(&self) -> u64 {
        self.duration_secs
    }

    /// The raw drained matrix: rows are channels, columns time-ordered
    /// samples.
    pub closed spec fn spec_samples(&self) -> Seq<Seq<T>> {
        self.samples@.map_values(|r: Vec<T>| r@)
    }

    /// A fresh capture at the board's advertised rate and the fixed window
    /// length.
    pub fn new(sample_rate: u64, duration_secs: u64) -> (s: AcquisitionSession<T>)
        ensures
            s.spec_state() == SessionState::Idle,
            s.spec_sample_rate() == sample_rate,
            s.spec_duration_secs() == duration_secs,
            s.spec_samples() == Seq::<Seq<T>>::empty(),
    {
        let s = AcquisitionSession {
            state: SessionState::Idle,
            sample_rate,
            duration_secs,
            samples: Vec::new(),
        };
        proof {
            assert(s.spec_samples() =~= Seq::<Seq<T>>::empty());
        }
        s
    }

    /// The step the driver owes next, in pipeline order; none once the
    /// session is terminal.
    pub fn pending_step(&self) -> (s: Option<CaptureStep>)
        ensures
            s == spec_pending_step(self.spec_state()),
    {
        match self.state {
            SessionState::Idle => Some(CaptureStep::Prepare),
            SessionState::Prepared => Some(CaptureStep::Start),
            SessionState::Streaming => Some(CaptureStep::Stop),
            SessionState::Stopped => Some(CaptureStep::Drain),
            SessionState::Drained => Some(CaptureStep::Release),
            SessionState::Released => None,
            SessionState::Failed(_) => None,
        }
    }

    /// How long the driver must block while the stream accumulates samples.
    pub fn capture_window_secs(&self) -> (d: u64)
        ensures
            d == self.spec_duration_secs(),
    {
        self.duration_secs
    }

    /// How many samples the fixed window should yield per channel: rate times
    /// duration, or nothing when that product does not fit. The driver may
    /// truncate at stream boundaries, so this is the reference point, not a
    /// promise about the device.
    pub fn expected_samples(&self) -> (n: Option<u64>)
        ensures
            self.spec_sample_rate() * self.spec_duration_secs() <= u64::MAX ==> n == Some(
                (self.spec_sample_rate() * self.spec_duration_secs()) as u64,
            ),
            self.spec_sample_rate() * self.spec_duration_secs() > u64::MAX ==> n is None,
    {
        self.sample_rate.checked_mul(self.duration_secs)
    }

    /// Records the outcome of opening the board session.
    pub fn note_prepared(&mut self, ok: bool)
        requires
            old(self).spec_state() == SessionState::Idle,
        ensures
            final(self).spec_state() == if ok {
                SessionState::Prepared
            } else {
                SessionState::Failed(CaptureStep::Prepare)
            },
            final(self).spec_samples() == old(self).spec_samples(),
            final(self).spec_sample_rate() == old(self).spec_sample_rate(),
            final(self).spec_duration_secs() == old(self).spec_duration_secs(),
    {
        self.state = if ok {
            SessionState::Prepared
        } else {
            SessionState::Failed(CaptureStep::Prepare)
        };
    }

    /// Records the outcome of starting the stream.
    pub fn note_started(&mut self, ok: bool)
        requires
            old(self).spec_state() == SessionState::Prepared,
        ensures
            final(self).spec_state() == if ok {
                SessionState::Streaming
            } else {
                SessionState::Failed(CaptureStep::Start)
            },
            final(self).spec_samples() == old(self).spec_samples(),
            final(self).spec_sample_rate() == old(self).spec_sample_rate(),
            final(self).spec_duration_secs() == old(self).spec_duration_secs(),
    {
        self.state = if ok {
            SessionState::Streaming
        } else {
            SessionState::Failed(CaptureStep::Start)
        };
    }

    /// Records the outcome of halting the stream, after the driver has
    /// blocked for the full capture window.
    pub fn note_stopped(&mut self, ok: bool)
        requires
            old(self).spec_state() == SessionState::Streaming,
        ensures
            final(self).spec_state() == if ok {
                SessionState::Stopped
            } else {
                SessionState::Failed(CaptureStep::Stop)
            },
            final(self).spec_samples() == old(self).spec_samples(),
            final(self).spec_sample_rate() == old(self).spec_sample_rate(),
            final(self).spec_duration_secs() == old(self).spec_duration_secs(),
    {
        self.state = if ok {
            SessionState::Stopped
        } else {
            SessionState::Failed(CaptureStep::Stop)
        };
    }

    /// Records the outcome of fetching the buffered sample matrix: the matrix
    /// itself, or nothing when the fetch failed.
    pub fn note_drained(&mut self, data: Option<Vec<Vec<T>>>)
        requires
            old(self).spec_state() == SessionState::Stopped,
        ensures
            data matches Some(rows) ==> final(self).spec_state() == SessionState::Drained
                && final(self).spec_samples() == rows@.map_values(|r: Vec<T>| r@),
            data is None ==> final(self).spec_state() == SessionState::Failed(CaptureStep::Drain)
                && final(self).spec_samples() == old(self).spec_samples(),
            final(self).spec_sample_rate() == old(self).spec_sample_rate(),
            final(self).spec_duration_secs() == old(self).spec_duration_secs(),
    {
        match data {
            Option::Some(rows) => {
                self.samples = rows;
                self.state = SessionState::Drained;
            },
            Option::None => {
                self.state = SessionState::Failed(CaptureStep::Drain);
            },
        }
    }

    /// Records the outcome of freeing the board resources.
    pub fn note_released(&mut self, ok: bool)
        requires
            old(self).spec_state() == SessionState::Drained,
        ensures
            final(self).spec_state() == if ok {
                SessionState::Released
            } else {
                SessionState::Failed(CaptureStep::Release)
            },
            final(self).spec_samples() == old(self).spec_samples(),
            final(self).spec_sample_rate() == old(self).spec_sample_rate(),
            final(self).spec_duration_secs() == old(self).spec_duration_secs(),
    {
        self.state = if ok {
            SessionState::Released
        } else {
            SessionState::Failed(CaptureStep::Release)
        };
    }

    /// Destroys the finished session: a released capture yields the mapping
    /// reshaped from the drained matrix — channel row `i` keyed `c<i>`, row
    /// and sample order preserved — and a failed capture yields the error
    /// tagged with the failing step, never any mapping, partial or otherwise.
    pub fn finish(self) -> (r: Result<SampleMapping<T>, AcquisitionError>)
        requires
            self.spec_state() == SessionState::Released || self.spec_state() matches
                SessionState::Failed(_),
        ensures
            self.spec_state() == SessionState::Released ==> (r matches Ok(m) && m@
                == self.spec_samples()),
            forall|step: CaptureStep|
                self.spec_state() == SessionState::Failed(step) ==> r == Err::<
                    SampleMapping<T>,
                    AcquisitionError,
                >(AcquisitionError { step }),
    {
        match self.state {
            SessionState::Released => Ok(SampleMapping::from_matrix(self.samples)),
            SessionState::Failed(step) => Err(AcquisitionError { step }),
            _ => unreached(),
        }
    }
}

} // verus!
