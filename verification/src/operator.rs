//! The operator-facing state and the decisions behind each requested action.
//!
//! One caller issues one discrete action at a time: capture, connect, execute
//! the last prediction, or an explicit takeoff or land. The decisions — what
//! a classifier result does to the state, whether a connection attempt is
//! due, and which command an execution request dispatches — live here; the
//! driver performs the device work they call for.

use vstd::prelude::*;

use crate::history::Prediction;
use crate::history::PredictionHistory;
use crate::movements::CommandRequest;
use crate::movements::Movements;
use crate::movements::spec_command_for;
use crate::movements::spec_resolve;

verus! {

/// Talking to the classifier service failed; the caller abandons the current
/// action and leaves prior state — connection gate and history — unchanged.
#[derive(Clone, Copy, Debug, PartialEq, Eq, Structural)]
pub enum ClassificationError {
    /// The execution context for the round trip could not be set up.
    ExecutorSetup,
    /// The network call failed or the answer did not decode.
    RoundTrip,
}

/// What the operator sees and what past results are remembered.
pub struct OperatorState {
    /// The label of the most recent classification; empty before the first.
    pub movement: String,
    /// The occurrence count of the most recent classification.
    pub reading_counter: usize,
    /// Every classification result, oldest first.
    pub history: PredictionHistory,
    /// True only after a successful device handshake; never reset.
    pub connection: bool,
}

impl OperatorState {
    /// The initial state: nothing predicted, nothing connected.
    pub fn new() -> (s: OperatorState)
        ensures
            s.movement@ == Seq::<char>::empty(),
            s.reading_counter == 0,
            s.history.spec_records() == Seq::<Prediction>::empty(),
            !s.connection,
    {
        OperatorState {
            movement: String::new(),
            reading_counter: 0,
            history: PredictionHistory::new(),
            connection: false,
        }
    }

    /// Takes one classifier result in: the displayed label and count follow
    /// the new record, and the record is appended to the history, which keeps
    /// everything already stored in its order. The connection gate does not
    /// move.
    pub fn record_prediction(&mut self, prediction: Prediction)
        ensures
            final(self).movement@ == prediction.prediction_label@,
            final(self).reading_counter == prediction.prediction_count,
            final(self).history.spec_records() == old(self).history.spec_records().push(
                prediction,
            ),
            final(self).connection == old(self).connection,
    {
        self.movement = prediction.prediction_label.clone();
        self.reading_counter = prediction.prediction_count;
        self.history.append(prediction);
    }

    /// Whether a connection request should attempt the handshake at all: an
    /// already connected state ignores the request.
    pub fn connect_needed(&self) -> (b: bool)
        ensures
            b == !self.connection,
    {
        !self.connection
    }

    /// Marks the handshake as completed; everything else stays.
    pub fn mark_connected(&mut self)
        ensures
            final(self).connection,
            final(self).movement == old(self).movement,
            final(self).reading_counter == old(self).reading_counter,
            final(self).history == old(self).history,
    {
        self.connection = true;
    }

    /// What an execution request dispatches: nothing while unconnected,
    /// otherwise the command the last predicted label resolves to — which is
    /// `NoOp` for an unrecognized label, so classifier noise dispatches
    /// nothing.
    pub fn planned_command(&self) -> (c: Option<CommandRequest>)
        ensures
            self.connection ==> c == Some(spec_command_for(spec_resolve(self.movement@))),
            !self.connection ==> c is None,
    {
        if !self.connection {
            None
        } else {
            Some(Movements::resolve(self.movement.as_str()).command())
        }
    }
}

} // verus!
