//! The append-only log of classification results and its reversed rendering.
//!
//! The history is only ever appended to; it is never truncated or reordered.
//! Rendering walks from the most recent record to the oldest, one line per
//! record, without touching the stored order. The label stream and the count
//! stream are rendered by the same traversal, so they reverse in lockstep.

use vstd::prelude::*;
use vstd::string::StringExecFns;

use crate::decimal::spec_decimal;
use crate::decimal::decimal_string;

verus! {

/// One classifier result: the predicted movement label and how often the
/// classifier has seen it.
pub struct Prediction {
    pub prediction_label: String,
    pub prediction_count: usize,
}

/// The reversed label stream: one line per record, most recent first, the
/// lines separated by single newlines, with no trailing newline.
pub open spec fn spec_labels_reversed(h: Seq<Prediction>) -> Seq<char>
    decreases h.len(),
{
    if h.len() == 0 {
        Seq::empty()
    } else if h.len() == 1 {
        h.last().prediction_label@
    } else {
        h.last().prediction_label@ + seq!['\n'] + spec_labels_reversed(h.drop_last())
    }
}

/// The reversed count stream: one line per record, most recent first, each
/// count rendered in decimal, the lines separated by single newlines, with no
/// trailing newline.
pub open spec fn spec_counts_reversed(h: Seq<Prediction>) -> Seq<char>
    decreases h.len(),
{
    if h.len() == 0 {
        Seq::empty()
    } else if h.len() == 1 {
        spec_decimal(h.last().prediction_count as nat)
    } else {
        spec_decimal(h.last().prediction_count as nat) + seq!['\n'] + spec_counts_reversed(
            h.drop_last(),
        )
    }
}

/// Renders the label of every record, most recent first.
pub fn display_prediction(history: &Vec<Prediction>) -> (r: String)
    ensures
        r@ == spec_labels_reversed(history@),
{
    let mut predictions = String::new();
    proof {
        reveal_strlit("\n");
    }
    for i in 0..history.len()
        invariant
            predictions@ == spec_labels_reversed(history@.take(i as int)),
            "\n"@ == seq!['\n'],
    {
        let entry = &history[i];
        if i == 0 {
            predictions = entry.prediction_label.clone();
        } else {
            predictions = entry.prediction_label.clone().concat("\n").concat(
                predictions.as_str(),
            );
        }
        proof {
            assert(history@.take(i + 1).drop_last() =~= history@.take(i as int));
            assert(history@.take(i + 1).last() == history@[i as int]);
        }
    }
    proof {
        assert(history@.take(history@.len() as int) =~= history@);
    }
    predictions
}

/// Renders the count of every record, most recent first.
pub fn display_count(history: &Vec<Prediction>) -> (r: String)
    ensures
        r@ == spec_counts_reversed(history@),
{
    let mut counts = String::new();
    proof {
        reveal_strlit("\n");
    }
    for i in 0..history.len()
        invariant
            counts@ == spec_counts_reversed(history@.take(i as int)),
            "\n"@ == seq!['\n'],
    {
        let entry = &history[i];
        if i == 0 {
            counts = decimal_string(entry.prediction_count);
        } else {
            counts = decimal_string(entry.prediction_count).concat("\n").concat(counts.as_str());
        }
        proof {
            assert(history@.take(i + 1).drop_last() =~= history@.take(i as int));
            assert(history@.take(i + 1).last() == history@[i as int]);
        }
    }
    proof {
        assert(history@.take(history@.len() as int) =~= history@);
    }
    counts
}

/// Append-only storage for classifier results.
pub struct PredictionHistory {
    records: Vec<Prediction>,
}

impl PredictionHistory {
    /// What the history holds, oldest first.
    pub closed spec fn spec_records(&self) -> Seq<Prediction> {
        self.records@
    }

    /// An empty history.
    pub fn new() -> (h: PredictionHistory)
        ensures
            h.spec_records() == Seq::<Prediction>::empty(),
    {
        PredictionHistory { records: Vec::new() }
    }

    /// Appends one record; insertion order is preserved and nothing already
    /// stored changes.
    pub fn append(&mut self, record: Prediction)
        ensures
            final(self).spec_records() == old(self).spec_records().push(record),
    {
        self.records.push(record);
    }

    /// How many records are stored.
    pub fn len(&self) -> (n: usize)
        ensures
            n == self.spec_records().len(),
    {
        self.records.len()
    }

    /// The record at a position, oldest first.
    pub fn record_at(&self, i: usize) -> (p: &Prediction)
        requires
            i < self.spec_records().len(),
        ensures
            *p == self.spec_records()[i as int],
    {
        &self.records[i]
    }

    /// The reversed label stream, most recent first; storage is untouched.
    pub fn render_reversed_labels(&self) -> (r: String)
        ensures
            r@ == spec_labels_reversed(self.spec_records()),
    {
        display_prediction(&self.records)
    }

    /// The reversed count stream, most recent first; storage is untouched.
    pub fn render_reversed_counts(&self) -> (r: String)
        ensures
            r@ == spec_counts_reversed(self.spec_records()),
    {
        display_count(&self.records)
    }
}

/// Appending a record puts that record — and only that record — at the front
/// of both reversed streams: the label stream gains the new label as its
/// first line and the count stream gains the new count as its first line,
/// separated by one newline from the rendering of the old history, which
/// stays intact behind it (a first record's line is the whole rendering).
/// The two streams therefore reverse in lockstep with the same record order.
pub proof fn lemma_render_reversed_append(h: Seq<Prediction>, p: Prediction)
    ensures
        h.len() == 0 ==> spec_labels_reversed(h.push(p)) == p.prediction_label@
            && spec_counts_reversed(h.push(p)) == spec_decimal(p.prediction_count as nat),
        h.len() > 0 ==> spec_labels_reversed(h.push(p)) == p.prediction_label@ + seq!['\n']
            + spec_labels_reversed(h) && spec_counts_reversed(h.push(p)) == spec_decimal(
            p.prediction_count as nat,
        ) + seq!['\n'] + spec_counts_reversed(h),
{
    assert(h.push(p).drop_last() =~= h);
    assert(h.push(p).last() == p);
}

} // verus!
