//! Observations for the latency histograms. A histogram takes its values as
//! floating-point numbers, so the library says which histogram an elapsed
//! time goes to, under which label values and with which magnitude, and
//! leaves the recording to its caller.

use vstd::prelude::*;
use crate::catalog::Instrument;
use crate::labels::{
    block_outcome_labels, block_outcome_tuple, guest_block_outcome_labels,
    guest_block_outcome_tuple, ProofType,
};

verus! {

/// One value to record on a histogram.
#[derive(Debug)]
pub struct Observation {
    /// The histogram that takes the value.
    pub instrument: Instrument,
    /// The label values of the series, in the order of the histogram's
    /// label names.
    pub labels: Vec<String>,
    /// The elapsed time, in the unit the caller measures in.
    pub value: u128,
}

/// Observe the time taken for the given guest to generate a proof.
pub fn observe_guest_time(guest: &ProofType, block_id: u64, time: u128, success: bool) -> (o:
    Observation)
    ensures
        o.instrument == Instrument::GuestProofTime,
        o.labels.deep_view() == guest_block_outcome_tuple(*guest, block_id, success),
        o.value == time,
{
    Observation {
        instrument: Instrument::GuestProofTime,
        labels: guest_block_outcome_labels(guest, block_id, success),
        value: time,
    }
}

/// Observe the time taken for prepare input.
pub fn observe_prepare_input_time(block_id: u64, time: u128, success: bool) -> (o: Observation)
    ensures
        o.instrument == Instrument::PrepareInputTime,
        o.labels.deep_view() == block_outcome_tuple(block_id, success),
        o.value == time,
{
    Observation {
        instrument: Instrument::PrepareInputTime,
        labels: block_outcome_labels(block_id, success),
        value: time,
    }
}

/// Observe the time taken for the whole request.
pub fn observe_total_time(block_id: u64, time: u128, success: bool) -> (o: Observation)
    ensures
        o.instrument == Instrument::TotalTime,
        o.labels.deep_view() == block_outcome_tuple(block_id, success),
        o.value == time,
{
    Observation {
        instrument: Instrument::TotalTime,
        labels: block_outcome_labels(block_id, success),
        value: time,
    }
}

} // verus!
