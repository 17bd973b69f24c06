//! The instrument catalog: the fixed set of instruments the host maintains,
//! with the name, the description, the kind and the label names of each.

use vstd::prelude::*;
use crate::instruments::{accepted, valid_label_name, valid_metric_name};

verus! {

/// What an instrument measures with.
#[derive(Clone, Copy, Debug, PartialEq, Eq, Structural)]
pub enum InstrumentKind {
    /// A value per series that only grows.
    Counter,
    /// One value that moves up and down.
    Gauge,
    /// A distribution of observed values per series.
    Histogram,
}

/// The instruments of the host.
#[derive(Clone, Copy, Debug, PartialEq, Eq, Structural)]
pub enum Instrument {
    HostRequestCount,
    HostErrorCount,
    GuestProofRequestCount,
    GuestProofSuccessCount,
    GuestProofErrorCount,
    GuestProofTime,
    PrepareInputTime,
    TotalTime,
    ConcurrentRequests,
}

impl Instrument {
    /// The name under which the instrument is exported.
    pub open spec fn name_text(self) -> Seq<char> {
        match self {
            Instrument::HostRequestCount => "host_request_count"@,
            Instrument::HostErrorCount => "host_error_count"@,
            Instrument::GuestProofRequestCount => "guest_proof_request_count"@,
            Instrument::GuestProofSuccessCount => "guest_proof_success_count"@,
            Instrument::GuestProofErrorCount => "guest_proof_error_count"@,
            Instrument::GuestProofTime => "guest_proof_time"@,
            Instrument::PrepareInputTime => "prepare_input_time"@,
            Instrument::TotalTime => "total_time"@,
            Instrument::ConcurrentRequests => "concurrent_requests"@,
        }
    }

    /// The description exported with the instrument.
    pub open spec fn help_text(self) -> Seq<char> {
        match self {
            Instrument::HostRequestCount => "the number of requests sent to the host"@,
            Instrument::HostErrorCount => "the number of failed requests produced by the host"@,
            Instrument::GuestProofRequestCount => "the number of requests sent to this guest"@,
            Instrument::GuestProofSuccessCount => "the number of successful proofs generated by this guest"@,
            Instrument::GuestProofErrorCount => "the number of failed proofs generated by this guest"@,
            Instrument::GuestProofTime => "time taken for proof generation by this guest"@,
            Instrument::PrepareInputTime => "time taken for prepare input"@,
            Instrument::TotalTime => "time taken for the whole request"@,
            Instrument::ConcurrentRequests => "number of requests currently being processed"@,
        }
    }

    /// The kind of the instrument.
    pub open spec fn kind_of(self) -> InstrumentKind {
        match self {
            Instrument::HostRequestCount
            | Instrument::HostErrorCount
            | Instrument::GuestProofRequestCount
            | Instrument::GuestProofSuccessCount
            | Instrument::GuestProofErrorCount => InstrumentKind::Counter,
            Instrument::GuestProofTime
            | Instrument::PrepareInputTime
            | Instrument::TotalTime => InstrumentKind::Histogram,
            Instrument::ConcurrentRequests => InstrumentKind::Gauge,
        }
    }

    /// The label names of the instrument, in the order in which a series
    /// gives their values.
    pub open spec fn label_name_texts(self) -> Seq<Seq<char>> {
        match self {
            Instrument::HostRequestCount | Instrument::HostErrorCount => seq!["block_id"@],
            Instrument::GuestProofRequestCount
            | Instrument::GuestProofSuccessCount
            | Instrument::GuestProofErrorCount => seq!["guest"@, "block_id"@],
            Instrument::GuestProofTime => seq!["guest"@, "block_id"@, "success"@],
            Instrument::PrepareInputTime | Instrument::TotalTime => seq!["block_id"@, "success"@],
            Instrument::ConcurrentRequests => seq![],
        }
    }

    /// The name under which the instrument is exported.
    pub fn name(&self) -> (s: &'static str)
        ensures
            s@ == self.name_text(),
    {
        match self {
            Instrument::HostRequestCount => "host_request_count",
            Instrument::HostErrorCount => "host_error_count",
            Instrument::GuestProofRequestCount => "guest_proof_request_count",
            Instrument::GuestProofSuccessCount => "guest_proof_success_count",
            Instrument::GuestProofErrorCount => "guest_proof_error_count",
            Instrument::GuestProofTime => "guest_proof_time",
            Instrument::PrepareInputTime => "prepare_input_time",
            Instrument::TotalTime => "total_time",
            Instrument::ConcurrentRequests => "concurrent_requests",
        }
    }

    /// The description exported with the instrument.
    pub fn help(&self) -> (s: &'static str)
        ensures
            s@ == self.help_text(),
    {
        match self {
            Instrument::HostRequestCount => "the number of requests sent to the host",
            Instrument::HostErrorCount => "the number of failed requests produced by the host",
            Instrument::GuestProofRequestCount => "the number of requests sent to this guest",
            Instrument::GuestProofSuccessCount => "the number of successful proofs generated by this guest",
            Instrument::GuestProofErrorCount => "the number of failed proofs generated by this guest",
            Instrument::GuestProofTime => "time taken for proof generation by this guest",
            Instrument::PrepareInputTime => "time taken for prepare input",
            Instrument::TotalTime => "time taken for the whole request",
            Instrument::ConcurrentRequests => "number of requests currently being processed",
        }
    }

    /// The kind of the instrument.
    pub fn kind(&self) -> (k: InstrumentKind)
        ensures
            k == self.kind_of(),
    {
        match self {
            Instrument::HostRequestCount
            | Instrument::HostErrorCount
            | Instrument::GuestProofRequestCount
            | Instrument::GuestProofSuccessCount
            | Instrument::GuestProofErrorCount => InstrumentKind::Counter,
            Instrument::GuestProofTime
            | Instrument::PrepareInputTime
            | Instrument::TotalTime => InstrumentKind::Histogram,
            Instrument::ConcurrentRequests => InstrumentKind::Gauge,
        }
    }

    /// The label names of the instrument, in declaration order.
    pub fn label_names(&self) -> (names: Vec<&'static str>)
        ensures
            names@.len() == self.label_name_texts().len(),
            forall|i: int| 0 <= i < names@.len() ==> (#[trigger] names@[i])@ == self.label_name_texts()[i],
    {
        let mut names: Vec<&'static str> = Vec::new();
        match self {
            Instrument::HostRequestCount | Instrument::HostErrorCount => {
                names.push("block_id");
            },
            Instrument::GuestProofRequestCount
            | Instrument::GuestProofSuccessCount
            | Instrument::GuestProofErrorCount => {
                names.push("guest");
                names.push("block_id");
            },
            Instrument::GuestProofTime => {
                names.push("guest");
                names.push("block_id");
                names.push("success");
            },
            Instrument::PrepareInputTime | Instrument::TotalTime => {
                names.push("block_id");
                names.push("success");
            },
            Instrument::ConcurrentRequests => {},
        }
        names
    }
}

/// The label names of the catalog are valid label names.
pub proof fn lemma_label_names_are_valid()
    ensures
        valid_label_name("block_id"@),
        valid_label_name("guest"@),
        valid_label_name("success"@),
        "block_id"@ != "guest"@,
        "block_id"@ != "success"@,
        "guest"@ != "success"@,
{
    reveal_strlit("block_id");
    reveal_strlit("guest");
    reveal_strlit("success");
    assert("block_id"@.len() != "guest"@.len());
    assert("block_id"@.len() != "success"@.len());
    assert("guest"@.len() != "success"@.len());
}

/// The names of the catalog are valid metric names.
pub proof fn lemma_names_are_valid(instrument: Instrument)
    ensures
        valid_metric_name(instrument.name_text()),
{
    reveal_strlit("host_request_count");
    reveal_strlit("host_error_count");
    reveal_strlit("guest_proof_request_count");
    reveal_strlit("guest_proof_success_count");
    reveal_strlit("guest_proof_error_count");
    reveal_strlit("guest_proof_time");
    reveal_strlit("prepare_input_time");
    reveal_strlit("total_time");
    reveal_strlit("concurrent_requests");
}

/// Every instrument of the catalog has a description that `prometheus`
/// accepts: creating it cannot fail.
pub proof fn lemma_catalog_is_accepted(instrument: Instrument)
    ensures
        accepted(instrument.name_text(), instrument.help_text(), instrument.label_name_texts()),
{
    lemma_label_names_are_valid();
    lemma_names_are_valid(instrument);
    reveal_strlit("the number of requests sent to the host");
    reveal_strlit("the number of failed requests produced by the host");
    reveal_strlit("the number of requests sent to this guest");
    reveal_strlit("the number of successful proofs generated by this guest");
    reveal_strlit("the number of failed proofs generated by this guest");
    reveal_strlit("time taken for proof generation by this guest");
    reveal_strlit("time taken for prepare input");
    reveal_strlit("time taken for the whole request");
    reveal_strlit("number of requests currently being processed");
}

} // verus!
