//! The metrics registry: the counters and the in-flight gauge of the host,
//! and the update operations that request handling calls on them.

use vstd::prelude::*;
use crate::catalog::{lemma_catalog_is_accepted, Instrument, InstrumentKind};
use crate::instruments::{
    bump, counter_arity, counter_series, gauge_value, no_series, series_key, step_down, step_up,
    texts, CounterFamily, InFlightGauge,
};
use crate::labels::{
    block_labels, block_tuple, guest_block_labels, guest_block_tuple, ProofType,
};

verus! {

/// Why the registry could not be set up: the exporting registry refused
/// an instrument, as it does one whose name it already holds.
#[derive(Clone, Copy, Debug, PartialEq, Eq, Structural)]
pub struct RegistrationError {
    /// The instrument that was refused.
    pub instrument: Instrument,
}

/// What registering `made` comes to: `made` itself where the exporting
/// registry took it, or the error that names `instrument` as refused.
pub fn registered<T>(instrument: Instrument, made: T, outcome: Result<(), prometheus::Error>) -> (r: Result<T, RegistrationError>)
    ensures
        match outcome {
            Ok(_) => r == Ok::<T, RegistrationError>(made),
            Err(_) => r == Err::<T, RegistrationError>(RegistrationError { instrument }),
        },
{
    match outcome {
        Ok(_) => Ok(made),
        Err(_) => Err(RegistrationError { instrument }),
    }
}

/// What the registry holds: for each counter the count of every series, by
/// series key, and the value of the gauge.
pub struct MetricsState {
    pub host_requests: Map<u64, u64>,
    pub host_errors: Map<u64, u64>,
    pub guest_requests: Map<u64, u64>,
    pub guest_successes: Map<u64, u64>,
    pub guest_errors: Map<u64, u64>,
    pub concurrent_requests: i64,
}

impl MetricsState {
    /// The state of a registry on which nothing was recorded yet.
    pub open spec fn initial() -> MetricsState {
        MetricsState {
            host_requests: Map::empty(),
            host_errors: Map::empty(),
            guest_requests: Map::empty(),
            guest_successes: Map::empty(),
            guest_errors: Map::empty(),
            concurrent_requests: 0,
        }
    }
}

/// The counters and the gauge of the host.
pub struct Metrics {
    host_requests: CounterFamily,
    host_errors: CounterFamily,
    guest_requests: CounterFamily,
    guest_successes: CounterFamily,
    guest_errors: CounterFamily,
    concurrent_requests: InFlightGauge,
}

impl View for Metrics {
    type V = MetricsState;

    closed spec fn view(&self) -> MetricsState {
        MetricsState {
            host_requests: counter_series(self.host_requests),
            host_errors: counter_series(self.host_errors),
            guest_requests: counter_series(self.guest_requests),
            guest_successes: counter_series(self.guest_successes),
            guest_errors: counter_series(self.guest_errors),
            concurrent_requests: gauge_value(self.concurrent_requests),
        }
    }
}

fn new_counter(instrument: Instrument, registry: &prometheus::Registry) -> (r: Result<CounterFamily, RegistrationError>)
    ensures
        match r {
            Ok(family) => counter_arity(family) == instrument.label_name_texts().len()
                && counter_series(family) == no_series(),
            Err(e) => e.instrument == instrument,
        },
{
    let names = instrument.label_names();
    proof {
        lemma_catalog_is_accepted(instrument);
        assert(texts(names@) =~= instrument.label_name_texts());
    }
    match CounterFamily::create(instrument.name(), instrument.help(), &names) {
        Ok(family) => {
            let outcome = family.register(registry);
            registered(instrument, family, outcome)
        },
        Err(_) => unreached(),
    }
}

fn new_gauge(instrument: Instrument, registry: &prometheus::Registry) -> (r: Result<InFlightGauge, RegistrationError>)
    requires
        instrument.label_name_texts().len() == 0,
    ensures
        match r {
            Ok(gauge) => gauge_value(gauge) == 0,
            Err(e) => e.instrument == instrument,
        },
{
    proof {
        lemma_catalog_is_accepted(instrument);
        assert(instrument.label_name_texts() =~= Seq::empty());
    }
    match InFlightGauge::create(instrument.name(), instrument.help()) {
        Ok(gauge) => {
            let outcome = gauge.register(registry);
            registered(instrument, gauge, outcome)
        },
        Err(_) => unreached(),
    }
}

impl Metrics {
    /// Every counter takes as many label values as the catalog gives it
    /// label names.
    pub closed spec fn wf(&self) -> bool {
        &&& counter_arity(self.host_requests) == 1
        &&& counter_arity(self.host_errors) == 1
        &&& counter_arity(self.guest_requests) == 2
        &&& counter_arity(self.guest_successes) == 2
        &&& counter_arity(self.guest_errors) == 2
    }

    /// Creates the counters and the gauge of the catalog and registers each
    /// with `registry`, in catalog order. Creating them cannot fail, as the
    /// catalog holds only descriptions that are accepted. The first
    /// instrument that `registry` refuses ends the set-up with its error;
    /// where it takes them all, the result holds them with nothing recorded.
    pub fn new(registry: &prometheus::Registry) -> (r: Result<Metrics, RegistrationError>)
        ensures
            match r {
                Ok(metrics) => metrics.wf() && metrics@ == MetricsState::initial(),
                Err(e) => e.instrument.kind_of() != InstrumentKind::Histogram,
            },
    {
        let host_requests = match new_counter(Instrument::HostRequestCount, registry) {
            Ok(made) => made,
            Err(e) => {
                return Err(e);
            },
        };
        let host_errors = match new_counter(Instrument::HostErrorCount, registry) {
            Ok(made) => made,
            Err(e) => {
                return Err(e);
            },
        };
        let guest_requests = match new_counter(Instrument::GuestProofRequestCount, registry) {
            Ok(made) => made,
            Err(e) => {
                return Err(e);
            },
        };
        let guest_successes = match new_counter(Instrument::GuestProofSuccessCount, registry) {
            Ok(made) => made,
            Err(e) => {
                return Err(e);
            },
        };
        let guest_errors = match new_counter(Instrument::GuestProofErrorCount, registry) {
            Ok(made) => made,
            Err(e) => {
                return Err(e);
            },
        };
        let concurrent_requests = match new_gauge(Instrument::ConcurrentRequests, registry) {
            Ok(made) => made,
            Err(e) => {
                return Err(e);
            },
        };
        Ok(
            Metrics {
                host_requests,
                host_errors,
                guest_requests,
                guest_successes,
                guest_errors,
                concurrent_requests,
            },
        )
    }

    /// The number of requests in flight.
    pub fn current_req(&self) -> (value: i64)
        ensures
            value == self@.concurrent_requests,
    {
        self.concurrent_requests.get()
    }
}

/// Increase the count of requests currently being processed.
pub fn inc_current_req(metrics: &mut Metrics)
    ensures
        final(metrics).wf() == old(metrics).wf(),
        final(metrics)@ == (MetricsState {
            concurrent_requests: step_up(old(metrics)@.concurrent_requests),
            ..old(metrics)@
        }),
{
    metrics.concurrent_requests.inc();
}

/// Decrease the count of requests currently being processed.
pub fn dec_current_req(metrics: &mut Metrics)
    ensures
        final(metrics).wf() == old(metrics).wf(),
        final(metrics)@ == (MetricsState {
            concurrent_requests: step_down(old(metrics)@.concurrent_requests),
            ..old(metrics)@
        }),
{
    metrics.concurrent_requests.dec();
}

/// Increment the request count for the host.
pub fn inc_host_req_count(metrics: &mut Metrics, block_id: u64)
    requires
        old(metrics).wf(),
    ensures
        final(metrics).wf(),
        final(metrics)@ == (MetricsState {
            host_requests: bump(old(metrics)@.host_requests, series_key(block_tuple(block_id))),
            ..old(metrics)@
        }),
{
    let labels = block_labels(block_id);
    metrics.host_requests.inc(&labels);
}

/// Increment the error count for the host.
pub fn inc_host_error(metrics: &mut Metrics, block_id: u64)
    requires
        old(metrics).wf(),
    ensures
        final(metrics).wf(),
        final(metrics)@ == (MetricsState {
            host_errors: bump(old(metrics)@.host_errors, series_key(block_tuple(block_id))),
            ..old(metrics)@
        }),
{
    let labels = block_labels(block_id);
    metrics.host_errors.inc(&labels);
}

/// Increment the request count for the given guest.
pub fn inc_guest_req_count(metrics: &mut Metrics, guest: &ProofType, block_id: u64)
    requires
        old(metrics).wf(),
    ensures
        final(metrics).wf(),
        final(metrics)@ == (MetricsState {
            guest_requests: bump(
                old(metrics)@.guest_requests,
                series_key(guest_block_tuple(*guest, block_id)),
            ),
            ..old(metrics)@
        }),
{
    let labels = guest_block_labels(guest, block_id);
    metrics.guest_requests.inc(&labels);
}

/// Increment the success count for the given guest.
pub fn inc_guest_success(metrics: &mut Metrics, guest: &ProofType, block_id: u64)
    requires
        old(metrics).wf(),
    ensures
        final(metrics).wf(),
        final(metrics)@ == (MetricsState {
            guest_successes: bump(
                old(metrics)@.guest_successes,
                series_key(guest_block_tuple(*guest, block_id)),
            ),
            ..old(metrics)@
        }),
{
    let labels = guest_block_labels(guest, block_id);
    metrics.guest_successes.inc(&labels);
}

/// Increment the error count for the given guest.
pub fn inc_guest_error(metrics: &mut Metrics, guest: &ProofType, block_id: u64)
    requires
        old(metrics).wf(),
    ensures
        final(metrics).wf(),
        final(metrics)@ == (MetricsState {
            guest_errors: bump(
                old(metrics)@.guest_errors,
                series_key(guest_block_tuple(*guest, block_id)),
            ),
            ..old(metrics)@
        }),
{
    let labels = guest_block_labels(guest, block_id);
    metrics.guest_errors.inc(&labels);
}

} // verus!
