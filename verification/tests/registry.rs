use host_metrics::catalog::{Instrument, InstrumentKind};
use host_metrics::labels::ProofType;
use host_metrics::metrics::{
    dec_current_req, inc_current_req, inc_guest_error, inc_guest_req_count, inc_guest_success,
    inc_host_error, inc_host_req_count, registered, Metrics, RegistrationError,
};
use host_metrics::observations::{
    observe_guest_time, observe_prepare_input_time, observe_total_time, Observation,
};
use prometheus::{HistogramOpts, HistogramVec, Registry};

fn has_labels(metric: &prometheus::proto::Metric, labels: &[(&str, &str)]) -> bool {
    let pairs = metric.get_label();
    pairs.len() == labels.len()
        && labels.iter().all(|(name, value)| {
            pairs
                .iter()
                .any(|pair| pair.get_name() == *name && pair.get_value() == *value)
        })
}

fn find_metric(
    registry: &Registry,
    family: &str,
    labels: &[(&str, &str)],
) -> Option<prometheus::proto::Metric> {
    for gathered in registry.gather() {
        if gathered.get_name() == family {
            for metric in gathered.get_metric() {
                if has_labels(metric, labels) {
                    return Some(metric.clone());
                }
            }
        }
    }
    None
}

fn counter(registry: &Registry, family: &str, labels: &[(&str, &str)]) -> Option<f64> {
    find_metric(registry, family, labels).map(|metric| metric.get_counter().get_value())
}

fn exported_gauge(registry: &Registry) -> Option<f64> {
    find_metric(registry, "concurrent_requests", &[]).map(|metric| metric.get_gauge().get_value())
}

fn histogram_for(registry: &Registry, instrument: Instrument) -> HistogramVec {
    let names = instrument.label_names();
    let histogram = HistogramVec::new(
        HistogramOpts::new(instrument.name(), instrument.help()),
        &names,
    )
    .unwrap();
    registry.register(Box::new(histogram.clone())).unwrap();
    histogram
}

fn record(histogram: &HistogramVec, observation: &Observation) {
    let values: Vec<&str> = observation.labels.iter().map(|s| s.as_str()).collect();
    histogram
        .with_label_values(&values)
        .observe(observation.value as f64);
}

#[test]
fn a_new_registry_exports_no_counter_series_and_a_zero_gauge() {
    let registry = Registry::new();
    let metrics = Metrics::new(&registry).unwrap();
    assert_eq!(metrics.current_req(), 0);
    assert_eq!(exported_gauge(&registry), Some(0.0));
    assert_eq!(counter(&registry, "host_request_count", &[("block_id", "0")]), None);
    assert_eq!(registry.gather().len(), 1);
}

#[test]
fn a_host_request_without_an_error_leaves_no_error_series() {
    let registry = Registry::new();
    let mut metrics = Metrics::new(&registry).unwrap();
    inc_host_req_count(&mut metrics, 42);
    assert_eq!(
        counter(&registry, "host_request_count", &[("block_id", "42")]),
        Some(1.0)
    );
    assert_eq!(counter(&registry, "host_error_count", &[("block_id", "42")]), None);
}

#[test]
fn a_guest_round_shows_in_request_success_and_time() {
    let registry = Registry::new();
    let mut metrics = Metrics::new(&registry).unwrap();
    let times = histogram_for(&registry, Instrument::GuestProofTime);
    inc_guest_req_count(&mut metrics, &ProofType::Sp1, 7);
    inc_guest_success(&mut metrics, &ProofType::Sp1, 7);
    record(&times, &observe_guest_time(&ProofType::Sp1, 7, 1500, true));
    let labels = [("guest", "sp1"), ("block_id", "7")];
    assert_eq!(counter(&registry, "guest_proof_request_count", &labels), Some(1.0));
    assert_eq!(counter(&registry, "guest_proof_success_count", &labels), Some(1.0));
    assert_eq!(counter(&registry, "guest_proof_error_count", &labels), None);
    let series = find_metric(
        &registry,
        "guest_proof_time",
        &[("guest", "sp1"), ("block_id", "7"), ("success", "true")],
    )
    .unwrap();
    assert_eq!(series.get_histogram().get_sample_count(), 1);
    assert_eq!(series.get_histogram().get_sample_sum(), 1500.0);
}

#[test]
fn n_increments_of_one_series_export_n() {
    let registry = Registry::new();
    let mut metrics = Metrics::new(&registry).unwrap();
    for _ in 0..1000 {
        inc_host_req_count(&mut metrics, 9);
    }
    assert_eq!(
        counter(&registry, "host_request_count", &[("block_id", "9")]),
        Some(1000.0)
    );
    for _ in 0..3 {
        inc_host_error(&mut metrics, 9);
    }
    assert_eq!(counter(&registry, "host_error_count", &[("block_id", "9")]), Some(3.0));
}

#[test]
fn series_of_different_block_ids_are_independent() {
    let registry = Registry::new();
    let mut metrics = Metrics::new(&registry).unwrap();
    inc_host_req_count(&mut metrics, 1);
    inc_host_req_count(&mut metrics, 2);
    inc_host_req_count(&mut metrics, 2);
    inc_host_req_count(&mut metrics, 12);
    assert_eq!(counter(&registry, "host_request_count", &[("block_id", "1")]), Some(1.0));
    assert_eq!(counter(&registry, "host_request_count", &[("block_id", "2")]), Some(2.0));
    assert_eq!(counter(&registry, "host_request_count", &[("block_id", "12")]), Some(1.0));
    assert_eq!(counter(&registry, "host_request_count", &[("block_id", "3")]), None);
}

#[test]
fn series_of_different_guests_are_independent() {
    let registry = Registry::new();
    let mut metrics = Metrics::new(&registry).unwrap();
    inc_guest_req_count(&mut metrics, &ProofType::Native, 5);
    inc_guest_req_count(&mut metrics, &ProofType::Sgx, 5);
    inc_guest_req_count(&mut metrics, &ProofType::Sgx, 5);
    inc_guest_error(&mut metrics, &ProofType::Risc0, 5);
    let name = "guest_proof_request_count";
    assert_eq!(counter(&registry, name, &[("guest", "native"), ("block_id", "5")]), Some(1.0));
    assert_eq!(counter(&registry, name, &[("guest", "sgx"), ("block_id", "5")]), Some(2.0));
    assert_eq!(counter(&registry, name, &[("guest", "risc0"), ("block_id", "5")]), None);
    assert_eq!(
        counter(
            &registry,
            "guest_proof_error_count",
            &[("guest", "risc0"), ("block_id", "5")]
        ),
        Some(1.0)
    );
}

#[test]
fn the_gauge_counts_increments() {
    let registry = Registry::new();
    let mut metrics = Metrics::new(&registry).unwrap();
    for _ in 0..17 {
        inc_current_req(&mut metrics);
    }
    assert_eq!(metrics.current_req(), 17);
    assert_eq!(exported_gauge(&registry), Some(17.0));
}

#[test]
fn the_gauge_returns_after_paired_moves_in_any_order() {
    let registry = Registry::new();
    let mut metrics = Metrics::new(&registry).unwrap();
    inc_current_req(&mut metrics);
    inc_current_req(&mut metrics);
    let before = metrics.current_req();
    let moves = [true, false, false, true, true, true, false, false, false, true];
    for up in moves {
        if up {
            inc_current_req(&mut metrics);
        } else {
            dec_current_req(&mut metrics);
        }
    }
    assert_eq!(metrics.current_req(), before);
    assert_eq!(before, 2);
}

#[test]
fn the_gauge_is_not_clamped_at_zero() {
    let registry = Registry::new();
    let mut metrics = Metrics::new(&registry).unwrap();
    dec_current_req(&mut metrics);
    assert_eq!(metrics.current_req(), -1);
    inc_current_req(&mut metrics);
    assert_eq!(metrics.current_req(), 0);
}

#[test]
fn two_requests_interleaved_leave_the_net_count() {
    let orders: [[bool; 4]; 3] = [
        [true, true, false, false],
        [true, false, true, false],
        [true, true, false, true],
    ];
    let expected = [0, 0, 2];
    for (order, want) in orders.iter().zip(expected.iter()) {
        let registry = Registry::new();
        let mut metrics = Metrics::new(&registry).unwrap();
        for up in order {
            if *up {
                inc_current_req(&mut metrics);
            } else {
                dec_current_req(&mut metrics);
            }
        }
        assert_eq!(metrics.current_req(), *want);
    }
}

#[test]
fn a_second_set_up_on_one_registry_is_refused() {
    let registry = Registry::new();
    let first = Metrics::new(&registry);
    assert!(first.is_ok());
    let second = Metrics::new(&registry);
    match second {
        Err(e) => {
            assert_eq!(
                e,
                RegistrationError {
                    instrument: Instrument::HostRequestCount
                }
            );
            assert_eq!(e.instrument.kind(), InstrumentKind::Counter);
        }
        Ok(_) => panic!("a duplicate registration was accepted"),
    }
}

#[test]
fn a_taken_gauge_name_is_refused_at_the_gauge() {
    let registry = Registry::new();
    let taken = prometheus::IntGauge::new("concurrent_requests", "taken").unwrap();
    registry.register(Box::new(taken)).unwrap();
    match Metrics::new(&registry) {
        Err(e) => assert_eq!(e.instrument, Instrument::ConcurrentRequests),
        Ok(_) => panic!("a duplicate registration was accepted"),
    }
}

#[test]
fn a_taken_counter_name_is_refused_at_that_counter() {
    let registry = Registry::new();
    let taken = prometheus::IntGauge::new("guest_proof_success_count", "taken").unwrap();
    registry.register(Box::new(taken)).unwrap();
    match Metrics::new(&registry) {
        Err(e) => assert_eq!(e.instrument, Instrument::GuestProofSuccessCount),
        Ok(_) => panic!("a duplicate registration was accepted"),
    }
}

#[test]
fn a_refusal_names_the_instrument_and_an_acceptance_hands_it_on() {
    let refused = registered(Instrument::TotalTime, 5u8, Err(prometheus::Error::AlreadyReg));
    assert_eq!(
        refused,
        Err(RegistrationError {
            instrument: Instrument::TotalTime
        })
    );
    let taken = registered(Instrument::TotalTime, 5u8, Ok(()));
    assert_eq!(taken, Ok(5u8));
}

#[test]
fn every_instrument_of_the_catalog_can_be_created() {
    let all = [
        Instrument::HostRequestCount,
        Instrument::HostErrorCount,
        Instrument::GuestProofRequestCount,
        Instrument::GuestProofSuccessCount,
        Instrument::GuestProofErrorCount,
        Instrument::GuestProofTime,
        Instrument::PrepareInputTime,
        Instrument::TotalTime,
        Instrument::ConcurrentRequests,
    ];
    let registry = Registry::new();
    for instrument in all {
        let names = instrument.label_names();
        let opts = prometheus::Opts::new(instrument.name(), instrument.help());
        if names.is_empty() {
            let gauge = prometheus::IntGauge::with_opts(opts).unwrap();
            registry.register(Box::new(gauge)).unwrap();
        } else {
            let family = prometheus::IntCounterVec::new(opts, &names).unwrap();
            registry.register(Box::new(family)).unwrap();
        }
    }
}

#[test]
fn observations_sum_and_count() {
    let registry = Registry::new();
    let totals = histogram_for(&registry, Instrument::TotalTime);
    let prepares = histogram_for(&registry, Instrument::PrepareInputTime);
    for time in [10u128, 20, 30, 40] {
        record(&totals, &observe_total_time(3, time, false));
    }
    record(&prepares, &observe_prepare_input_time(3, 250, true));
    let total = find_metric(
        &registry,
        "total_time",
        &[("block_id", "3"), ("success", "false")],
    )
    .unwrap();
    assert_eq!(total.get_histogram().get_sample_count(), 4);
    assert_eq!(total.get_histogram().get_sample_sum(), 100.0);
    let prepare = find_metric(
        &registry,
        "prepare_input_time",
        &[("block_id", "3"), ("success", "true")],
    )
    .unwrap();
    assert_eq!(prepare.get_histogram().get_sample_count(), 1);
    assert_eq!(prepare.get_histogram().get_sample_sum(), 250.0);
    assert!(find_metric(
        &registry,
        "total_time",
        &[("block_id", "3"), ("success", "true")]
    )
    .is_none());
}
