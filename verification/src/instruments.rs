//! The instruments themselves, kept by the `prometheus` crate. The
//! functions of this file are not proved: each states what the crate's
//! code does, and the rest of the library is verified against these
//! statements.

use vstd::prelude::*;

verus! {

/// The registry that exports instruments to a scraper.
#[verifier::external_type_specification]
#[verifier::external_body]
pub struct ExRegistry(prometheus::Registry);

/// The error with which `prometheus` refuses to create or register an
/// instrument.
#[verifier::external_type_specification]
#[verifier::external_body]
pub struct ExPrometheusError(prometheus::Error);

/// A labelled family of integer counters: a `prometheus::IntCounterVec`.
/// The only other handle to its series is the one that `register` gives to
/// the exporting registry, which reads them; so they change only through
/// `inc`.
#[verifier::external_body]
pub struct CounterFamily {
    inner: prometheus::IntCounterVec,
}

/// The integer gauge of requests in flight: a `prometheus::IntGauge`.
/// The only other handle to its value is the one that `register` gives to
/// the exporting registry, which reads it; so it changes only through
/// `inc` and `dec`.
#[verifier::external_body]
pub struct InFlightGauge {
    inner: prometheus::IntGauge,
}

/// The key under which `prometheus` files the series of a tuple of label
/// values: the 64-bit FNV hash of the values' bytes, one value after the
/// other. Tuples with the same key share one series.
pub uninterp spec fn series_key(values: Seq<Seq<char>>) -> u64;

/// The series of a counter family: the count of each, by series key.
pub uninterp spec fn counter_series(family: CounterFamily) -> Map<u64, u64>;

/// The number of label names a counter family was created with.
pub uninterp spec fn counter_arity(family: CounterFamily) -> nat;

/// The value of the gauge.
pub uninterp spec fn gauge_value(gauge: InFlightGauge) -> i64;

/// Whether `c` may start a name: an ASCII letter or an underscore.
pub open spec fn is_name_start(c: char) -> bool {
    ||| ('a' <= c && c <= 'z')
    ||| ('A' <= c && c <= 'Z')
    ||| c == '_'
}

/// Whether `c` may stand in a name: a starting character or an ASCII digit.
pub open spec fn is_name_char(c: char) -> bool {
    is_name_start(c) || ('0' <= c && c <= '9')
}

/// Whether `prometheus` takes `text` as a label name.
pub open spec fn valid_label_name(text: Seq<char>) -> bool {
    &&& text.len() > 0
    &&& is_name_start(text[0])
    &&& forall|i: int| 0 <= i < text.len() ==> is_name_char(#[trigger] text[i])
}

/// Whether `prometheus` takes `text` as a metric name: as a label name,
/// with the colon allowed too.
pub open spec fn valid_metric_name(text: Seq<char>) -> bool {
    &&& text.len() > 0
    &&& (is_name_start(text[0]) || text[0] == ':')
    &&& forall|i: int| 0 <= i < text.len() ==> is_name_char(#[trigger] text[i]) || text[i] == ':'
}

/// Whether `prometheus` takes the description of an instrument: a valid
/// name, a help text that is not empty, and valid label names of which no
/// two are the same.
pub open spec fn accepted(name: Seq<char>, help: Seq<char>, label_names: Seq<Seq<char>>) -> bool {
    &&& help.len() > 0
    &&& valid_metric_name(name)
    &&& forall|i: int| 0 <= i < label_names.len() ==> valid_label_name(#[trigger] label_names[i])
    &&& forall|i: int, j: int|
        0 <= i < j < label_names.len() ==> #[trigger] label_names[i] != #[trigger] label_names[j]
}

/// The texts of a list of names.
pub open spec fn texts(names: Seq<&str>) -> Seq<Seq<char>> {
    names.map_values(|name: &str| name@)
}

/// A counter family without series.
pub open spec fn no_series() -> Map<u64, u64> {
    Map::empty()
}

/// The count that follows `count`: one more, and zero after the largest.
pub open spec fn next_count(count: u64) -> u64 {
    if count == u64::MAX {
        0
    } else {
        (count + 1) as u64
    }
}

/// The series after one increment at `key`: a series that was missing is
/// created at zero and then incremented; every other series is untouched.
pub open spec fn bump(series: Map<u64, u64>, key: u64) -> Map<u64, u64> {
    if series.contains_key(key) {
        series.insert(key, next_count(series[key]))
    } else {
        series.insert(key, 1)
    }
}

/// The gauge value one above `value`, wrapping at the largest.
pub open spec fn step_up(value: i64) -> i64 {
    if value == i64::MAX {
        i64::MIN
    } else {
        (value + 1) as i64
    }
}

/// The gauge value one below `value`, wrapping at the smallest.
pub open spec fn step_down(value: i64) -> i64 {
    if value == i64::MIN {
        i64::MAX
    } else {
        (value - 1) as i64
    }
}

impl CounterFamily {
    /// `IntCounterVec::new` on `Opts::new(name, help)`: it succeeds exactly
    /// on a description that the crate's descriptor accepts, and the new
    /// family has one label per name and no series yet.
    #[verifier::external_body]
    pub(crate) fn create(name: &str, help: &str, label_names: &Vec<&str>) -> (r: Result<CounterFamily, prometheus::Error>)
        ensures
            r is Ok <==> accepted(name@, help@, texts(label_names@)),
            r is Ok ==> counter_arity(r->Ok_0) == label_names@.len(),
            r is Ok ==> counter_series(r->Ok_0) == no_series(),
    {
        match prometheus::IntCounterVec::new(prometheus::Opts::new(name, help), label_names) {
            Ok(inner) => Ok(CounterFamily { inner }),
            Err(e) => Err(e),
        }
    }

    /// `Registry::register` on a handle to this family. Whether the registry
    /// accepts it depends on what it already holds, so nothing is claimed of
    /// the result.
    #[verifier::external_body]
    pub(crate) fn register(&self, registry: &prometheus::Registry) -> (r: Result<(), prometheus::Error>) {
        registry.register(Box::new(self.inner.clone()))
    }

    /// `IntCounterVec::with_label_values(..).inc()`: finds the series filed
    /// under the key of `values`, creating it at zero if it is missing, and
    /// adds one to it with a wrapping atomic add. It panics on a wrong number
    /// of values, which `requires` leaves out.
    #[verifier::external_body]
    pub(crate) fn inc(&mut self, values: &Vec<String>)
        requires
            values.deep_view().len() == counter_arity(*old(self)),
        ensures
            counter_arity(*final(self)) == counter_arity(*old(self)),
            counter_series(*final(self)) == bump(counter_series(*old(self)), series_key(values.deep_view())),
    {
        let refs: Vec<&str> = values.iter().map(|s| s.as_str()).collect();
        self.inner.with_label_values(&refs).inc();
    }
}

impl InFlightGauge {
    /// `IntGauge::new`: it succeeds exactly on a description that the
    /// crate's descriptor accepts, here one without labels, and the new
    /// gauge starts at zero.
    #[verifier::external_body]
    pub(crate) fn create(name: &str, help: &str) -> (r: Result<InFlightGauge, prometheus::Error>)
        ensures
            r is Ok <==> accepted(name@, help@, Seq::empty()),
            r is Ok ==> gauge_value(r->Ok_0) == 0,
    {
        match prometheus::IntGauge::new(name, help) {
            Ok(inner) => Ok(InFlightGauge { inner }),
            Err(e) => Err(e),
        }
    }

    /// `Registry::register` on a handle to this gauge. Whether the registry
    /// accepts it depends on what it already holds, so nothing is claimed of
    /// the result.
    #[verifier::external_body]
    pub(crate) fn register(&self, registry: &prometheus::Registry) -> (r: Result<(), prometheus::Error>) {
        registry.register(Box::new(self.inner.clone()))
    }

    /// `IntGauge::inc`: a wrapping atomic add of one.
    #[verifier::external_body]
    pub(crate) fn inc(&mut self)
        ensures
            gauge_value(*final(self)) == step_up(gauge_value(*old(self))),
    {
        self.inner.inc();
    }

    /// `IntGauge::dec`: a wrapping atomic subtraction of one.
    #[verifier::external_body]
    pub(crate) fn dec(&mut self)
        ensures
            gauge_value(*final(self)) == step_down(gauge_value(*old(self))),
    {
        self.inner.dec();
    }

    /// `IntGauge::get`: the current value.
    #[verifier::external_body]
    pub(crate) fn get(&self) -> (value: i64)
        ensures
            value == gauge_value(*self),
    {
        self.inner.get()
    }
}

} // verus!
