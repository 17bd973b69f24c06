//! What holds of the update operations over any number of calls: counts are
//! exact, series do not disturb one another, and the in-flight gauge ends
//! where the numbers of increments and decrements put it, in whatever order
//! they came.

use vstd::prelude::*;
use crate::catalog::Instrument;
use crate::instruments::{bump, next_count, step_down, step_up};
use crate::labels::{
    block_outcome_tuple, block_tuple, decimal, digit_char, guest_block_outcome_tuple,
    guest_block_tuple, ProofType,
};

verus! {

/// The series after `n` increments at `key`.
pub open spec fn bump_times(series: Map<u64, u64>, key: u64, n: nat) -> Map<u64, u64>
    decreases n,
{
    if n == 0 {
        series
    } else {
        bump(bump_times(series, key, (n - 1) as nat), key)
    }
}

/// The series after one increment at each of `keys`, in their order.
pub open spec fn replay(series: Map<u64, u64>, keys: Seq<u64>) -> Map<u64, u64>
    decreases keys.len(),
{
    if keys.len() == 0 {
        series
    } else {
        bump(replay(series, keys.drop_last()), keys.last())
    }
}

/// How often `key` stands in `keys`.
pub open spec fn occurrences(keys: Seq<u64>, key: u64) -> nat
    decreases keys.len(),
{
    if keys.len() == 0 {
        0
    } else if keys.last() == key {
        occurrences(keys.drop_last(), key) + 1
    } else {
        occurrences(keys.drop_last(), key)
    }
}

/// The count of the series at `key`, zero where there is none.
pub open spec fn count_at(series: Map<u64, u64>, key: u64) -> u64 {
    if series.contains_key(key) {
        series[key]
    } else {
        0
    }
}

/// `x` reduced to the range of a 64-bit counter.
pub open spec fn wrap_u64(x: int) -> int {
    x % 0x1_0000_0000_0000_0000
}

/// `x` reduced to the range of a 64-bit signed gauge.
pub open spec fn wrap_i64(x: int) -> int {
    (x + 0x8000_0000_0000_0000) % 0x1_0000_0000_0000_0000 - 0x8000_0000_0000_0000
}

/// The gauge after a run of moves, each one up (`true`) or down (`false`).
pub open spec fn drift(value: i64, moves: Seq<bool>) -> i64
    decreases moves.len(),
{
    if moves.len() == 0 {
        value
    } else if moves.last() {
        step_up(drift(value, moves.drop_last()))
    } else {
        step_down(drift(value, moves.drop_last()))
    }
}

/// How many of the moves go up.
pub open spec fn ups(moves: Seq<bool>) -> nat
    decreases moves.len(),
{
    if moves.len() == 0 {
        0
    } else if moves.last() {
        ups(moves.drop_last()) + 1
    } else {
        ups(moves.drop_last())
    }
}

/// How many of the moves go down.
pub open spec fn downs(moves: Seq<bool>) -> nat
    decreases moves.len(),
{
    if moves.len() == 0 {
        0
    } else if moves.last() {
        downs(moves.drop_last())
    } else {
        downs(moves.drop_last()) + 1
    }
}

/// After `n` increments of one series its count is the count before plus
/// `n`, reduced to 64 bits; the series exists once `n` is positive.
pub proof fn lemma_count_is_exact(series: Map<u64, u64>, key: u64, n: nat)
    ensures
        count_at(bump_times(series, key, n), key) == wrap_u64(count_at(series, key) + n),
        n > 0 ==> bump_times(series, key, n).contains_key(key),
    decreases n,
{
    if n > 0 {
        lemma_count_is_exact(series, key, (n - 1) as nat);
        let before = bump_times(series, key, (n - 1) as nat);
        assert(count_at(bump(before, key), key) == next_count(count_at(before, key)));
    }
}

/// `n` increments of a series that did not exist leave it at `n`, as long
/// as `n` fits in 64 bits.
pub proof fn lemma_fresh_series_counts_calls(series: Map<u64, u64>, key: u64, n: nat)
    requires
        !series.contains_key(key),
        0 < n <= u64::MAX,
    ensures
        bump_times(series, key, n).contains_key(key),
        bump_times(series, key, n)[key] == n,
{
    lemma_count_is_exact(series, key, n);
}

/// An increment at one key leaves every series under another key as it
/// was: neither created, nor removed, nor changed.
pub proof fn lemma_series_are_isolated(series: Map<u64, u64>, key: u64, other: u64)
    requires
        key != other,
    ensures
        bump(series, key).contains_key(other) == series.contains_key(other),
        count_at(bump(series, key), other) == count_at(series, other),
{
}

/// Any number of increments at one key leaves every series under another
/// key as it was.
pub proof fn lemma_series_stay_isolated(series: Map<u64, u64>, key: u64, n: nat, other: u64)
    requires
        key != other,
    ensures
        bump_times(series, key, n).contains_key(other) == series.contains_key(other),
        count_at(bump_times(series, key, n), other) == count_at(series, other),
    decreases n,
{
    if n > 0 {
        lemma_series_stay_isolated(series, key, (n - 1) as nat, other);
        lemma_series_are_isolated(bump_times(series, key, (n - 1) as nat), key, other);
    }
}

/// However increments at many keys are interleaved, each series ends at
/// its count before plus the number of increments that went to it, reduced
/// to 64 bits, and a series exists exactly if it did before or was
/// incremented.
pub proof fn lemma_counts_follow_occurrences(series: Map<u64, u64>, keys: Seq<u64>, key: u64)
    ensures
        count_at(replay(series, keys), key) == wrap_u64(count_at(series, key) + occurrences(keys, key)),
        replay(series, keys).contains_key(key) <==> (series.contains_key(key) || occurrences(keys, key) > 0),
    decreases keys.len(),
{
    if keys.len() > 0 {
        lemma_counts_follow_occurrences(series, keys.drop_last(), key);
        let before = replay(series, keys.drop_last());
        if keys.last() == key {
            assert(count_at(bump(before, key), key) == next_count(count_at(before, key)));
        } else {
            lemma_series_are_isolated(before, keys.last(), key);
        }
    }
}

/// Increments at two keys give the same series in either order.
pub proof fn lemma_increments_commute(series: Map<u64, u64>, a: u64, b: u64)
    ensures
        bump(bump(series, a), b) == bump(bump(series, b), a),
{
    assert(bump(bump(series, a), b) =~= bump(bump(series, b), a));
}

/// After any run of increments and decrements the gauge stands at its
/// value before, plus the number of increments, minus the number of
/// decrements, reduced to 64 bits. Only the two numbers count, not the
/// order of the moves.
pub proof fn lemma_gauge_is_net(value: i64, moves: Seq<bool>)
    ensures
        drift(value, moves) == wrap_i64(value + ups(moves) - downs(moves)),
    decreases moves.len(),
{
    if moves.len() > 0 {
        lemma_gauge_is_net(value, moves.drop_last());
    }
}

/// As many decrements as increments, in any order, bring the gauge back to
/// where it was.
pub proof fn lemma_gauge_returns(value: i64, moves: Seq<bool>)
    requires
        ups(moves) == downs(moves),
    ensures
        drift(value, moves) == value,
{
    lemma_gauge_is_net(value, moves);
}

/// `m` increments and no decrement take a gauge at zero to `m`, as long as
/// `m` fits in the gauge.
pub proof fn lemma_gauge_counts_up(moves: Seq<bool>)
    requires
        downs(moves) == 0,
        ups(moves) <= i64::MAX,
    ensures
        drift(0, moves) == ups(moves),
{
    lemma_gauge_is_net(0, moves);
}

/// Two runs with the same numbers of increments and of decrements leave
/// the gauge at the same value, however each is interleaved.
pub proof fn lemma_gauge_ignores_order(value: i64, first: Seq<bool>, second: Seq<bool>)
    requires
        ups(first) == ups(second),
        downs(first) == downs(second),
    ensures
        drift(value, first) == drift(value, second),
{
    lemma_gauge_is_net(value, first);
    lemma_gauge_is_net(value, second);
}

/// A decimal numeral is never empty, and ends in the digit of the units.
pub proof fn lemma_decimal_last(n: nat)
    ensures
        decimal(n).len() >= 1,
        decimal(n).last() == digit_char(n % 10),
        n >= 10 ==> decimal(n).drop_last() == decimal(n / 10),
{
    if n >= 10 {
        assert(decimal(n).drop_last() =~= decimal(n / 10));
    }
}

/// Different block ids have different label values: a decimal numeral
/// determines its number.
pub proof fn lemma_decimal_is_injective(a: nat, b: nat)
    requires
        decimal(a) == decimal(b),
    ensures
        a == b,
    decreases a,
{
    lemma_decimal_last(a);
    lemma_decimal_last(b);
    assert(a % 10 == b % 10);
    if a >= 10 && b >= 10 {
        lemma_decimal_is_injective(a / 10, b / 10);
    } else if a >= 10 {
        lemma_decimal_last(a / 10);
        assert(decimal(a).len() >= 2);
    } else if b >= 10 {
        lemma_decimal_last(b / 10);
        assert(decimal(b).len() >= 2);
    }
}

/// Different block ids address a series by different label values.
pub proof fn lemma_block_tuples_differ(a: u64, b: u64)
    requires
        a != b,
    ensures
        block_tuple(a) != block_tuple(b),
        forall|s: bool, t: bool| block_outcome_tuple(a, s) != block_outcome_tuple(b, t),
{
    if decimal(a as nat) == decimal(b as nat) {
        lemma_decimal_is_injective(a as nat, b as nat);
    }
    assert(block_tuple(a)[0] == decimal(a as nat));
    assert(block_tuple(b)[0] == decimal(b as nat));
    assert forall|s: bool, t: bool| block_outcome_tuple(a, s) != block_outcome_tuple(b, t) by {
        assert(block_outcome_tuple(a, s)[0] == decimal(a as nat));
        assert(block_outcome_tuple(b, t)[0] == decimal(b as nat));
    }
}

/// Different guests have different label values.
pub proof fn lemma_guest_labels_differ(a: ProofType, b: ProofType)
    requires
        a != b,
    ensures
        a.label() != b.label(),
{
    reveal_strlit("native");
    reveal_strlit("sp1");
    reveal_strlit("sgx");
    reveal_strlit("risc0");
    assert("sp1"@[1] != "sgx"@[1]);
    assert(a.label().len() != b.label().len() || a.label()[1] != b.label()[1]);
}

/// A guest and a block id that differ from another pair in either part
/// address a series by different label values.
pub proof fn lemma_guest_block_tuples_differ(g: ProofType, a: u64, h: ProofType, b: u64)
    requires
        g != h || a != b,
    ensures
        guest_block_tuple(g, a) != guest_block_tuple(h, b),
        forall|s: bool, t: bool|
            guest_block_outcome_tuple(g, a, s) != guest_block_outcome_tuple(h, b, t),
{
    if g != h {
        lemma_guest_labels_differ(g, h);
    } else if decimal(a as nat) == decimal(b as nat) {
        lemma_decimal_is_injective(a as nat, b as nat);
    }
    assert(guest_block_tuple(g, a)[0] == g.label());
    assert(guest_block_tuple(h, b)[0] == h.label());
    assert(guest_block_tuple(g, a)[1] == decimal(a as nat));
    assert(guest_block_tuple(h, b)[1] == decimal(b as nat));
    assert forall|s: bool, t: bool|
        guest_block_outcome_tuple(g, a, s) != guest_block_outcome_tuple(h, b, t) by {
        assert(guest_block_outcome_tuple(g, a, s)[0] == g.label());
        assert(guest_block_outcome_tuple(h, b, t)[0] == h.label());
        assert(guest_block_outcome_tuple(g, a, s)[1] == decimal(a as nat));
        assert(guest_block_outcome_tuple(h, b, t)[1] == decimal(b as nat));
    }
}

/// The two outcomes have different label values.
pub proof fn lemma_outcome_labels_differ()
    ensures
        crate::labels::outcome(true) != crate::labels::outcome(false),
{
    reveal_strlit("true");
    reveal_strlit("false");
    assert("true"@.len() != "false"@.len());
}

/// Every update addresses its instrument by as many label values as the
/// catalog gives the instrument label names.
pub proof fn lemma_tuples_fit_their_instruments(guest: ProofType, block_id: u64, success: bool)
    ensures
        block_tuple(block_id).len() == Instrument::HostRequestCount.label_name_texts().len(),
        block_tuple(block_id).len() == Instrument::HostErrorCount.label_name_texts().len(),
        guest_block_tuple(guest, block_id).len()
            == Instrument::GuestProofRequestCount.label_name_texts().len(),
        guest_block_tuple(guest, block_id).len()
            == Instrument::GuestProofSuccessCount.label_name_texts().len(),
        guest_block_tuple(guest, block_id).len()
            == Instrument::GuestProofErrorCount.label_name_texts().len(),
        guest_block_outcome_tuple(guest, block_id, success).len()
            == Instrument::GuestProofTime.label_name_texts().len(),
        block_outcome_tuple(block_id, success).len()
            == Instrument::PrepareInputTime.label_name_texts().len(),
        block_outcome_tuple(block_id, success).len()
            == Instrument::TotalTime.label_name_texts().len(),
{
}

/// No two instruments of the catalog share a name.
pub proof fn lemma_names_are_distinct(a: Instrument, b: Instrument)
    requires
        a != b,
    ensures
        a.name_text() != b.name_text(),
{
    reveal_strlit("host_request_count");
    reveal_strlit("host_error_count");
    reveal_strlit("guest_proof_request_count");
    reveal_strlit("guest_proof_success_count");
    reveal_strlit("guest_proof_error_count");
    reveal_strlit("guest_proof_time");
    reveal_strlit("prepare_input_time");
    reveal_strlit("total_time");
    reveal_strlit("concurrent_requests");
    assert("host_request_count"@[0] != "prepare_input_time"@[0]);
    assert("host_error_count"@[0] != "guest_proof_time"@[0]);
    assert("guest_proof_request_count"@[12] != "guest_proof_success_count"@[12]);
    assert(a.name_text().len() != b.name_text().len() || a.name_text()[0] != b.name_text()[0]
        || a.name_text()[12] != b.name_text()[12]);
}

} // verus!
