//! The label model: how typed domain values become label values, and which
//! tuple of label values addresses a series of each instrument.

use vstd::prelude::*;

verus! {

/// The proving backends a request can be dispatched to.
#[derive(Clone, Copy, Debug, PartialEq, Eq, Structural)]
pub enum ProofType {
    Native,
    Sp1,
    Sgx,
    Risc0,
}

impl ProofType {
    /// The canonical display name of the backend, as it appears in a label.
    pub open spec fn label(self) -> Seq<char> {
        match self {
            ProofType::Native => "native"@,
            ProofType::Sp1 => "sp1"@,
            ProofType::Sgx => "sgx"@,
            ProofType::Risc0 => "risc0"@,
        }
    }

    /// The canonical display name of the backend.
    pub fn name(&self) -> (s: &'static str)
        ensures
            s@ == self.label(),
    {
        match self {
            ProofType::Native => "native",
            ProofType::Sp1 => "sp1",
            ProofType::Sgx => "sgx",
            ProofType::Risc0 => "risc0",
        }
    }
}

/// The character that writes the decimal digit `d`.
pub open spec fn digit_char(d: nat) -> char {
    if d == 0 {
        '0'
    } else if d == 1 {
        '1'
    } else if d == 2 {
        '2'
    } else if d == 3 {
        '3'
    } else if d == 4 {
        '4'
    } else if d == 5 {
        '5'
    } else if d == 6 {
        '6'
    } else if d == 7 {
        '7'
    } else if d == 8 {
        '8'
    } else {
        '9'
    }
}

/// The decimal numeral of `n`: no sign, no leading zero, `"0"` for zero.
pub open spec fn decimal(n: nat) -> Seq<char>
    decreases n,
{
    if n < 10 {
        seq![digit_char(n)]
    } else {
        decimal(n / 10).push(digit_char(n % 10))
    }
}

/// The label value of an outcome flag.
pub open spec fn outcome(success: bool) -> Seq<char> {
    if success {
        "true"@
    } else {
        "false"@
    }
}

/// Label values of the instruments keyed by `block_id`.
pub open spec fn block_tuple(block_id: u64) -> Seq<Seq<char>> {
    seq![decimal(block_id as nat)]
}

/// Label values of the instruments keyed by `guest, block_id`.
pub open spec fn guest_block_tuple(guest: ProofType, block_id: u64) -> Seq<Seq<char>> {
    seq![guest.label(), decimal(block_id as nat)]
}

/// Label values of the instruments keyed by `guest, block_id, success`.
pub open spec fn guest_block_outcome_tuple(guest: ProofType, block_id: u64, success: bool) -> Seq<
    Seq<char>,
> {
    seq![guest.label(), decimal(block_id as nat), outcome(success)]
}

/// Label values of the instruments keyed by `block_id, success`.
pub open spec fn block_outcome_tuple(block_id: u64, success: bool) -> Seq<Seq<char>> {
    seq![decimal(block_id as nat), outcome(success)]
}

/// `String::push` of std: appends one character to the end of the string.
#[verifier::external_body]
fn push_char(s: &mut String, c: char)
    ensures
        final(s)@ == old(s)@.push(c),
{
    s.push(c);
}

fn digit(d: u64) -> (c: char)
    requires
        d < 10,
    ensures
        c == digit_char(d as nat),
{
    if d == 0 {
        '0'
    } else if d == 1 {
        '1'
    } else if d == 2 {
        '2'
    } else if d == 3 {
        '3'
    } else if d == 4 {
        '4'
    } else if d == 5 {
        '5'
    } else if d == 6 {
        '6'
    } else if d == 7 {
        '7'
    } else if d == 8 {
        '8'
    } else {
        '9'
    }
}

fn push_decimal(s: &mut String, n: u64)
    ensures
        final(s)@ == old(s)@ + decimal(n as nat),
    decreases n,
{
    if n >= 10 {
        push_decimal(s, n / 10);
    }
    push_char(s, digit(n % 10));
}

/// The label value of an unsigned integer: its decimal numeral.
pub fn u64_label(n: u64) -> (s: String)
    ensures
        s@ == decimal(n as nat),
{
    let mut s = String::new();
    push_decimal(&mut s, n);
    s
}

/// The label value of an outcome flag: `"true"` or `"false"`.
pub fn bool_label(success: bool) -> (s: String)
    ensures
        s@ == outcome(success),
{
    if success {
        "true".to_owned()
    } else {
        "false".to_owned()
    }
}

/// The label value of a backend: its canonical display name.
pub fn guest_label(guest: &ProofType) -> (s: String)
    ensures
        s@ == guest.label(),
{
    guest.name().to_owned()
}

/// The label values that address a series keyed by `block_id`.
pub fn block_labels(block_id: u64) -> (values: Vec<String>)
    ensures
        values.deep_view() == block_tuple(block_id),
{
    let mut values: Vec<String> = Vec::new();
    values.push(u64_label(block_id));
    assert(values.deep_view() =~= block_tuple(block_id));
    values
}

/// The label values that address a series keyed by `guest, block_id`.
pub fn guest_block_labels(guest: &ProofType, block_id: u64) -> (values: Vec<String>)
    ensures
        values.deep_view() == guest_block_tuple(*guest, block_id),
{
    let mut values: Vec<String> = Vec::new();
    values.push(guest_label(guest));
    values.push(u64_label(block_id));
    assert(values.deep_view() =~= guest_block_tuple(*guest, block_id));
    values
}

/// The label values that address a series keyed by `guest, block_id, success`.
pub fn guest_block_outcome_labels(guest: &ProofType, block_id: u64, success: bool) -> (values: Vec<
    String,
>)
    ensures
        values.deep_view() == guest_block_outcome_tuple(*guest, block_id, success),
{
    let mut values: Vec<String> = Vec::new();
    values.push(guest_label(guest));
    values.push(u64_label(block_id));
    values.push(bool_label(success));
    assert(values.deep_view() =~= guest_block_outcome_tuple(*guest, block_id, success));
    values
}

/// The label values that address a series keyed by `block_id, success`.
pub fn block_outcome_labels(block_id: u64, success: bool) -> (values: Vec<String>)
    ensures
        values.deep_view() == block_outcome_tuple(block_id, success),
{
    let mut values: Vec<String> = Vec::new();
    values.push(u64_label(block_id));
    values.push(bool_label(success));
    assert(values.deep_view() =~= block_outcome_tuple(block_id, success));
    values
}

} // verus!
