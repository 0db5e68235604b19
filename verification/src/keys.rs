//! Classification of resistor-ladder button presses.
//!
//! Every button on a key line connects a distinct resistor, so the charge
//! time of the shared capacitor — measured in microseconds until the sense
//! pin reads high — identifies the button.  The measurement itself (pin mode
//! switching, discharge, polling, interrupt waits) is the caller's; this
//! module owns the decisions: capping a charge sample, averaging the two
//! measurement passes, and classifying a sample against a key line's table
//! of expected charge times.

use vstd::prelude::*;

verus! {

/// Longest accepted charge time in microseconds; a measurement that reaches
/// this bound never saw the pin go high and is unusable.
pub const MAX_CHARGE_US: u128 = 6000;

/// The logical buttons of the appliance.
#[derive(Clone, Copy, PartialEq, Eq, Structural, Debug)]
pub enum Button {
    Snooze,
    B1,
    B2,
    Time,
    SpkrLow,
    SpkrHigh,
    Left,
    Right,
    OnOff,
}

/// How tightly a sample must sit around a table's expected charge time.
/// Near-zero resistor branches charge almost instantly, so expected values
/// up to the small-value threshold accept anything below twice the expected
/// time; larger values use a proportional band.
#[derive(Clone, Copy, PartialEq, Eq, Structural, Debug)]
pub enum Tolerance {
    /// 0.7x to 1.4x band; expected values up to 30 count as small.
    Wide,
    /// 0.8x to 1.2x band; expected values below 10 count as small.
    Strict,
}

/// The wide-band acceptance test: below twice the expected value for small
/// expected values, else strictly inside 0.7x..1.4x of it.
pub open spec fn in_range_spec(value: u128, expected: u128) -> bool {
    if expected <= 30 {
        (value as int) < 2 * (expected as int)
    } else {
        (value as int) > (expected as int) * 7 / 10 && (value as int) < (expected as int) * 14
            / 10
    }
}

/// The strict-band acceptance test: below twice the expected value for
/// small expected values, else strictly inside 0.8x..1.2x of it.
pub open spec fn in_range_strict_spec(value: u128, expected: u128) -> bool {
    if expected < 10 {
        (value as int) < 2 * (expected as int)
    } else {
        (value as int) > (expected as int) * 8 / 10 && (value as int) < (expected as int) * 12
            / 10
    }
}

/// Whether a measured sample is accepted for a bucket with the given
/// expected charge time, under the given tolerance.
pub open spec fn sample_matches(value: u128, expected: u128, tol: Tolerance) -> bool {
    match tol {
        Tolerance::Wide => in_range_spec(value, expected),
        Tolerance::Strict => in_range_strict_spec(value, expected),
    }
}

/// Wide-band acceptance test on measured charge times.
pub fn in_range(value: u128, expected: u128) -> (r: bool)
    requires
        expected <= u128::MAX / 14,
    ensures
        r == in_range_spec(value, expected),
{
    if expected <= 30 {
        return value < expected * 2;
    }
    value > expected * 7 / 10 && value < expected * 14 / 10
}

/// Acceptance test under either tolerance.
pub fn matches_sample(value: u128, expected: u128, tol: Tolerance) -> (r: bool)
    requires
        expected <= u128::MAX / 14,
    ensures
        r == sample_matches(value, expected, tol),
{
    match tol {
        Tolerance::Wide => in_range(value, expected),
        Tolerance::Strict => {
            if expected < 10 {
                value < expected * 2
            } else {
                value > expected * 8 / 10 && value < expected * 12 / 10
            }
        },
    }
}

/// One key line's classification table: `(expected charge time, button)`
/// pairs in priority order, and the tolerance calibrated for the line.
pub struct KeyLine {
    pub table: Vec<(u128, Button)>,
    pub tolerance: Tolerance,
}

/// Expected charge times must be positive (a zero expectation matches
/// nothing) and small enough that the tolerance arithmetic cannot overflow.
pub open spec fn keyline_wf(k: KeyLine) -> bool {
    forall|i: int| 0 <= i < k.table@.len() ==> 1 <= (#[trigger] k.table@[i]).0 <= u128::MAX / 14
}

/// First entry of `table`, from index `i` on, whose expected value accepts
/// `sample`; the priority order makes the first match win.
pub open spec fn first_match_from(
    table: Seq<(u128, Button)>,
    tol: Tolerance,
    sample: u128,
    i: int,
) -> Option<Button>
    decreases table.len() - i,
{
    if i < 0 || i >= table.len() {
        None
    } else if sample_matches(sample, table[i].0, tol) {
        Some(table[i].1)
    } else {
        first_match_from(table, tol, sample, i + 1)
    }
}

/// The button a key line reports for a measured sample, if any.
pub open spec fn classify_spec(k: KeyLine, sample: u128) -> Option<Button> {
    first_match_from(k.table@, k.tolerance, sample, 0)
}

/// The classification table of key line 0 (speaker and channel buttons).
pub open spec fn line0_table() -> Seq<(u128, Button)> {
    seq![
        (1700u128, Button::Right),
        (850u128, Button::Left),
        (200u128, Button::SpkrHigh),
        (15u128, Button::SpkrLow),
    ]
}

/// The classification table of key line 1 (alarm and power buttons).
pub open spec fn line1_table() -> Seq<(u128, Button)> {
    seq![
        (4300u128, Button::B2),
        (1900u128, Button::B1),
        (950u128, Button::Snooze),
        (250u128, Button::Time),
        (15u128, Button::OnOff),
    ]
}

impl KeyLine {
    /// Key line 0, calibrated wide.
    pub fn line0() -> (r: KeyLine)
        ensures
            r.table@ == line0_table(),
            r.tolerance == Tolerance::Wide,
            keyline_wf(r),
    {
        let mut table: Vec<(u128, Button)> = Vec::new();
        table.push((1700, Button::Right));
        table.push((850, Button::Left));
        table.push((200, Button::SpkrHigh));
        table.push((15, Button::SpkrLow));
        proof {
            assert(table@ =~= line0_table());
        }
        KeyLine { table, tolerance: Tolerance::Wide }
    }

    /// Key line 1, calibrated wide.
    pub fn line1() -> (r: KeyLine)
        ensures
            r.table@ == line1_table(),
            r.tolerance == Tolerance::Wide,
            keyline_wf(r),
    {
        let mut table: Vec<(u128, Button)> = Vec::new();
        table.push((4300, Button::B2));
        table.push((1900, Button::B1));
        table.push((950, Button::Snooze));
        table.push((250, Button::Time));
        table.push((15, Button::OnOff));
        proof {
            assert(table@ =~= line1_table());
        }
        KeyLine { table, tolerance: Tolerance::Wide }
    }

    /// Classifies a measured charge time: the first table entry in priority
    /// order whose band accepts the sample wins; no acceptance, no button.
    pub fn classify(&self, sample: u128) -> (r: Option<Button>)
        requires
            keyline_wf(*self),
        ensures
            r == classify_spec(*self, sample),
    {
        let mut i: usize = 0;
        while i < self.table.len()
            invariant
                keyline_wf(*self),
                i <= self.table@.len(),
                classify_spec(*self, sample) == first_match_from(
                    self.table@,
                    self.tolerance,
                    sample,
                    i as int,
                ),
            decreases self.table@.len() - i,
        {
            let (expected, button) = self.table[i];
            if matches_sample(sample, expected, self.tolerance) {
                return Some(button);
            }
            i += 1;
        }
        None
    }
}

/// The decision step of a button press: which button a sample on the given
/// key line identifies, using that line's own table.
pub fn detect_button(keys: usize, sample: u128) -> (r: Option<Button>)
    ensures
        keys == 0 ==> r == first_match_from(line0_table(), Tolerance::Wide, sample, 0),
        keys != 0 ==> r == first_match_from(line1_table(), Tolerance::Wide, sample, 0),
{
    if keys == 0 {
        KeyLine::line0().classify(sample)
    } else {
        KeyLine::line1().classify(sample)
    }
}

/// The usable-sample decision of one measurement pass: a charge time that
/// reached the cap never crossed the threshold and is discarded.
pub fn charge_sample(elapsed_us: u128) -> (r: Option<u128>)
    ensures
        r == (if elapsed_us > MAX_CHARGE_US {
            None::<u128>
        } else {
            Some(elapsed_us)
        }),
{
    if elapsed_us > MAX_CHARGE_US {
        None
    } else {
        Some(elapsed_us)
    }
}

/// What two optional measurement passes yield together: the mean when both
/// succeeded, the surviving one when only one did, nothing otherwise.
pub open spec fn average_spec(value1: Option<u128>, value2: Option<u128>) -> Option<u128> {
    match (value1, value2) {
        (Option::None, Option::None) => Option::None,
        (Option::Some(x), Option::None) => Option::Some(x),
        (Option::None, Option::Some(x)) => Option::Some(x),
        (Option::Some(x), Option::Some(y)) => Option::Some(
            (((x as int) + (y as int)) / 2) as u128,
        ),
    }
}

/// Averages the two measurement passes, treating a failed pass as absent.
pub fn average(value1: Option<u128>, value2: Option<u128>) -> (r: Option<u128>)
    requires
        value1 is Some && value2 is Some ==> value1->0 + value2->0 <= u128::MAX,
    ensures
        r == average_spec(value1, value2),
{
    match (value1, value2) {
        (None, None) => None,
        (Some(x), None) => Some(x),
        (None, Some(x)) => Some(x),
        (Some(x), Some(y)) => Some((x + y) / 2),
    }
}

proof fn lemma_first_match_finds(
    table: Seq<(u128, Button)>,
    tol: Tolerance,
    sample: u128,
    j: int,
    i: int,
)
    requires
        0 <= j <= i < table.len(),
        sample_matches(sample, table[i].0, tol),
    ensures
        first_match_from(table, tol, sample, j) is Some,
    decreases i - j,
{
    if !sample_matches(sample, table[j].0, tol) {
        lemma_first_match_finds(table, tol, sample, j + 1, i);
    }
}

proof fn lemma_first_match_none(table: Seq<(u128, Button)>, tol: Tolerance, sample: u128, j: int)
    requires
        0 <= j,
        forall|m: int| j <= m < table.len() ==> !sample_matches(
            sample,
            (#[trigger] table[m]).0,
            tol,
        ),
    ensures
        first_match_from(table, tol, sample, j) is None,
    decreases table.len() - j,
{
    if j < table.len() {
        lemma_first_match_none(table, tol, sample, j + 1);
    }
}

/// Law: a sample exactly equal to some bucket's expected charge time is
/// never dropped — that bucket accepts it, so the classification yields a
/// button (the matching bucket's, or an earlier one whose band also covers
/// the sample).
pub proof fn lemma_exact_sample_classifies(k: KeyLine, i: int)
    requires
        keyline_wf(k),
        0 <= i < k.table@.len(),
    ensures
        classify_spec(k, k.table@[i].0) is Some,
{
    lemma_exact_sample_matches(k.table@[i].0, k.tolerance);
    lemma_first_match_finds(k.table@, k.tolerance, k.table@[i].0, 0, i);
}

/// Law: a sample that no bucket's band covers yields no classification —
/// in particular one that falls between two non-overlapping bands.
pub proof fn lemma_uncovered_sample_drops(k: KeyLine, sample: u128)
    requires
        forall|m: int| 0 <= m < k.table@.len() ==> !sample_matches(
            sample,
            (#[trigger] k.table@[m]).0,
            k.tolerance,
        ),
    ensures
        classify_spec(k, sample) is None,
{
    lemma_first_match_none(k.table@, k.tolerance, sample, 0);
}

/// Law: a sample exactly equal to a bucket's expected charge time is always
/// accepted by that bucket, under either tolerance, for every positive
/// expected value.
pub proof fn lemma_exact_sample_matches(expected: u128, tol: Tolerance)
    requires
        1 <= expected,
    ensures
        sample_matches(expected, expected, tol),
{
    let e = expected as int;
    vstd::arithmetic::div_mod::lemma_fundamental_div_mod(e * 7, 10);
    vstd::arithmetic::div_mod::lemma_mod_bound(e * 7, 10);
    vstd::arithmetic::div_mod::lemma_fundamental_div_mod(e * 14, 10);
    vstd::arithmetic::div_mod::lemma_mod_bound(e * 14, 10);
    vstd::arithmetic::div_mod::lemma_fundamental_div_mod(e * 8, 10);
    vstd::arithmetic::div_mod::lemma_mod_bound(e * 8, 10);
    vstd::arithmetic::div_mod::lemma_fundamental_div_mod(e * 12, 10);
    vstd::arithmetic::div_mod::lemma_mod_bound(e * 12, 10);
}

} // verus!
