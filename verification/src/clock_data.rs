//! Shared clock state and the pure segment-encoding model.
//!
//! A seven-segment glyph is a 7-entry bit vector, one entry per segment, laid
//! out in the canonical segment order shared by both displays:
//!
//! ```text
//!    0
//!   --
//! 1| 3|2
//!   --
//! 5|  |4
//!   --
//!   6
//! ```
//!
//! Bits are carried as `u8` values 0/1 rather than `bool` because the tables
//! are easier to read and edit that way.

use vstd::prelude::*;

verus! {

use crate::player::Player;

/// The single shared record both display drivers read on every refresh tick.
///
/// `hours`/`minutes` are the displayed time; the startup default is 88:88 so
/// that every segment lights until a real time is written.  `error` is a
/// status nibble (values above 15 are clamped when rendered).  The dim fields
/// are brightness percentages, `refresh_rate` the scan frequency in hertz,
/// and `ceiling_upwards` the mounting orientation of the ceiling panel.
pub struct ClockData {
    pub hours: u8,
    pub minutes: u8,
    pub has_alarm: bool,
    pub alarm_enabled: bool,
    pub error: u8,
    /// Brightness percentage of the matrix display, 0..=100.
    pub regular_dim: u8,
    /// Scan frequency in hertz for both displays; must stay positive.
    pub refresh_rate: u32,
    /// Brightness percentage of the ceiling display, 0..=100.
    pub ceiling_dim: u8,
    pub ceiling_upwards: bool,
    pub player: Option<Player>,
}

/// The fields the timing helpers divide by or subtract from must be in range:
/// a zero refresh rate would mean division by zero, and a dim level above
/// 100 would make the dark remainder negative.
pub open spec fn valid_timing(d: ClockData) -> bool {
    &&& d.refresh_rate >= 1
    &&& d.regular_dim <= 100
    &&& d.ceiling_dim <= 100
}

/// Seven-segment pattern for one glyph: digits 0 through 9, and a fixed
/// "undefined" glyph for any other value.
pub open spec fn digit_pattern(value: int) -> Seq<u8> {
    if value == 0 {
        seq![1u8, 1, 1, 0, 1, 1, 1]
    } else if value == 1 {
        seq![0u8, 0, 1, 0, 1, 0, 0]
    } else if value == 2 {
        seq![1u8, 0, 1, 1, 0, 1, 1]
    } else if value == 3 {
        seq![1u8, 0, 1, 1, 1, 0, 1]
    } else if value == 4 {
        seq![0u8, 1, 1, 1, 1, 0, 0]
    } else if value == 5 {
        seq![1u8, 1, 0, 1, 1, 0, 1]
    } else if value == 6 {
        seq![1u8, 1, 0, 1, 1, 1, 1]
    } else if value == 7 {
        seq![1u8, 0, 1, 0, 1, 0, 0]
    } else if value == 8 {
        seq![1u8, 1, 1, 1, 1, 1, 1]
    } else if value == 9 {
        seq![1u8, 1, 1, 1, 1, 0, 1]
    } else {
        seq![1u8, 1, 0, 1, 0, 1, 1]
    }
}

/// The digit value shown at position `pos` of the four-digit time readout:
/// tens of hours, ones of hours, tens of minutes, ones of minutes; any other
/// position shows the undefined glyph.
pub open spec fn digit_at(d: ClockData, pos: int) -> int {
    if pos == 0 {
        d.hours as int / 10
    } else if pos == 1 {
        d.hours as int % 10
    } else if pos == 2 {
        d.minutes as int / 10
    } else if pos == 3 {
        d.minutes as int % 10
    } else {
        10
    }
}

/// Left icon column: alarm-present lights segment 5, alarm-disabled lights
/// segment 1.
pub open spec fn left_icons(has_alarm: bool, alarm_enabled: bool) -> Seq<u8> {
    seq![
        0u8,
        if !alarm_enabled { 1u8 } else { 0u8 },
        0u8,
        0u8,
        0u8,
        if has_alarm { 1u8 } else { 0u8 },
        0u8,
    ]
}

/// The error nibble as rendered: values 16 and above are clamped to 15.
pub open spec fn clamped_error(error: u8) -> int {
    if error < 16 {
        error as int
    } else {
        15
    }
}

/// Right icon column: the four bits of the clamped error nibble, lowest bit
/// first, on segments 5, 4, 2, 1.
pub open spec fn error_icons(error: u8) -> Seq<u8> {
    let e = clamped_error(error);
    seq![
        0u8,
        if e / 8 % 2 == 1 { 1u8 } else { 0u8 },
        if e / 4 % 2 == 1 { 1u8 } else { 0u8 },
        0u8,
        if e / 2 % 2 == 1 { 1u8 } else { 0u8 },
        if e % 2 == 1 { 1u8 } else { 0u8 },
        0u8,
    ]
}

/// The fixed colon column between hours and minutes.
pub open spec fn colon_pattern() -> Seq<u8> {
    seq![0u8, 1, 0, 0, 0, 1, 0]
}

/// Row pattern of one matrix column: the seven columns are, left to right,
/// tens of hours, left icons, ones of hours, colon, tens of minutes, right
/// icons, ones of minutes.
pub open spec fn row_pins_led(d: ClockData, col: int) -> Seq<u8> {
    if col == 0 {
        digit_pattern(digit_at(d, 0))
    } else if col == 1 {
        left_icons(d.has_alarm, d.alarm_enabled)
    } else if col == 2 {
        digit_pattern(digit_at(d, 1))
    } else if col == 3 {
        colon_pattern()
    } else if col == 4 {
        digit_pattern(digit_at(d, 2))
    } else if col == 5 {
        error_icons(d.error)
    } else if col == 6 {
        digit_pattern(digit_at(d, 3))
    } else {
        seq![0u8, 0, 0, 0, 0, 0, 0]
    }
}

/// Permutation table mapping each of the ceiling display's 8 physical wire
/// positions to the canonical segment index it shows, for the given mounting
/// orientation.  The ceiling glyph is wired as
///
/// ```text
///    3
///   --
/// 2| 6|7.
///   --  4
/// 1|  |5.
///   --
///   0
/// ```
///
/// Entry 7 is a sentinel: the wire position it lands on carries the
/// repurposed decimal-point line and is forced dark.
pub open spec fn ceiling_mangle(upwards: bool) -> Seq<usize> {
    if upwards {
        seq![6usize, 5, 1, 0, 7, 4, 3, 2]
    } else {
        seq![0usize, 2, 4, 6, 7, 1, 3, 5]
    }
}

/// A usable permutation table: every entry indexes either one of the seven
/// canonical segments or the sentinel value 7.
pub open spec fn mangle_wf(mangle: Seq<usize>) -> bool {
    &&& mangle.len() == 8
    &&& forall|k: int| 0 <= k < 8 ==> #[trigger] mangle[k] <= 7
}

/// A 7-entry segment pattern rerouted through a permutation table onto the
/// 8 ceiling wire positions; the sentinel entry 7 yields a dark wire.
pub open spec fn mangled_pattern(pattern: Seq<u8>, mangle: Seq<usize>) -> Seq<u8> {
    Seq::new(8, |j: int| if mangle[j] == 7 {
        0u8
    } else {
        pattern[mangle[j] as int]
    })
}

/// Wire pattern of ceiling digit position `col` under orientation `upwards`.
pub open spec fn row_pins_ceiling(d: ClockData, col: int) -> Seq<u8> {
    mangled_pattern(digit_pattern(digit_at(d, col)), ceiling_mangle(d.ceiling_upwards))
}

/// One full scan cycle lasts `1_000_000 / refresh_rate` microseconds.
pub open spec fn period_us(rate: u32) -> int {
    1_000_000int / (rate as int)
}

/// The lit share (`up`) or dark share (`!up`) of one scan period, as a
/// percentage `dim` of the period.
pub open spec fn pwm_duration(rate: u32, dim: u8, up: bool) -> int {
    period_us(rate) * (if up {
        dim as int
    } else {
        100 - dim as int
    }) / 100
}

/// Law: for every positive refresh rate and dim percentage, the lit share
/// and the dark share of one scan period sum to the whole period, up to the
/// single microsecond that percentage rounding can swallow — and exactly to
/// it whenever the percentage split of the period is exact.  Neither share
/// is ever negative or above the period, and splitting the lit share evenly
/// over the seven columns rounds down consistently.
pub proof fn lemma_pwm_split(rate: u32, dim: u8)
    requires
        rate >= 1,
        dim <= 100,
    ensures
        0 <= pwm_duration(rate, dim, true) <= period_us(rate) <= 1_000_000,
        0 <= pwm_duration(rate, dim, false) <= period_us(rate),
        pwm_duration(rate, dim, true) + pwm_duration(rate, dim, false) <= period_us(rate),
        period_us(rate) - 1 <= pwm_duration(rate, dim, true) + pwm_duration(rate, dim, false),
        (period_us(rate) * (dim as int)) % 100 == 0 ==> pwm_duration(rate, dim, true)
            + pwm_duration(rate, dim, false) == period_us(rate),
        7 * (pwm_duration(rate, dim, true) / 7) <= pwm_duration(rate, dim, true),
{
    let q = period_us(rate);
    let a = q * (dim as int);
    let b = q * (100 - dim as int);
    let on = pwm_duration(rate, dim, true);
    let off = pwm_duration(rate, dim, false);
    assert(0 <= q <= 1_000_000) by (nonlinear_arith)
        requires
            rate >= 1,
            q == 1_000_000int / (rate as int),
    ;
    assert(a + b == 100 * q && 0 <= a && 0 <= b) by (nonlinear_arith)
        requires
            a == q * (dim as int),
            b == q * (100 - dim as int),
            0 <= dim <= 100,
            0 <= q,
    ;
    vstd::arithmetic::div_mod::lemma_fundamental_div_mod(a, 100);
    vstd::arithmetic::div_mod::lemma_fundamental_div_mod(b, 100);
    vstd::arithmetic::div_mod::lemma_mod_bound(a, 100);
    vstd::arithmetic::div_mod::lemma_mod_bound(b, 100);
    assert(100 * (on + off) == 100 * q - (a % 100 + b % 100));
    assert(a % 100 + b % 100 == 0 || a % 100 + b % 100 == 100);
    vstd::arithmetic::div_mod::lemma_fundamental_div_mod(on, 7);
    vstd::arithmetic::div_mod::lemma_mod_bound(on, 7);
}

/// Law: every error value of 16 or more renders exactly as 15 does — the
/// nibble is clamped before its bits reach the icons.
pub proof fn lemma_error_clamped(error: u8)
    requires
        error >= 16,
    ensures
        error_icons(error) == error_icons(15),
{
    assert(error_icons(error) =~= error_icons(15));
}

/// Law: the segment patterns of both displays are a pure function of the
/// rendered fields — two states that agree on time, alarm flags, error and
/// orientation render every column identically, whatever else differs.
pub proof fn lemma_patterns_deterministic(a: ClockData, b: ClockData, col: int)
    requires
        a.hours == b.hours,
        a.minutes == b.minutes,
        a.has_alarm == b.has_alarm,
        a.alarm_enabled == b.alarm_enabled,
        a.error == b.error,
        a.ceiling_upwards == b.ceiling_upwards,
    ensures
        row_pins_led(a, col) == row_pins_led(b, col),
        row_pins_ceiling(a, col) == row_pins_ceiling(b, col),
{
    assert(row_pins_led(a, col) =~= row_pins_led(b, col));
    assert(row_pins_ceiling(a, col) =~= row_pins_ceiling(b, col));
}

/// The permutation table for the given mounting orientation, as data.
pub fn ceiling_mangle_table(upwards: bool) -> (r: [usize; 8])
    ensures
        r@ == ceiling_mangle(upwards),
        mangle_wf(r@),
{
    let r: [usize; 8] = if upwards {
        [6, 5, 1, 0, 7, 4, 3, 2]
    } else {
        [0, 2, 4, 6, 7, 1, 3, 5]
    };
    proof {
        assert(r@ =~= ceiling_mangle(upwards));
    }
    r
}

impl ClockData {
    /// Startup state: 88:88 (every segment lit), no alarm, alarm arming on,
    /// no error, both displays at half brightness, 100 Hz scan, ceiling
    /// panel mounted upwards, no player yet.
    pub fn new() -> (r: Self)
        ensures
            r.hours == 88,
            r.minutes == 88,
            !r.has_alarm,
            r.alarm_enabled,
            r.error == 0,
            r.regular_dim == 50,
            r.refresh_rate == 100,
            r.ceiling_dim == 50,
            r.ceiling_upwards,
            r.player is None,
            valid_timing(r),
    {
        ClockData {
            hours: 88,
            minutes: 88,
            has_alarm: false,
            alarm_enabled: true,
            error: 0,
            regular_dim: 50,
            refresh_rate: 100,
            ceiling_dim: 50,
            ceiling_upwards: true,
            player: None,
        }
    }

    /// Seven-segment pattern of the digit at time position `pos`.
    pub fn get_time_pins(&self, pos: usize) -> (r: [u8; 7])
        ensures
            r@ == digit_pattern(digit_at(*self, pos as int)),
    {
        let value: u8 = match pos {
            0 => self.hours / 10,
            1 => self.hours % 10,
            2 => self.minutes / 10,
            3 => self.minutes % 10,
            _ => 10,
        };
        let r: [u8; 7] = match value {
            0 => [1, 1, 1, 0, 1, 1, 1],
            1 => [0, 0, 1, 0, 1, 0, 0],
            2 => [1, 0, 1, 1, 0, 1, 1],
            3 => [1, 0, 1, 1, 1, 0, 1],
            4 => [0, 1, 1, 1, 1, 0, 0],
            5 => [1, 1, 0, 1, 1, 0, 1],
            6 => [1, 1, 0, 1, 1, 1, 1],
            7 => [1, 0, 1, 0, 1, 0, 0],
            8 => [1, 1, 1, 1, 1, 1, 1],
            9 => [1, 1, 1, 1, 1, 0, 1],
            _ => [1, 1, 0, 1, 0, 1, 1],
        };
        proof {
            assert(r@ =~= digit_pattern(digit_at(*self, pos as int)));
        }
        r
    }

    /// Left icon column (alarm status).
    pub fn left_opts(&self) -> (r: [u8; 7])
        ensures
            r@ == left_icons(self.has_alarm, self.alarm_enabled),
    {
        let mut result: [u8; 7] = [0; 7];
        if self.has_alarm {
            result[5] = 1;
        }
        if !self.alarm_enabled {
            result[1] = 1;
        }
        proof {
            assert(result@ =~= left_icons(self.has_alarm, self.alarm_enabled));
        }
        result
    }

    /// Right icon column (error nibble, clamped to 15, lowest bit first).
    pub fn right_opts(&self) -> (r: [u8; 7])
        ensures
            r@ == error_icons(self.error),
    {
        let mut result: [u8; 7] = [0; 7];
        let err: u8 = if self.error < 16 {
            self.error
        } else {
            15
        };
        if err % 2 == 1 {
            result[5] = 1;
        }
        if (err / 2) % 2 == 1 {
            result[4] = 1;
        }
        if (err / 4) % 2 == 1 {
            result[2] = 1;
        }
        if (err / 8) % 2 == 1 {
            result[1] = 1;
        }
        proof {
            assert(result@ =~= error_icons(self.error));
        }
        result
    }

    /// Row pattern for matrix column `col`, freshly assembled from the
    /// current state.
    pub fn get_row_pins_led(&self, col: usize) -> (r: [u8; 7])
        ensures
            r@ == row_pins_led(*self, col as int),
    {
        match col {
            0 => self.get_time_pins(0),
            1 => self.left_opts(),
            2 => self.get_time_pins(1),
            3 => {
                let r: [u8; 7] = [0, 1, 0, 0, 0, 1, 0];
                proof {
                    assert(r@ =~= colon_pattern());
                }
                r
            },
            4 => self.get_time_pins(2),
            5 => self.right_opts(),
            6 => self.get_time_pins(3),
            _ => {
                let r: [u8; 7] = [0; 7];
                proof {
                    assert(r@ =~= seq![0u8, 0, 0, 0, 0, 0, 0]);
                }
                r
            },
        }
    }

    /// A digit's 7-segment pattern rerouted onto the ceiling display's 8
    /// wire positions through a permutation table.  An entry equal to the
    /// sentinel 7 forces its wire dark: that position carries the repurposed
    /// decimal-point line.  The guard is part of the wire contract; do not
    /// fold it into the table.
    pub fn mangle_pins(&self, pos: usize, mangle: &[usize; 8]) -> (r: [u8; 8])
        requires
            mangle_wf(mangle@),
        ensures
            r@ == mangled_pattern(digit_pattern(digit_at(*self, pos as int)), mangle@),
    {
        let mut pins: [u8; 8] = [0; 8];
        let pin_list = self.get_time_pins(pos);
        let ghost target = mangled_pattern(digit_pattern(digit_at(*self, pos as int)), mangle@);
        let mut j: usize = 0;
        while j < 8
            invariant
                j <= 8,
                mangle_wf(mangle@),
                pin_list@ == digit_pattern(digit_at(*self, pos as int)),
                target == mangled_pattern(pin_list@, mangle@),
                pins@.len() == 8,
                forall|t: int| 0 <= t < j ==> pins@[t] == target[t],
            decreases 8 - j,
        {
            if mangle[j] == 7 {
                pins[j] = 0;
            } else {
                pins[j] = pin_list[mangle[j]];
            }
            j += 1;
        }
        proof {
            assert(pins@ =~= target);
        }
        pins
    }

    /// Wire pattern for ceiling digit position `col` under the current
    /// mounting orientation.
    pub fn get_row_pins_ceiling(&self, col: usize) -> (r: [u8; 8])
        ensures
            r@ == row_pins_ceiling(*self, col as int),
    {
        let table = ceiling_mangle_table(self.ceiling_upwards);
        self.mangle_pins(col, &table)
    }

    /// Microseconds of one scan period spent lit (`up`) or dark (`!up`),
    /// according to `regular_dim`.
    pub fn pwm_time(&self, up: bool) -> (r: u64)
        requires
            self.refresh_rate >= 1,
            self.regular_dim <= 100,
        ensures
            r == pwm_duration(self.refresh_rate, self.regular_dim, up),
            r <= 1_000_000,
    {
        let pct: u64 = if up {
            self.regular_dim as u64
        } else {
            100 - self.regular_dim as u64
        };
        let period: u64 = 1_000_000 / self.refresh_rate as u64;
        proof {
            assert(period <= 1_000_000) by (nonlinear_arith)
                requires
                    period == 1_000_000int / (self.refresh_rate as int),
                    self.refresh_rate >= 1,
            ;
            assert(period * pct <= 1_000_000 * 100) by (nonlinear_arith)
                requires
                    period <= 1_000_000,
                    pct <= 100,
            ;
        }
        period * pct / 100
    }
}

} // verus!
