//! Frame layout of the ceiling display's serial shift-register protocol.
//!
//! Every refresh transmits four bit sequences, most significant bit first:
//! three fixed 12-bit command words addressing the driver board, then one
//! 41-bit data frame.  The data frame is a fixed 9-bit header, four 8-bit
//! digit groups produced by the orientation-dependent wire mapping, and one
//! "dots" bit forced high at offset 21 regardless of digit content.  This
//! module computes those bits; clocking them onto the wire, and the timing
//! between edges, belongs to the caller that owns the GPIO lines.

use vstd::prelude::*;

verus! {

use crate::clock_data::ClockData;
use crate::clock_data::ceiling_mangle;
use crate::clock_data::digit_at;
use crate::clock_data::digit_pattern;
use crate::clock_data::mangled_pattern;
use crate::clock_data::row_pins_ceiling;

/// Offset within the data frame of the bit forced high to light the dots.
pub const DOTS_OFFSET: usize = 21;

/// First fixed command word sent before the data frame.
pub open spec fn command_word1() -> Seq<u8> {
    seq![1u8, 0, 0, 0, 0, 1, 0, 1, 0, 0, 1, 0]
}

/// Second fixed command word sent before the data frame.
pub open spec fn command_word2() -> Seq<u8> {
    seq![1u8, 0, 0, 0, 0, 0, 0, 0, 0, 0, 1, 0]
}

/// Third fixed command word sent before the data frame.
pub open spec fn command_word3() -> Seq<u8> {
    seq![1u8, 0, 0, 0, 0, 0, 0, 0, 0, 1, 1, 0]
}

/// Fixed 9-bit header opening the data frame.
pub open spec fn data_header() -> Seq<u8> {
    seq![1u8, 0, 1, 0, 1, 1, 0, 0, 0]
}

/// The order in which the four digit positions are placed into the data
/// frame: left to right when the panel hangs upwards, reversed otherwise to
/// compensate for the panel being viewed upside-down.
pub open spec fn digit_order(upwards: bool) -> Seq<int> {
    if upwards {
        seq![0int, 1, 2, 3]
    } else {
        seq![3int, 2, 1, 0]
    }
}

/// The 41-bit data frame for the given state: header, the four digit groups
/// in orientation order, and the dots bit forced high at `DOTS_OFFSET`.
pub open spec fn data_frame(d: ClockData) -> Seq<u8> {
    let order = digit_order(d.ceiling_upwards);
    (data_header() + row_pins_ceiling(d, order[0]) + row_pins_ceiling(d, order[1])
        + row_pins_ceiling(d, order[2]) + row_pins_ceiling(d, order[3])).update(
        DOTS_OFFSET as int,
        1u8,
    )
}

/// First command word, as data for the transmitter.
pub fn command_word1_bits() -> (r: [u8; 12])
    ensures
        r@ == command_word1(),
{
    let r: [u8; 12] = [1, 0, 0, 0, 0, 1, 0, 1, 0, 0, 1, 0];
    proof {
        assert(r@ =~= command_word1());
    }
    r
}

/// Second command word, as data for the transmitter.
pub fn command_word2_bits() -> (r: [u8; 12])
    ensures
        r@ == command_word2(),
{
    let r: [u8; 12] = [1, 0, 0, 0, 0, 0, 0, 0, 0, 0, 1, 0];
    proof {
        assert(r@ =~= command_word2());
    }
    r
}

/// Third command word, as data for the transmitter.
pub fn command_word3_bits() -> (r: [u8; 12])
    ensures
        r@ == command_word3(),
{
    let r: [u8; 12] = [1, 0, 0, 0, 0, 0, 0, 0, 0, 1, 1, 0];
    proof {
        assert(r@ =~= command_word3());
    }
    r
}

/// Builds the 41-bit data frame transmitted after the three command words.
pub fn build_data_frame(d: &ClockData) -> (r: [u8; 41])
    ensures
        r@ == data_frame(*d),
{
    let ghost target = data_frame(*d);
    let mut data: [u8; 41] = [0; 41];
    let header: [u8; 9] = [1, 0, 1, 0, 1, 1, 0, 0, 0];
    proof {
        assert(header@ =~= data_header());
    }
    let order: [usize; 4] = if d.ceiling_upwards {
        [0, 1, 2, 3]
    } else {
        [3, 2, 1, 0]
    };
    proof {
        assert(forall|g: int| 0 <= g < 4 ==> order@[g] as int == digit_order(
            d.ceiling_upwards,
        )[g]);
    }
    let mut i: usize = 0;
    while i < 9
        invariant
            i <= 9,
            header@ == data_header(),
            target == data_frame(*d),
            forall|t: int| 0 <= t < i ==> data@[t] == target[t],
        decreases 9 - i,
    {
        proof {
            assert(target[i as int] == data_header()[i as int]);
        }
        data[i] = header[i];
        i += 1;
    }
    let mut g: usize = 0;
    while g < 4
        invariant
            g <= 4,
            target == data_frame(*d),
            forall|t: int| 0 <= t < 4 ==> order@[t] as int == digit_order(d.ceiling_upwards)[t],
            forall|t: int| 0 <= t < 9 + 8 * g && t != DOTS_OFFSET ==> data@[t] == target[t],
        decreases 4 - g,
    {
        let pins = d.get_row_pins_ceiling(order[g]);
        let mut j: usize = 0;
        while j < 8
            invariant
                j <= 8,
                g < 4,
                target == data_frame(*d),
                pins@ == row_pins_ceiling(*d, digit_order(d.ceiling_upwards)[g as int]),
                forall|t: int| 0 <= t < 9 + 8 * g + j && t != DOTS_OFFSET ==> data@[t] == target[t],
            decreases 8 - j,
        {
            let k: usize = 9 + 8 * g + j;
            proof {
                if k != DOTS_OFFSET {
                    assert(target[k as int] == pins@[j as int]);
                }
            }
            data[k] = pins[j];
            j += 1;
        }
        g += 1;
    }
    data[DOTS_OFFSET] = 1;
    proof {
        assert(data@ =~= target);
    }
    data
}

/// Law: toggling the mounting orientation reverses the data-frame digit
/// order exactly, and toggling twice restores the original order.
pub proof fn lemma_digit_order_reversal(upwards: bool)
    ensures
        digit_order(!upwards) =~= digit_order(upwards).reverse(),
        digit_order(!!upwards) == digit_order(upwards),
{
}

/// Law: when the orientation flips mid-run, the next data frame reorders
/// the four digit groups — group `j` now carries the digit position that
/// group `3 - j` carried — while each digit position keeps the same digit
/// value and the same 7-segment content; only the wire routing of that
/// content changes with the orientation.
pub proof fn lemma_flip_reorders_groups(d: ClockData, flipped: ClockData, j: int)
    requires
        0 <= j < 4,
        flipped == (ClockData { ceiling_upwards: !d.ceiling_upwards, ..d }),
    ensures
        digit_order(flipped.ceiling_upwards)[j] == digit_order(d.ceiling_upwards)[3 - j],
        digit_at(flipped, digit_order(flipped.ceiling_upwards)[j]) == digit_at(
            d,
            digit_order(d.ceiling_upwards)[3 - j],
        ),
        row_pins_ceiling(flipped, digit_order(flipped.ceiling_upwards)[j]) == mangled_pattern(
            digit_pattern(digit_at(d, digit_order(d.ceiling_upwards)[3 - j])),
            ceiling_mangle(!d.ceiling_upwards),
        ),
{
}

} // verus!
