//! The cell-voltage block: which cell counts each device variant supports,
//! and how its ADC channels map to cell slots.
//!
//! A device always samples every channel it has. With fewer cells
//! connected, the topmost input of a group is wired to the last cell of
//! that group, and its reading stands in for a lower slot.

use crate::adc::AdcTransferFunction;
use crate::control::{be16, spec_be16};
use crate::units::MilliVolts;
use vstd::prelude::*;

verus! {

/// The BQ76920: five channels, three to five cells.
pub const BQ76920: usize = 5;

/// The BQ76930: ten channels, six to ten cells.
pub const BQ76930: usize = 10;

/// The BQ76940: fifteen channels, nine to fifteen cells.
pub const BQ76940: usize = 15;

/// A device with `variant` channels can monitor `cell_count` cells.
pub open spec fn supported_cell_count(variant: int, cell_count: int) -> bool {
    ||| (variant == BQ76920 && 3 <= cell_count <= 5)
    ||| (variant == BQ76930 && 6 <= cell_count <= 10)
    ||| (variant == BQ76940 && 9 <= cell_count <= 15)
}

/// The channel whose reading is reported in cell slot `slot`, on a device
/// with `variant` channels that monitors `cell_count` cells. Slots and
/// channels count from zero.
pub open spec fn source_channel(variant: int, cell_count: int, slot: int) -> int {
    let cc = cell_count;
    if slot == 2 && (cc == 3 || cc == 6 || cc == 9) {
        4
    } else if slot == 3 && (cc == 4 || cc == 7 || cc == 8 || cc == 10 || cc == 11 || cc == 12) {
        4
    } else if slot == 7 && variant >= BQ76930 && (cc == 6 || cc == 7 || cc == 9 || cc == 10) {
        9
    } else if slot == 8 && variant >= BQ76930 && (cc == 8 || cc == 9 || cc == 11 || cc == 12 || cc
        == 13) {
        9
    } else if slot == 12 && variant >= BQ76940 && (cc == 9 || cc == 10 || cc == 11) {
        14
    } else if slot == 13 && variant >= BQ76940 && (cc == 12 || cc == 13 || cc == 14) {
        14
    } else {
        slot
    }
}

/// The raw reading of `channel` in a cell-voltage block: two bytes, high
/// byte first.
pub open spec fn channel_reading(block: Seq<u8>, channel: int) -> int {
    spec_be16(block[2 * channel], block[2 * channel + 1])
}

/// The calibrated voltage reported in cell slot `slot`.
pub open spec fn slot_voltage(
    variant: int,
    cell_count: int,
    tf: AdcTransferFunction,
    block: Seq<u8>,
    slot: int,
) -> MilliVolts {
    MilliVolts(
        tf.spec_apply(channel_reading(block, source_channel(variant, cell_count, slot))) as u32,
    )
}

/// The calibrated voltages of all cell slots for a cell-voltage block.
pub open spec fn block_voltages(
    variant: int,
    cell_count: int,
    tf: AdcTransferFunction,
    block: Seq<u8>,
) -> Seq<MilliVolts> {
    Seq::new(variant as nat, |slot: int| slot_voltage(variant, cell_count, tf, block, slot))
}

/// Whether `cell_count` is a cell count that a device with `variant`
/// channels supports.
pub fn is_supported(variant: usize, cell_count: u8) -> (r: bool)
    ensures
        r == supported_cell_count(variant as int, cell_count as int),
{
    if variant == BQ76920 {
        3 <= cell_count && cell_count <= 5
    } else if variant == BQ76930 {
        6 <= cell_count && cell_count <= 10
    } else if variant == BQ76940 {
        9 <= cell_count && cell_count <= 15
    } else {
        false
    }
}

/// Converts a cell-voltage block to the voltages of all cell slots.
///
/// `block` holds two bytes for each of the `variant` channels. Slot
/// `slot` of the result is the transfer function applied to the reading
/// of the channel that [`source_channel`] names for it.
pub fn cell_block_voltages(
    variant: usize,
    cell_count: u8,
    tf: &AdcTransferFunction,
    block: &[u8],
) -> (cells: Vec<MilliVolts>)
    requires
        supported_cell_count(variant as int, cell_count as int),
        block@.len() == 2 * variant,
    ensures
        cells@ == block_voltages(variant as int, cell_count as int, *tf, block@),
{
    let mut cells: Vec<MilliVolts> = Vec::new();
    let mut i: usize = 0;
    while i < variant
        invariant
            i <= variant,
            variant <= 15,
            block@.len() == 2 * variant,
            cells@.len() == i,
            forall|k: int|
                0 <= k < i ==> (#[trigger] cells@[k]).0 == tf.spec_apply(
                    channel_reading(block@, k),
                ),
        decreases variant - i,
    {
        let adc_reading = be16(block[i * 2], block[i * 2 + 1]);
        cells.push(tf.apply(adc_reading));
        i += 1;
    }
    let cc = cell_count;
    if cc == 3 || cc == 6 || cc == 9 {
        let top = cells[4];
        cells[2] = top;
    } else if cc == 4 || cc == 7 || cc == 8 || cc == 10 || cc == 11 || cc == 12 {
        let top = cells[4];
        cells[3] = top;
    }
    if (variant == BQ76930 || variant == BQ76940) && (cc == 6 || cc == 7 || cc == 9 || cc == 10) {
        let top = cells[9];
        cells[7] = top;
    }
    if (variant == BQ76930 || variant == BQ76940) && (cc == 8 || cc == 9 || cc == 11 || cc == 12
        || cc == 13) {
        let top = cells[9];
        cells[8] = top;
    }
    if variant == BQ76940 && (cc == 9 || cc == 10 || cc == 11) {
        let top = cells[14];
        cells[12] = top;
    }
    if variant == BQ76940 && (cc == 12 || cc == 13 || cc == 14) {
        let top = cells[14];
        cells[13] = top;
    }
    assert(cells@ =~= block_voltages(variant as int, cell_count as int, *tf, block@));
    cells
}

} // verus!
