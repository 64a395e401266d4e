//! The command vocabulary of the SSD1306 controller and its byte encoding.
//!
//! Every command is one opcode byte, sometimes preceded or followed by
//! parameter bytes. `SSD1306Command::bytes` is the opcode table; `get_bytes`
//! assembles the same bytes with the masks and shifts of the datasheet.

use crate::fixed_vec::{command_bytes, command_from_array_len};
use tinyvec::ArrayVec;
use vstd::prelude::*;

verus! {

/// How the controller advances its address pointer after each data byte.
#[derive(Copy, Clone, Debug, PartialEq, Eq)]
pub enum AddressingMode {
    Horizontal,
    Vertical,
    Page,
}

impl AddressingMode {
    /// The parameter byte that selects this mode.
    pub open spec fn code_spec(self) -> u8 {
        match self {
            AddressingMode::Horizontal => 0,
            AddressingMode::Vertical => 1,
            AddressingMode::Page => 2,
        }
    }

    pub fn code(self) -> (c: u8)
        ensures
            c == self.code_spec(),
    {
        match self {
            AddressingMode::Horizontal => 0,
            AddressingMode::Vertical => 1,
            AddressingMode::Page => 2,
        }
    }
}

/// The deselect level of the common voltage, as a fraction of the supply.
#[derive(Copy, Clone, Debug, PartialEq, Eq)]
pub enum VComHDeselectLevel {
    VCOM065,
    VCOM077,
    VCOM083,
}

impl VComHDeselectLevel {
    /// The parameter byte that selects this level.
    pub open spec fn code_spec(self) -> u8 {
        match self {
            VComHDeselectLevel::VCOM065 => 0x00,
            VComHDeselectLevel::VCOM077 => 0x20,
            VComHDeselectLevel::VCOM083 => 0x30,
        }
    }

    pub fn code(self) -> (c: u8)
        ensures
            c == self.code_spec(),
    {
        match self {
            VComHDeselectLevel::VCOM065 => 0x00,
            VComHDeselectLevel::VCOM077 => 0x20,
            VComHDeselectLevel::VCOM083 => 0x30,
        }
    }
}

#[derive(Copy, Clone, Debug, PartialEq, Eq)]
pub enum SSD1306Command {
    // Fundamental commands
    SetContrast(u8),
    EntireDisplay(bool),
    Inverse(bool),
    DisplayOn(bool),
    // Scrolling commands
    ContinuousHorizontalScroll { left: bool, start_page: u8, time_interval: u8, end_page: u8 },
    ContinuousVerticalAndHorizontalScroll {
        left: bool,
        start_page: u8,
        time_interval: u8,
        end_page: u8,
        vertical_offset: u8,
    },
    ScrollActivation(bool),
    SetVerticalScrollArea { num_fixed_rows: u8, num_scrolling_rows: u8 },
    // Addressing commands
    SetColumnBoundForAddressing { higher_bound: bool, column: u8 },
    SetAddressingMode(AddressingMode),
    SetColumnAddress { start: u8, end: u8 },
    SetPageAddress { start: u8, end: u8 },
    SetPageStartAddress(u8),
    // Hardware configuration commands
    SetDisplayStartLine(u8),
    SetSegmentRemap(bool),
    SetMultiplexRatio(u8),
    SetComOutputScanDirection(bool),
    SetDisplayOffset(u8),
    SetComPinsHardwareConfiguration { sequential: bool, remapped: bool },
    // Timing and driving scheme setting commands
    SetDisplayClockDivRatioOscillatorFrequency { ratio: u8, frequency: u8 },
    SetPreChargePeriod { phase_1: u8, phase_2: u8 },
    SetVComHDeselectLevel(VComHDeselectLevel),
    Nop,
    ChargePump(bool),
}

/// A flag as the number it contributes to an opcode: 1 when set, else 0.
pub open spec fn flag(on: bool) -> int {
    if on {
        1
    } else {
        0
    }
}

/// Two four-bit fields in one byte: `low` in bits 0 to 3, `high` in bits 4
/// to 7, each cut to its four low bits.
pub open spec fn nibbles(low: u8, high: u8) -> u8 {
    (low % 16 + 16 * (high % 16)) as u8
}

impl SSD1306Command {
    /// The bytes that put this command on the bus, in order.
    pub open spec fn bytes(self) -> Seq<u8> {
        match self {
            SSD1306Command::SetContrast(value) => seq![0x81u8, value],
            SSD1306Command::EntireDisplay(on) => seq![(0xA4 + flag(on)) as u8],
            SSD1306Command::Inverse(on) => seq![(0xA6 + flag(on)) as u8],
            SSD1306Command::DisplayOn(on) => seq![(0xAE + flag(on)) as u8],
            SSD1306Command::ContinuousHorizontalScroll {
                left,
                start_page,
                time_interval,
                end_page,
            } => seq![
                (0x26 + flag(left)) as u8,
                0x00u8,
                start_page,
                time_interval,
                end_page,
                0x00u8,
                0xFFu8,
            ],
            SSD1306Command::ContinuousVerticalAndHorizontalScroll {
                left,
                start_page,
                time_interval,
                end_page,
                vertical_offset,
            } => seq![
                (0x29 + flag(left)) as u8,
                0x00u8,
                start_page,
                time_interval,
                end_page,
                vertical_offset,
            ],
            SSD1306Command::ScrollActivation(on) => seq![(0x2E + flag(on)) as u8],
            SSD1306Command::SetVerticalScrollArea { num_fixed_rows, num_scrolling_rows } => seq![
                0xA3u8,
                num_fixed_rows,
                num_scrolling_rows,
            ],
            SSD1306Command::SetColumnBoundForAddressing { higher_bound, column } => seq![
                (16 * flag(higher_bound) + column % 16) as u8,
            ],
            SSD1306Command::SetAddressingMode(mode) => seq![0x20u8, mode.code_spec()],
            SSD1306Command::SetColumnAddress { start, end } => seq![0x21u8, start, end],
            SSD1306Command::SetPageAddress { start, end } => seq![0x22u8, start, end],
            SSD1306Command::SetPageStartAddress(start_address) => seq![
                (0xB0 + start_address % 16) as u8,
            ],
            SSD1306Command::SetDisplayStartLine(start_line) => seq![
                (0x40 + start_line % 64) as u8,
            ],
            SSD1306Command::SetSegmentRemap(remap) => seq![(0x0A + flag(remap)) as u8],
            SSD1306Command::SetMultiplexRatio(ratio) => seq![0xA8u8, (ratio % 64) as u8],
            SSD1306Command::SetComOutputScanDirection(remapped) => seq![
                (0xC0 + 8 * flag(remapped)) as u8,
            ],
            SSD1306Command::SetDisplayOffset(offset) => seq![0xD3u8, (offset % 64) as u8],
            SSD1306Command::SetComPinsHardwareConfiguration { sequential, remapped } => seq![
                0x00u8,
                0xDAu8,
                (0x02 + 16 * flag(sequential) + 32 * flag(remapped)) as u8,
            ],
            SSD1306Command::SetDisplayClockDivRatioOscillatorFrequency { ratio, frequency } => seq![
                0xD5u8,
                nibbles(ratio, frequency),
            ],
            SSD1306Command::SetPreChargePeriod { phase_1, phase_2 } => seq![
                0xD9u8,
                nibbles(phase_1, phase_2),
            ],
            SSD1306Command::SetVComHDeselectLevel(level) => seq![0xDBu8, level.code_spec()],
            SSD1306Command::Nop => seq![0xE3u8],
            SSD1306Command::ChargePump(enabled) => seq![0x8Du8, (0x10 + 4 * flag(enabled)) as u8],
        }
    }

    /// Encodes the command. The result holds exactly `self.bytes()`.
    pub fn get_bytes(&self) -> (out: ArrayVec<[u8; 8]>)
        ensures
            command_bytes(out) == self.bytes(),
    {
        let (data, len): ([u8; 8], usize) = match *self {
            SSD1306Command::SetContrast(value) => ([0x81, value, 0, 0, 0, 0, 0, 0], 2),
            SSD1306Command::EntireDisplay(on) => {
                let on = flag_bit(on);
                proof {
                    lemma_flag_opcodes(on, 0);
                }
                ([0xA4 | on, 0, 0, 0, 0, 0, 0, 0], 1)
            },
            SSD1306Command::Inverse(on) => {
                let on = flag_bit(on);
                proof {
                    lemma_flag_opcodes(on, 0);
                }
                ([0xA6 | on, 0, 0, 0, 0, 0, 0, 0], 1)
            },
            SSD1306Command::DisplayOn(on) => {
                let on = flag_bit(on);
                proof {
                    lemma_flag_opcodes(on, 0);
                }
                ([0xAE | on, 0, 0, 0, 0, 0, 0, 0], 1)
            },
            SSD1306Command::ContinuousHorizontalScroll {
                left,
                start_page,
                time_interval,
                end_page,
            } => {
                let left = flag_bit(left);
                proof {
                    lemma_flag_opcodes(left, 0);
                }
                ([0x26 | left, 0x00, start_page, time_interval, end_page, 0x00, 0xFF, 0], 7)
            },
            SSD1306Command::ContinuousVerticalAndHorizontalScroll {
                left,
                start_page,
                time_interval,
                end_page,
                vertical_offset,
            } => {
                let left = flag_bit(left);
                proof {
                    lemma_flag_opcodes(left, 0);
                }
                let scroll_direction = 0x28 | (0x01 << left);
                (
                    [
                        scroll_direction,
                        0x00,
                        start_page,
                        time_interval,
                        end_page,
                        vertical_offset,
                        0,
                        0,
                    ],
                    6,
                )
            },
            SSD1306Command::ScrollActivation(on) => {
                let on = flag_bit(on);
                proof {
                    lemma_flag_opcodes(on, 0);
                }
                ([0x2E | on, 0, 0, 0, 0, 0, 0, 0], 1)
            },
            SSD1306Command::SetVerticalScrollArea { num_fixed_rows, num_scrolling_rows } => (
                [0xA3, num_fixed_rows, num_scrolling_rows, 0, 0, 0, 0, 0],
                3,
            ),
            SSD1306Command::SetColumnBoundForAddressing { higher_bound, column } => {
                let higher_bound = flag_bit(higher_bound);
                proof {
                    lemma_masked_opcodes(column, higher_bound);
                }
                let higher_bound = higher_bound << 4;
                ([higher_bound | column & 0x0F, 0, 0, 0, 0, 0, 0, 0], 1)
            },
            SSD1306Command::SetAddressingMode(mode) => ([0x20, mode.code(), 0, 0, 0, 0, 0, 0], 2),
            SSD1306Command::SetColumnAddress { start, end } => ([0x21, start, end, 0, 0, 0, 0, 0], 3),
            SSD1306Command::SetPageAddress { start, end } => ([0x22, start, end, 0, 0, 0, 0, 0], 3),
            SSD1306Command::SetPageStartAddress(start_address) => {
                proof {
                    lemma_masked_opcodes(start_address, 0);
                }
                ([0xB0 | start_address & 0x0F, 0, 0, 0, 0, 0, 0, 0], 1)
            },
            SSD1306Command::SetDisplayStartLine(start_line) => {
                proof {
                    lemma_masked_opcodes(start_line, 0);
                }
                ([0x40 | start_line & 0x3F, 0, 0, 0, 0, 0, 0, 0], 1)
            },
            SSD1306Command::SetSegmentRemap(remap) => {
                let remap = flag_bit(remap);
                proof {
                    lemma_flag_opcodes(remap, 0);
                }
                ([0x0A | remap, 0, 0, 0, 0, 0, 0, 0], 1)
            },
            SSD1306Command::SetMultiplexRatio(ratio) => {
                proof {
                    lemma_masked_opcodes(ratio, 0);
                }
                ([0xA8, ratio & 0x3F, 0, 0, 0, 0, 0, 0], 2)
            },
            SSD1306Command::SetComOutputScanDirection(remapped) => {
                let remapped = flag_bit(remapped);
                proof {
                    lemma_flag_opcodes(remapped, 0);
                }
                ([0xC0 | remapped << 3, 0, 0, 0, 0, 0, 0, 0], 1)
            },
            SSD1306Command::SetDisplayOffset(offset) => {
                proof {
                    lemma_masked_opcodes(offset, 0);
                }
                ([0xD3, offset & 0x3F, 0, 0, 0, 0, 0, 0], 2)
            },
            SSD1306Command::SetComPinsHardwareConfiguration { sequential, remapped } => {
                let sequential = flag_bit(sequential);
                let remapped = flag_bit(remapped);
                proof {
                    lemma_flag_opcodes(sequential, remapped);
                }
                ([0x00, 0xDA, 0x02 | sequential << 4 | remapped << 5, 0, 0, 0, 0, 0], 3)
            },
            SSD1306Command::SetDisplayClockDivRatioOscillatorFrequency { ratio, frequency } => {
                proof {
                    lemma_nibbles(ratio, frequency);
                }
                ([0xD5, ratio & 0x0F | ((frequency & 0x0F) << 4), 0, 0, 0, 0, 0, 0], 2)
            },
            SSD1306Command::SetPreChargePeriod { phase_1, phase_2 } => {
                proof {
                    lemma_nibbles(phase_1, phase_2);
                }
                ([0xD9, phase_1 & 0x0F | ((phase_2 & 0x0F) << 4), 0, 0, 0, 0, 0, 0], 2)
            },
            SSD1306Command::SetVComHDeselectLevel(level) => {
                let code = level.code();
                assert(code & 0x70 == code) by (bit_vector)
                    requires
                        code == 0x00 || code == 0x20 || code == 0x30,
                ;
                ([0xDB, code & 0x70, 0, 0, 0, 0, 0, 0], 2)
            },
            SSD1306Command::Nop => ([0xE3, 0, 0, 0, 0, 0, 0, 0], 1),
            SSD1306Command::ChargePump(enabled) => {
                let enabled = flag_bit(enabled);
                proof {
                    lemma_flag_opcodes(enabled, 0);
                }
                ([0x8D, 0x10 | enabled << 2, 0, 0, 0, 0, 0, 0], 2)
            },
        };
        let out = command_from_array_len(data, len);
        assert(command_bytes(out) =~= self.bytes());
        out
    }

    /// The number of bytes the command takes on the bus.
    pub fn get_len(&self) -> (n: usize)
        ensures
            n == self.bytes().len(),
            1 <= n <= 7,
    {
        match self {
            SSD1306Command::Nop
            | SSD1306Command::DisplayOn(_)
            | SSD1306Command::SetDisplayStartLine(_)
            | SSD1306Command::SetSegmentRemap(_)
            | SSD1306Command::SetComOutputScanDirection(_)
            | SSD1306Command::EntireDisplay(_)
            | SSD1306Command::Inverse(_)
            | SSD1306Command::ScrollActivation(_)
            | SSD1306Command::SetColumnBoundForAddressing { .. }
            | SSD1306Command::SetPageStartAddress(_) => 1,
            SSD1306Command::SetContrast(_)
            | SSD1306Command::SetAddressingMode(_)
            | SSD1306Command::SetMultiplexRatio(_)
            | SSD1306Command::SetDisplayOffset(_)
            | SSD1306Command::SetDisplayClockDivRatioOscillatorFrequency { .. }
            | SSD1306Command::SetPreChargePeriod { .. }
            | SSD1306Command::SetVComHDeselectLevel(_)
            | SSD1306Command::ChargePump(_) => 2,
            SSD1306Command::SetVerticalScrollArea { .. }
            | SSD1306Command::SetComPinsHardwareConfiguration { .. }
            | SSD1306Command::SetPageAddress { .. }
            | SSD1306Command::SetColumnAddress { .. } => 3,
            SSD1306Command::ContinuousVerticalAndHorizontalScroll { .. } => 6,
            SSD1306Command::ContinuousHorizontalScroll { .. } => 7,
        }
    }
}

/// A flag as a bit: 1 when set, else 0.
fn flag_bit(on: bool) -> (bit: u8)
    ensures
        bit == flag(on),
{
    if on {
        1
    } else {
        0
    }
}

/// Setting a clear bit of an opcode adds the weight of that bit.
proof fn lemma_flag_opcodes(b: u8, c: u8)
    by (bit_vector)
    requires
        b <= 1,
        c <= 1,
    ensures
        0xA4u8 | b == 0xA4 + b,
        0xA6u8 | b == 0xA6 + b,
        0xAEu8 | b == 0xAE + b,
        0x26u8 | b == 0x26 + b,
        0x2Eu8 | b == 0x2E + b,
        0x0Au8 | b == 0x0A + b,
        0x28u8 | (0x01u8 << b) == 0x29 + b,
        0xC0u8 | b << 3 == 0xC0 + 8 * b,
        0x10u8 | b << 2 == 0x10 + 4 * b,
        0x02u8 | b << 4 | c << 5 == 0x02 + 16 * b + 32 * c,
{
}

/// Masking keeps the low bits of a parameter, and an opcode whose low bits are
/// clear takes them by addition.
proof fn lemma_masked_opcodes(v: u8, b: u8)
    by (bit_vector)
    requires
        b <= 1,
    ensures
        v & 0x3F == v % 64,
        0xB0u8 | v & 0x0F == 0xB0 + v % 16,
        0x40u8 | v & 0x3F == 0x40 + v % 64,
        (b << 4) | v & 0x0F == 16 * b + v % 16,
{
}

/// The masks and the shift that put two parameters into one byte.
proof fn lemma_nibbles(low: u8, high: u8)
    by (bit_vector)
    ensures
        low & 0x0F | ((high & 0x0F) << 4) == low % 16 + 16 * (high % 16),
{
}

} // verus!
