//! Driver core for the SSD1306 page-addressed monochrome display.
//!
//! The driver keeps the screen contents and decides what has to go over the
//! bus. It does not own the bus: every operation returns the transfers to make,
//! in order, and the caller writes them to the device. A transfer is either a
//! command or one page of pixel data; the register byte that precedes it on the
//! bus tells the controller which.

pub mod commands;
pub mod screen_space;

use crate::fixed_vec::{flags_get, page_flags};
use crate::ssd1306::commands::{AddressingMode, SSD1306Command, VComHDeselectLevel};
use crate::ssd1306::screen_space::{
    fits_screen, overwritten, screen_fits, touches, DisplayError, ScreenSpace, ScreenView,
};
use vstd::prelude::*;

verus! {

/// The register byte that announces command bytes.
pub const COMMAND_REGISTER: u8 = 0x00;

/// The register byte that announces pixel data.
pub const DATA_REGISTER: u8 = 0x40;

/// One write to the display.
#[derive(Debug, PartialEq, Eq)]
pub enum BusTransfer {
    Command(SSD1306Command),
    Data(Vec<u8>),
}

/// A transfer as plain values.
pub enum BusTransferView {
    Command(SSD1306Command),
    Data(Seq<u8>),
}

impl View for BusTransfer {
    type V = BusTransferView;

    open spec fn view(&self) -> BusTransferView {
        match self {
            BusTransfer::Command(command) => BusTransferView::Command(*command),
            BusTransfer::Data(data) => BusTransferView::Data(data@),
        }
    }
}

impl BusTransfer {
    /// The register byte to write before the payload.
    pub fn register(&self) -> (register: u8)
        ensures
            register == (if self is Command {
                COMMAND_REGISTER
            } else {
                DATA_REGISTER
            }),
    {
        match self {
            BusTransfer::Command(_) => COMMAND_REGISTER,
            BusTransfer::Data(_) => DATA_REGISTER,
        }
    }
}

/// A list of transfers as plain values.
pub open spec fn views(transfers: Seq<BusTransfer>) -> Seq<BusTransferView> {
    transfers.map_values(|transfer: BusTransfer| transfer@)
}

/// Whether the controller can address a display of this size: the screen fits
/// the buffer, and the last column and the last row each fit a parameter byte.
pub open spec fn addressable(width: u32, height: u32) -> bool {
    &&& fits_screen(width, height)
    &&& 1 <= width <= 256
    &&& 1 <= height
}

/// Tests whether the controller can address a display of this size.
pub fn is_addressable(width: u32, height: u32) -> (ok: bool)
    ensures
        ok == addressable(width, height),
{
    screen_fits(width, height) && 1 <= width && width <= 256 && 1 <= height
}

/// The transfers that send one page: select the page, select all columns,
/// write the page's bytes.
pub open spec fn page_transfers(screen: ScreenView, page: int) -> Seq<BusTransferView> {
    seq![
        BusTransferView::Command(
            SSD1306Command::SetPageAddress { start: page as u8, end: page as u8 },
        ),
        BusTransferView::Command(
            SSD1306Command::SetColumnAddress { start: 0, end: (screen.width - 1) as u8 },
        ),
        BusTransferView::Data(
            screen.buffer.subrange(page * screen.width, (page + 1) * screen.width),
        ),
    ]
}

/// The transfers that send the dirty pages among the first `pages` pages, in
/// ascending order. Clean pages contribute nothing.
pub open spec fn flush_plan(screen: ScreenView, pages: int) -> Seq<BusTransferView>
    decreases pages,
{
    if pages <= 0 {
        Seq::empty()
    } else if screen.dirty[pages - 1] {
        flush_plan(screen, pages - 1) + page_transfers(screen, pages - 1)
    } else {
        flush_plan(screen, pages - 1)
    }
}

/// A screen of which no page is dirty has nothing to send.
pub proof fn lemma_clean_screen_sends_nothing(screen: ScreenView, pages: int)
    requires
        pages <= screen.dirty.len(),
        forall|page: int| 0 <= page < pages ==> !#[trigger] screen.dirty[page],
    ensures
        flush_plan(screen, pages) == Seq::<BusTransferView>::empty(),
    decreases pages,
{
    if pages > 0 {
        lemma_clean_screen_sends_nothing(screen, pages - 1);
    }
}

pub struct SSD1306 {
    screen_space: ScreenSpace,
}

impl SSD1306 {
    /// The screen the driver holds.
    pub closed spec fn screen(&self) -> ScreenView {
        self.screen_space@
    }

    /// The screen is consistent and the controller can address it.
    pub open spec fn wf(&self) -> bool {
        &&& self.screen().wf()
        &&& addressable(self.screen().width, self.screen().height)
    }

    /// A driver for a blank display of the given size, with every page dirty.
    pub fn new(width: u32, height: u32) -> (ssd: Self)
        requires
            addressable(width, height),
        ensures
            ssd.wf(),
            ssd.screen().width == width,
            ssd.screen().height == height,
            forall|i: int| 0 <= i < ssd.screen().buffer.len() ==> ssd.screen().buffer[i] == 0,
            forall|page: int| 0 <= page < ssd.screen().dirty.len() ==> ssd.screen().dirty[page],
    {
        SSD1306 { screen_space: ScreenSpace::new(width, height) }
    }

    /// A builder with the default bring-up parameters: oscillator frequency 8,
    /// clock divide ratio 0, contrast 15.
    pub fn builder(width: u32, height: u32) -> (builder: SSD1306Builder)
        ensures
            builder == (SSD1306Builder {
                oscillator_frequency: 0x8,
                clock_divide_ratio: 0x0,
                width,
                height,
                contrast: 0x0F,
            }),
    {
        SSD1306Builder {
            oscillator_frequency: 0x8,
            clock_divide_ratio: 0x0,
            width,
            height,
            contrast: 0x0F,
        }
    }

    /// The transfer that carries one command.
    pub fn send_command(&self, command: SSD1306Command) -> (transfer: BusTransfer)
        ensures
            transfer == BusTransfer::Command(command),
    {
        BusTransfer::Command(command)
    }

    /// Flushes the screen: gives the transfers that send every dirty page, in
    /// ascending page order, and marks all pages clean.
    ///
    /// Each dirty page takes three transfers, see `page_transfers`. Clean pages
    /// are skipped; with no dirty page the result is empty.
    pub fn send_data_to_screen(&mut self) -> (transfers: Vec<BusTransfer>)
        requires
            old(self).wf(),
        ensures
            final(self).wf(),
            views(transfers@) == flush_plan(old(self).screen(), old(self).screen().page_count as int),
            !old(self).screen().any_dirty() ==> transfers@.len() == 0,
            final(self).screen() == (ScreenView {
                dirty: Seq::new(old(self).screen().dirty.len(), |page: int| false),
                ..old(self).screen()
            }),
    {
        let ghost screen = self.screen();
        let pages_to_update = self.screen_space.take_pages_to_update();
        let screen_width = self.screen_space.width() as usize;
        let page_count = self.screen_space.page_count() as usize;
        let buffer = self.screen_space.buffer();
        let mut transfers: Vec<BusTransfer> = Vec::new();
        let mut page_idx: usize = 0;
        assert(views(transfers@) =~= flush_plan(screen, 0));
        while page_idx < page_count
            invariant
                screen.wf(),
                addressable(screen.width, screen.height),
                page_idx <= page_count,
                page_count == screen.page_count,
                screen_width == screen.width,
                buffer@ == screen.buffer,
                page_flags(pages_to_update) == screen.dirty,
                views(transfers@) == flush_plan(screen, page_idx as int),
            decreases page_count - page_idx,
        {
            let should_write = flags_get(&pages_to_update, page_idx);
            if should_write {
                assert(0 <= page_idx * screen_width && (page_idx + 1) * screen_width == page_idx
                    * screen_width + screen_width && (page_idx + 1) * screen_width <= page_count
                    * screen_width) by (nonlinear_arith)
                    requires
                        page_idx < page_count,
                ;
                let ghost before = transfers@;
                transfers.push(
                    BusTransfer::Command(
                        SSD1306Command::SetPageAddress {
                            start: page_idx as u8,
                            end: page_idx as u8,
                        },
                    ),
                );
                transfers.push(
                    BusTransfer::Command(
                        SSD1306Command::SetColumnAddress {
                            start: 0,
                            end: (screen_width - 1) as u8,
                        },
                    ),
                );
                let data = copy_range(
                    buffer,
                    page_idx * screen_width,
                    (page_idx + 1) * screen_width,
                );
                transfers.push(BusTransfer::Data(data));
                assert(views(transfers@) =~= views(before) + page_transfers(
                    screen,
                    page_idx as int,
                ));
            }
            page_idx += 1;
        }
        proof {
            if !screen.any_dirty() {
                lemma_clean_screen_sends_nothing(screen, page_count as int);
            }
        }
        transfers
    }

    /// Blanks the screen and flushes it: every page is sent.
    pub fn clear_screen(&mut self) -> (transfers: Vec<BusTransfer>)
        requires
            old(self).wf(),
        ensures
            final(self).wf(),
            final(self).screen() == (ScreenView {
                buffer: Seq::new(old(self).screen().buffer.len(), |i: int| 0u8),
                dirty: Seq::new(old(self).screen().dirty.len(), |page: int| false),
                ..old(self).screen()
            }),
            views(transfers@) == flush_plan(
                ScreenView {
                    buffer: Seq::new(old(self).screen().buffer.len(), |i: int| 0u8),
                    dirty: Seq::new(old(self).screen().dirty.len(), |page: int| true),
                    ..old(self).screen()
                },
                old(self).screen().page_count as int,
            ),
    {
        self.screen_space.clear();
        proof {
            let cleared = ScreenView {
                buffer: Seq::new(old(self).screen().buffer.len(), |i: int| 0u8),
                dirty: Seq::new(old(self).screen().dirty.len(), |page: int| true),
                ..old(self).screen()
            };
            assert(self.screen().buffer =~= cleared.buffer);
            assert(self.screen().dirty =~= cleared.dirty);
        }
        self.send_data_to_screen()
    }

    /// Writes `data` at `pos` and flushes the pages this changed, together
    /// with any that were dirty before.
    ///
    /// A write that would end behind the buffer is refused: nothing changes
    /// and nothing is sent.
    pub fn update_screen(&mut self, pos: usize, data: &[u8]) -> (r: Result<
        Vec<BusTransfer>,
        DisplayError,
    >)
        requires
            old(self).wf(),
        ensures
            final(self).wf(),
            r is Err <==> pos + data@.len() > old(self).screen().buffer.len(),
            r matches Err(error) ==> error == DisplayError::OutOfBounds,
            r is Err ==> final(self).screen() == old(self).screen(),
            r matches Ok(transfers) ==> {
                let written = ScreenView {
                    buffer: overwritten(old(self).screen().buffer, pos as int, data@),
                    dirty: Seq::new(
                        old(self).screen().dirty.len(),
                        |page: int|
                            old(self).screen().dirty[page] || touches(
                                page,
                                old(self).screen().width as int,
                                pos as int,
                                data@.len() as int,
                            ),
                    ),
                    ..old(self).screen()
                };
                &&& views(transfers@) == flush_plan(written, written.page_count as int)
                &&& final(self).screen() == (ScreenView {
                    dirty: Seq::new(written.dirty.len(), |page: int| false),
                    ..written
                })
            },
    {
        match self.screen_space.update(pos, data) {
            Err(error) => Err(error),
            Ok(()) => Ok(self.send_data_to_screen()),
        }
    }

    /// The command that switches the panel off, for when the driver is given
    /// up.
    pub fn shutdown(&self) -> (command: SSD1306Command)
        ensures
            command == SSD1306Command::DisplayOn(false),
    {
        SSD1306Command::DisplayOn(false)
    }

    pub fn width(&self) -> (width: u32)
        ensures
            width == self.screen().width,
    {
        self.screen_space.width()
    }

    pub fn height(&self) -> (height: u32)
        ensures
            height == self.screen().height,
    {
        self.screen_space.height()
    }
}

/// A copy of the bytes from index `from` up to `to`.
fn copy_range(bytes: &[u8], from: usize, to: usize) -> (out: Vec<u8>)
    requires
        from <= to <= bytes@.len(),
    ensures
        out@ == bytes@.subrange(from as int, to as int),
{
    let mut out: Vec<u8> = Vec::new();
    let mut i: usize = from;
    while i < to
        invariant
            from <= i <= to <= bytes@.len(),
            out@ == bytes@.subrange(from as int, i as int),
        decreases to - i,
    {
        out.push(bytes[i]);
        assert(out@ =~= bytes@.subrange(from as int, i + 1));
        i += 1;
    }
    out
}

/// The parameters of the bring-up sequence, each with a default that can be
/// replaced before the sequence is built.
#[derive(Copy, Clone, Debug, PartialEq, Eq)]
pub struct SSD1306Builder {
    pub oscillator_frequency: u8,
    pub clock_divide_ratio: u8,
    pub width: u32,
    pub height: u32,
    pub contrast: u8,
}

/// The commands that bring the controller up, in the order in which they are
/// sent. The panel is switched off first and on last; everything between
/// configures it.
pub open spec fn bring_up_sequence(builder: SSD1306Builder) -> Seq<SSD1306Command> {
    seq![
        SSD1306Command::DisplayOn(false),
        SSD1306Command::SetDisplayClockDivRatioOscillatorFrequency {
            ratio: builder.clock_divide_ratio,
            frequency: builder.oscillator_frequency,
        },
        SSD1306Command::SetMultiplexRatio((builder.height - 1) as u8),
        SSD1306Command::SetDisplayOffset(0),
        SSD1306Command::SetDisplayStartLine(0),
        SSD1306Command::ChargePump(true),
        SSD1306Command::SetAddressingMode(AddressingMode::Page),
        SSD1306Command::SetSegmentRemap(false),
        SSD1306Command::SetComOutputScanDirection(false),
        SSD1306Command::SetComPinsHardwareConfiguration { sequential: false, remapped: false },
        SSD1306Command::SetSegmentRemap(true),
        SSD1306Command::SetComOutputScanDirection(false),
        SSD1306Command::SetPreChargePeriod { phase_1: 0x1, phase_2: 0x2 },
        SSD1306Command::SetContrast(builder.contrast),
        SSD1306Command::SetVComHDeselectLevel(VComHDeselectLevel::VCOM077),
        SSD1306Command::EntireDisplay(false),
        SSD1306Command::Inverse(false),
        SSD1306Command::ScrollActivation(false),
        SSD1306Command::DisplayOn(true),
    ]
}

impl SSD1306Builder {
    pub fn with_oscillator_frequency(self, frequency: u8) -> (builder: Self)
        ensures
            builder == (SSD1306Builder { oscillator_frequency: frequency, ..self }),
    {
        Self { oscillator_frequency: frequency, ..self }
    }

    pub fn with_clock_divide_ratio(self, ratio: u8) -> (builder: Self)
        ensures
            builder == (SSD1306Builder { clock_divide_ratio: ratio, ..self }),
    {
        Self { clock_divide_ratio: ratio, ..self }
    }

    pub fn with_contrast(self, contrast: u8) -> (builder: Self)
        ensures
            builder == (SSD1306Builder { contrast, ..self }),
    {
        Self { contrast, ..self }
    }

    /// Builds the driver and the command sequence that brings the controller
    /// up. The commands are to be sent in order before the driver is used.
    pub fn build(self) -> (built: (SSD1306, Vec<SSD1306Command>))
        requires
            addressable(self.width, self.height),
        ensures
            built.0.wf(),
            built.0.screen().width == self.width,
            built.0.screen().height == self.height,
            forall|i: int|
                0 <= i < built.0.screen().buffer.len() ==> built.0.screen().buffer[i] == 0,
            forall|page: int|
                0 <= page < built.0.screen().dirty.len() ==> built.0.screen().dirty[page],
            built.1@ == bring_up_sequence(self),
    {
        let mut commands: Vec<SSD1306Command> = Vec::new();
        commands.push(SSD1306Command::DisplayOn(false));
        commands.push(
            SSD1306Command::SetDisplayClockDivRatioOscillatorFrequency {
                frequency: self.oscillator_frequency,
                ratio: self.clock_divide_ratio,
            },
        );
        commands.push(SSD1306Command::SetMultiplexRatio((self.height - 1) as u8));
        commands.push(SSD1306Command::SetDisplayOffset(0));
        commands.push(SSD1306Command::SetDisplayStartLine(0));
        commands.push(SSD1306Command::ChargePump(true));
        commands.push(SSD1306Command::SetAddressingMode(AddressingMode::Page));
        commands.push(SSD1306Command::SetSegmentRemap(false));
        commands.push(SSD1306Command::SetComOutputScanDirection(false));
        commands.push(
            SSD1306Command::SetComPinsHardwareConfiguration { sequential: false, remapped: false },
        );
        commands.push(SSD1306Command::SetSegmentRemap(true));
        commands.push(SSD1306Command::SetComOutputScanDirection(false));
        commands.push(SSD1306Command::SetPreChargePeriod { phase_1: 0x1, phase_2: 0x2 });
        commands.push(SSD1306Command::SetContrast(self.contrast));
        commands.push(SSD1306Command::SetVComHDeselectLevel(VComHDeselectLevel::VCOM077));
        commands.push(SSD1306Command::EntireDisplay(false));
        commands.push(SSD1306Command::Inverse(false));
        commands.push(SSD1306Command::ScrollActivation(false));
        commands.push(SSD1306Command::DisplayOn(true));
        assert(commands@ =~= bring_up_sequence(self));
        (SSD1306::new(self.width, self.height), commands)
    }
}

} // verus!
