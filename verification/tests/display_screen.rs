use goliath::ssd1306::commands::{AddressingMode, SSD1306Command, VComHDeselectLevel};
use goliath::ssd1306::screen_space::{DisplayError, ScreenSpace};
use goliath::ssd1306::{BusTransfer, SSD1306, SSD1306Builder, COMMAND_REGISTER, DATA_REGISTER};

fn dirty_pages(screen: &ScreenSpace) -> Vec<bool> {
    (0..screen.page_count() as usize).map(|page| screen.is_dirty(page)).collect()
}

fn clean_screen(width: u32, height: u32) -> ScreenSpace {
    let mut screen = ScreenSpace::new(width, height);
    screen.take_pages_to_update();
    screen
}

fn page_of(page: u8, width: u8, data: Vec<u8>) -> Vec<BusTransfer> {
    vec![
        BusTransfer::Command(SSD1306Command::SetPageAddress { start: page, end: page }),
        BusTransfer::Command(SSD1306Command::SetColumnAddress { start: 0, end: width - 1 }),
        BusTransfer::Data(data),
    ]
}

#[test]
fn new_screen_is_blank_and_all_dirty() {
    let screen = ScreenSpace::new(128, 32);
    assert_eq!(screen.width(), 128);
    assert_eq!(screen.height(), 32);
    assert_eq!(screen.page_count(), 4);
    assert_eq!(screen.buffer_size(), 512);
    assert_eq!(screen.buffer(), vec![0u8; 512].as_slice());
    assert_eq!(dirty_pages(&screen), vec![true, true, true, true]);
}

#[test]
fn largest_screen_fills_the_buffer() {
    let screen = ScreenSpace::new(128, 64);
    assert_eq!(screen.page_count(), 8);
    assert_eq!(screen.buffer_size(), 1024);
    assert_eq!(dirty_pages(&screen), vec![true; 8]);
}

#[test]
fn height_below_one_page_gives_an_empty_screen() {
    let mut screen = ScreenSpace::new(128, 7);
    assert_eq!(screen.page_count(), 0);
    assert_eq!(screen.buffer_size(), 0);
    assert_eq!(screen.update(0, &[]), Ok(()));
    assert_eq!(screen.update(0, &[1]), Err(DisplayError::OutOfBounds));
}

#[test]
fn take_pages_hands_out_flags_and_cleans() {
    let mut screen = ScreenSpace::new(128, 32);
    let taken = screen.take_pages_to_update();
    assert_eq!(taken.as_slice(), [true, true, true, true].as_slice());
    assert_eq!(dirty_pages(&screen), vec![false; 4]);
    let again = screen.take_pages_to_update();
    assert_eq!(again.as_slice(), [false, false, false, false].as_slice());
}

#[test]
fn update_overwrites_exactly_the_written_range() {
    let mut screen = clean_screen(128, 32);
    assert_eq!(screen.update(130, &[1, 2, 3]), Ok(()));
    let mut expected = vec![0u8; 512];
    expected[130] = 1;
    expected[131] = 2;
    expected[132] = 3;
    assert_eq!(screen.buffer(), expected.as_slice());
}

#[test]
fn update_marks_the_page_that_holds_the_write() {
    let mut screen = clean_screen(128, 32);
    assert_eq!(screen.update(130, &[1, 2, 3]), Ok(()));
    assert_eq!(dirty_pages(&screen), vec![false, true, false, false]);
}

#[test]
fn update_across_a_page_boundary_marks_both_pages() {
    let mut screen = clean_screen(128, 32);
    assert_eq!(screen.update(127, &[9, 9]), Ok(()));
    assert_eq!(dirty_pages(&screen), vec![true, true, false, false]);
}

#[test]
fn update_of_a_whole_page_marks_only_that_page() {
    let mut screen = clean_screen(128, 32);
    assert_eq!(screen.update(256, &[0xFF; 128]), Ok(()));
    assert_eq!(dirty_pages(&screen), vec![false, false, true, false]);
}

#[test]
fn update_over_three_pages_marks_all_three() {
    let mut screen = clean_screen(128, 32);
    assert_eq!(screen.update(100, &[1; 200]), Ok(()));
    assert_eq!(dirty_pages(&screen), vec![true, true, true, false]);
}

#[test]
fn update_at_the_last_byte_is_accepted() {
    let mut screen = clean_screen(128, 32);
    assert_eq!(screen.update(511, &[7]), Ok(()));
    assert_eq!(screen.buffer()[511], 7);
    assert_eq!(dirty_pages(&screen), vec![false, false, false, true]);
}

#[test]
fn update_keeps_pages_that_were_dirty() {
    let mut screen = clean_screen(128, 32);
    assert_eq!(screen.update(0, &[1]), Ok(()));
    assert_eq!(screen.update(300, &[1]), Ok(()));
    assert_eq!(dirty_pages(&screen), vec![true, false, true, false]);
}

#[test]
fn empty_update_marks_nothing() {
    let mut screen = clean_screen(128, 32);
    assert_eq!(screen.update(200, &[]), Ok(()));
    assert_eq!(screen.update(512, &[]), Ok(()));
    assert_eq!(dirty_pages(&screen), vec![false; 4]);
}

#[test]
fn update_beyond_the_buffer_is_refused_and_changes_nothing() {
    let mut screen = clean_screen(128, 32);
    assert_eq!(screen.update(5, &[4, 4]), Ok(()));
    screen.take_pages_to_update();
    let before = screen.buffer().to_vec();
    assert_eq!(screen.update(510, &[1, 2, 3]), Err(DisplayError::OutOfBounds));
    assert_eq!(screen.update(513, &[]), Err(DisplayError::OutOfBounds));
    assert_eq!(screen.update(usize::MAX, &[1, 2]), Err(DisplayError::OutOfBounds));
    assert_eq!(screen.update(0, &[0; 513]), Err(DisplayError::OutOfBounds));
    assert_eq!(screen.buffer(), before.as_slice());
    assert_eq!(dirty_pages(&screen), vec![false; 4]);
}

#[test]
fn clear_blanks_the_buffer_and_marks_every_page() {
    let mut screen = clean_screen(128, 32);
    assert_eq!(screen.update(0, &[0xFF; 512]), Ok(()));
    screen.take_pages_to_update();
    screen.clear();
    assert_eq!(screen.buffer(), vec![0u8; 512].as_slice());
    assert_eq!(dirty_pages(&screen), vec![true; 4]);
}

#[test]
fn first_flush_sends_every_page_in_order() {
    let mut display = SSD1306::new(16, 16);
    let transfers = display.send_data_to_screen();
    let mut expected = page_of(0, 16, vec![0; 16]);
    expected.extend(page_of(1, 16, vec![0; 16]));
    assert_eq!(transfers, expected);
}

#[test]
fn flush_without_changes_sends_nothing() {
    let mut display = SSD1306::new(128, 32);
    assert_eq!(display.send_data_to_screen().len(), 12);
    assert_eq!(display.send_data_to_screen(), vec![]);
    assert_eq!(display.send_data_to_screen(), vec![]);
}

#[test]
fn update_screen_sends_only_the_changed_page() {
    let mut display = SSD1306::new(128, 32);
    display.send_data_to_screen();
    let transfers = display.update_screen(128 + 5, &[0xAB, 0xCD]).unwrap();
    let mut data = vec![0u8; 128];
    data[5] = 0xAB;
    data[6] = 0xCD;
    assert_eq!(transfers, page_of(1, 128, data));
    assert_eq!(display.send_data_to_screen(), vec![]);
}

#[test]
fn update_screen_sends_changed_pages_in_ascending_order() {
    let mut display = SSD1306::new(128, 32);
    display.send_data_to_screen();
    let transfers = display.update_screen(255, &[1, 2]).unwrap();
    let mut first = vec![0u8; 128];
    first[127] = 1;
    let mut second = vec![0u8; 128];
    second[0] = 2;
    let mut expected = page_of(1, 128, first);
    expected.extend(page_of(2, 128, second));
    assert_eq!(transfers, expected);
}

#[test]
fn update_screen_out_of_bounds_sends_nothing() {
    let mut display = SSD1306::new(128, 32);
    display.send_data_to_screen();
    assert_eq!(display.update_screen(512, &[1]), Err(DisplayError::OutOfBounds));
    assert_eq!(display.update_screen(0, &[1; 600]), Err(DisplayError::OutOfBounds));
    assert_eq!(display.send_data_to_screen(), vec![]);
}

#[test]
fn clear_screen_sends_every_page_blank() {
    let mut display = SSD1306::new(128, 32);
    display.send_data_to_screen();
    display.update_screen(0, &[0xFF; 512]).unwrap();
    let transfers = display.clear_screen();
    let mut expected = Vec::new();
    for page in 0..4 {
        expected.extend(page_of(page, 128, vec![0; 128]));
    }
    assert_eq!(transfers, expected);
}

#[test]
fn widest_screen_selects_all_columns() {
    let mut display = SSD1306::new(256, 8);
    let transfers = display.send_data_to_screen();
    assert_eq!(transfers.len(), 3);
    assert_eq!(
        transfers[1],
        BusTransfer::Command(SSD1306Command::SetColumnAddress { start: 0, end: 255 })
    );
    assert_eq!(transfers[2], BusTransfer::Data(vec![0; 256]));
}

#[test]
fn transfers_name_their_register() {
    let display = SSD1306::new(128, 32);
    let command = display.send_command(SSD1306Command::Nop);
    assert_eq!(command, BusTransfer::Command(SSD1306Command::Nop));
    assert_eq!(command.register(), COMMAND_REGISTER);
    assert_eq!(command.register(), 0x00);
    assert_eq!(BusTransfer::Data(vec![1]).register(), DATA_REGISTER);
    assert_eq!(BusTransfer::Data(vec![1]).register(), 0x40);
}

#[test]
fn driver_reports_its_size_and_its_shutdown_command() {
    let display = SSD1306::new(128, 32);
    assert_eq!(display.width(), 128);
    assert_eq!(display.height(), 32);
    assert_eq!(display.shutdown(), SSD1306Command::DisplayOn(false));
}

#[test]
fn builder_starts_from_the_defaults() {
    let builder = SSD1306::builder(128, 32);
    assert_eq!(
        builder,
        SSD1306Builder {
            oscillator_frequency: 0x8,
            clock_divide_ratio: 0x0,
            width: 128,
            height: 32,
            contrast: 0x0F,
        }
    );
}

#[test]
fn builder_parameters_are_set_independently() {
    let builder = SSD1306::builder(128, 64)
        .with_contrast(0x80)
        .with_oscillator_frequency(0xF)
        .with_clock_divide_ratio(0x3);
    assert_eq!(
        builder,
        SSD1306Builder {
            oscillator_frequency: 0xF,
            clock_divide_ratio: 0x3,
            width: 128,
            height: 64,
            contrast: 0x80,
        }
    );
    let only_contrast = SSD1306::builder(128, 64).with_contrast(1);
    assert_eq!(only_contrast.oscillator_frequency, 0x8);
    assert_eq!(only_contrast.clock_divide_ratio, 0x0);
}

#[test]
fn build_gives_the_bring_up_sequence_in_order() {
    let (display, commands) = SSD1306::builder(128, 32)
        .with_oscillator_frequency(0x9)
        .with_clock_divide_ratio(0x1)
        .with_contrast(0x55)
        .build();
    assert_eq!(
        commands,
        vec![
            SSD1306Command::DisplayOn(false),
            SSD1306Command::SetDisplayClockDivRatioOscillatorFrequency { ratio: 0x1, frequency: 0x9 },
            SSD1306Command::SetMultiplexRatio(31),
            SSD1306Command::SetDisplayOffset(0),
            SSD1306Command::SetDisplayStartLine(0),
            SSD1306Command::ChargePump(true),
            SSD1306Command::SetAddressingMode(AddressingMode::Page),
            SSD1306Command::SetSegmentRemap(false),
            SSD1306Command::SetComOutputScanDirection(false),
            SSD1306Command::SetComPinsHardwareConfiguration { sequential: false, remapped: false },
            SSD1306Command::SetSegmentRemap(true),
            SSD1306Command::SetComOutputScanDirection(false),
            SSD1306Command::SetPreChargePeriod { phase_1: 0x1, phase_2: 0x2 },
            SSD1306Command::SetContrast(0x55),
            SSD1306Command::SetVComHDeselectLevel(VComHDeselectLevel::VCOM077),
            SSD1306Command::EntireDisplay(false),
            SSD1306Command::Inverse(false),
            SSD1306Command::ScrollActivation(false),
            SSD1306Command::DisplayOn(true),
        ]
    );
    assert_eq!(display.width(), 128);
    assert_eq!(display.height(), 32);
}

#[test]
fn built_display_sends_the_whole_screen_first() {
    let (mut display, _) = SSD1306::builder(128, 32).build();
    assert_eq!(display.send_data_to_screen().len(), 12);
}
