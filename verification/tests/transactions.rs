use st7735_embassy::bus::{
    first_step, hard_reset, init_commands, next_step, start_data, write_command, write_data,
};
use st7735_embassy::{
    BusOp, Command, Config, Error, Frame, Instruction, Orientation, PixelColor, ST7735, ST7735IF,
};

fn cmd(opcode: u8) -> Vec<BusOp> {
    vec![BusOp::DcLow, BusOp::Write(vec![opcode])]
}

fn cmd_with(opcode: u8, params: &[u8]) -> Vec<BusOp> {
    vec![BusOp::DcLow, BusOp::Write(vec![opcode]), BusOp::DcHigh, BusOp::Write(params.to_vec())]
}

fn expected_init(inverted: bool, rgb: u8, madctl: u8) -> Vec<BusOp> {
    let mut ops = vec![
        BusOp::RstHigh,
        BusOp::DelayMs(10),
        BusOp::RstLow,
        BusOp::DelayMs(10),
        BusOp::RstHigh,
    ];
    ops.extend(cmd(0x01));
    ops.push(BusOp::DelayMs(200));
    ops.extend(cmd(0x11));
    ops.push(BusOp::DelayMs(200));
    ops.extend(cmd_with(0xB1, &[0x01, 0x2C, 0x2D]));
    ops.extend(cmd_with(0xB2, &[0x01, 0x2C, 0x2D]));
    ops.extend(cmd_with(0xB3, &[0x01, 0x2C, 0x2D, 0x01, 0x2C, 0x2D]));
    ops.extend(cmd_with(0xB4, &[0x07]));
    ops.extend(cmd_with(0xC0, &[0xA2, 0x02, 0x84]));
    ops.extend(cmd_with(0xC1, &[0xC5]));
    ops.extend(cmd_with(0xC2, &[0x0A, 0x00]));
    ops.extend(cmd_with(0xC3, &[0x8A, 0x2A]));
    ops.extend(cmd_with(0xC4, &[0x8A, 0xEE]));
    ops.extend(cmd_with(0xC5, &[0x0E]));
    ops.extend(cmd(if inverted { 0x21 } else { 0x20 }));
    ops.extend(cmd_with(0x36, &[rgb]));
    ops.extend(cmd_with(0x3A, &[0x05]));
    ops.extend(cmd(0x29));
    ops.push(BusOp::DelayMs(200));
    ops.extend(cmd_with(0x36, &[madctl]));
    ops
}

#[test]
fn opcodes_match_the_controller() {
    let table = [
        (Instruction::SWRESET, 0x01),
        (Instruction::SLPOUT, 0x11),
        (Instruction::INVOFF, 0x20),
        (Instruction::INVON, 0x21),
        (Instruction::DISPON, 0x29),
        (Instruction::CASET, 0x2A),
        (Instruction::RASET, 0x2B),
        (Instruction::RAMWR, 0x2C),
        (Instruction::MADCTL, 0x36),
        (Instruction::COLMOD, 0x3A),
        (Instruction::FRMCTR1, 0xB1),
        (Instruction::FRMCTR2, 0xB2),
        (Instruction::FRMCTR3, 0xB3),
        (Instruction::INVCTR, 0xB4),
        (Instruction::PWCTR1, 0xC0),
        (Instruction::PWCTR2, 0xC1),
        (Instruction::PWCTR3, 0xC2),
        (Instruction::PWCTR4, 0xC3),
        (Instruction::PWCTR5, 0xC4),
        (Instruction::VMCTR1, 0xC5),
    ];
    for (instruction, opcode) in table {
        assert_eq!(instruction.opcode(), opcode);
    }
}

#[test]
fn flag_bytes_match_the_controller() {
    assert_eq!(PixelColor::RGB.bits(), 0x00);
    assert_eq!(PixelColor::BGR.bits(), 0x08);
    assert_eq!(Orientation::Portrait.bits(), 0x00);
    assert_eq!(Orientation::Landscape.bits(), 0x60);
    assert_eq!(Orientation::PortraitSwapped.bits(), 0xC0);
    assert_eq!(Orientation::LandscapeSwapped.bits(), 0xA0);
    assert!(Orientation::Landscape.is_landscape());
    assert!(Orientation::LandscapeSwapped.is_landscape());
    assert!(!Orientation::Portrait.is_landscape());
    assert!(!Orientation::PortraitSwapped.is_landscape());
}

#[test]
fn default_config_is_rgb_landscape() {
    let config = Config::default();
    assert_eq!(config.rgb, PixelColor::RGB);
    assert!(!config.inverted);
    assert_eq!(config.orientation, Orientation::Landscape);
    let iface = ST7735IF::new(config);
    assert_eq!(iface.orientation(), Orientation::Landscape);
    assert_eq!(iface.offset(), (0, 0));
}

#[test]
fn write_command_without_params_sends_opcode_only() {
    let mut ops = Vec::new();
    write_command(&mut ops, Instruction::RAMWR, &[]);
    assert_eq!(ops, vec![BusOp::DcLow, BusOp::Write(vec![0x2C])]);
}

#[test]
fn write_command_with_params_switches_to_data() {
    let mut ops = vec![BusOp::DelayMs(1)];
    write_command(&mut ops, Instruction::COLMOD, &[0x05]);
    assert_eq!(
        ops,
        vec![
            BusOp::DelayMs(1),
            BusOp::DcLow,
            BusOp::Write(vec![0x3A]),
            BusOp::DcHigh,
            BusOp::Write(vec![0x05]),
        ]
    );
    let mut full = Vec::new();
    write_command(&mut full, Instruction::FRMCTR3, &[1, 2, 3, 4, 5, 6, 7, 8]);
    assert_eq!(full, cmd_with(0xB3, &[1, 2, 3, 4, 5, 6, 7, 8]));
}

#[test]
fn start_data_and_write_data_append_in_order() {
    let mut ops = Vec::new();
    start_data(&mut ops);
    write_data(&mut ops, &[9, 8, 7]);
    assert_eq!(ops, vec![BusOp::DcHigh, BusOp::Write(vec![9, 8, 7])]);
}

#[test]
fn command_emits_its_delay_only_when_positive() {
    let mut ops = Vec::new();
    Command::new(Instruction::SLPOUT, vec![], 200).emit(&mut ops);
    Command::new(Instruction::INVCTR, vec![0x07], 0).emit(&mut ops);
    let mut expected = cmd(0x11);
    expected.push(BusOp::DelayMs(200));
    expected.extend(cmd_with(0xB4, &[0x07]));
    assert_eq!(ops, expected);
}

#[test]
fn hard_reset_pulses_the_reset_line() {
    let expected = vec![
        BusOp::RstHigh,
        BusOp::DelayMs(10),
        BusOp::RstLow,
        BusOp::DelayMs(10),
        BusOp::RstHigh,
    ];
    assert_eq!(ST7735IF::new(Config::default()).hard_reset(), expected);
    let mut ops = Vec::new();
    hard_reset(&mut ops);
    assert_eq!(ops, expected);
}

#[test]
fn init_table_has_sixteen_commands() {
    let table = init_commands(PixelColor::BGR, true);
    assert_eq!(table.len(), 16);
    assert_eq!(table[0], Command::new(Instruction::SWRESET, vec![], 200));
    assert_eq!(table[1], Command::new(Instruction::SLPOUT, vec![], 200));
    assert_eq!(table[4].params, vec![0x01, 0x2C, 0x2D, 0x01, 0x2C, 0x2D]);
    assert_eq!(table[12], Command::new(Instruction::INVON, vec![], 0));
    assert_eq!(table[13], Command::new(Instruction::MADCTL, vec![0x08], 0));
    assert_eq!(table[15], Command::new(Instruction::DISPON, vec![], 200));
    let plain = init_commands(PixelColor::RGB, false);
    assert_eq!(plain[12], Command::new(Instruction::INVOFF, vec![], 0));
    assert_eq!(plain[13], Command::new(Instruction::MADCTL, vec![0x00], 0));
    let delays: Vec<u32> = plain.iter().map(|c| c.delay_time).collect();
    assert_eq!(delays, vec![200, 200, 0, 0, 0, 0, 0, 0, 0, 0, 0, 0, 0, 0, 0, 200]);
}

#[test]
fn init_trace_for_default_config() {
    let iface = ST7735IF::new(Config::default());
    assert_eq!(iface.init(), expected_init(false, 0x00, 0x60));
    assert_eq!(iface.init(), iface.init());
}

#[test]
fn init_trace_for_inverted_bgr_portrait_swapped() {
    let config =
        Config { rgb: PixelColor::BGR, inverted: true, orientation: Orientation::PortraitSwapped };
    assert_eq!(ST7735IF::new(config).init(), expected_init(true, 0x08, 0xC8));
    let display = ST7735::<160, 128, 40960>::new(config).unwrap();
    assert_eq!(display.init(), expected_init(true, 0x08, 0xC8));
}

#[test]
fn init_trace_for_each_orientation() {
    for (orientation, madctl) in [
        (Orientation::Portrait, 0x08),
        (Orientation::Landscape, 0x68),
        (Orientation::PortraitSwapped, 0xC8),
        (Orientation::LandscapeSwapped, 0xA8),
    ] {
        let config = Config { rgb: PixelColor::BGR, inverted: false, orientation };
        assert_eq!(ST7735IF::new(config).init(), expected_init(false, 0x08, madctl));
    }
}

#[test]
fn orientation_command_joins_rotation_and_channel_order() {
    let iface = ST7735IF::new(Config {
        rgb: PixelColor::BGR,
        inverted: false,
        orientation: Orientation::Landscape,
    });
    assert_eq!(iface.orientation_command(Orientation::LandscapeSwapped), cmd_with(0x36, &[0xA8]));
    assert_eq!(iface.orientation_command(Orientation::Portrait), cmd_with(0x36, &[0x08]));
    let rgb = ST7735IF::new(Config::default());
    assert_eq!(rgb.orientation_command(Orientation::PortraitSwapped), cmd_with(0x36, &[0xC0]));
    assert_eq!(rgb.orientation(), Orientation::Landscape);
}

#[test]
fn set_orientation_takes_effect_when_sent() {
    let mut iface = ST7735IF::new(Config::default());
    let result = iface.set_orientation::<u8>(Orientation::Portrait, Ok(()));
    assert!(result.is_ok());
    assert_eq!(iface.orientation(), Orientation::Portrait);
    assert_eq!(iface.offset(), (0, 0));
}

#[test]
fn set_orientation_keeps_state_when_bus_failed() {
    let mut iface = ST7735IF::new(Config::default());
    let result = iface.set_orientation(Orientation::Portrait, Err(Error::Comm(7u8)));
    assert!(matches!(result, Err(Error::Comm(7))));
    assert_eq!(iface.orientation(), Orientation::Landscape);
}

#[test]
fn refused_write_is_a_communication_error() {
    assert!(matches!(Error::after_write(Err::<(), &str>("nack")), Err(Error::Comm("nack"))));
    assert!(Error::<&str>::after_write(Ok(())).is_ok());
    assert!(Error::<u8>::after_pin(Ok(())).is_ok());
}

#[test]
fn address_window_is_big_endian_and_shifted() {
    let mut iface = ST7735IF::new(Config::default());
    let mut expected = cmd(0x2A);
    expected.extend([BusOp::DcHigh, BusOp::Write(vec![0x00, 0x00, 0x00, 0x9F])]);
    expected.extend(cmd(0x2B));
    expected.extend([BusOp::DcHigh, BusOp::Write(vec![0x00, 0x00, 0x00, 0x7F])]);
    assert_eq!(iface.set_address_window(0, 0, 159, 127), expected);

    iface.set_offset(2, 0x0101);
    assert_eq!(iface.offset(), (2, 0x0101));
    let mut shifted = cmd(0x2A);
    shifted.extend([BusOp::DcHigh, BusOp::Write(vec![0x01, 0x2E, 0x02, 0x01])]);
    shifted.extend(cmd(0x2B));
    shifted.extend([BusOp::DcHigh, BusOp::Write(vec![0x01, 0x06, 0x03, 0x02])]);
    assert_eq!(iface.set_address_window(0x012C, 0x0005, 0x01FF, 0x0201), shifted);
}

#[test]
fn address_window_reaches_the_last_column() {
    let mut iface = ST7735IF::new(Config::default());
    iface.set_offset(0xFF00, 0);
    let ops = iface.set_address_window(0x00FF, 0xFFFF, 0x00FF, 0xFFFF);
    assert_eq!(ops[3], BusOp::Write(vec![0xFF, 0xFF, 0xFF, 0xFF]));
    assert_eq!(ops[7], BusOp::Write(vec![0xFF, 0xFF, 0xFF, 0xFF]));
}

fn expected_flush(columns: [u8; 4], rows: [u8; 4], data: Vec<u8>) -> Vec<BusOp> {
    let mut ops = cmd(0x2A);
    ops.extend([BusOp::DcHigh, BusOp::Write(columns.to_vec())]);
    ops.extend(cmd(0x2B));
    ops.extend([BusOp::DcHigh, BusOp::Write(rows.to_vec())]);
    ops.extend(cmd(0x2C));
    ops.extend([BusOp::DcHigh, BusOp::Write(data)]);
    ops
}

#[test]
fn flush_sends_window_then_whole_buffer() {
    let mut display = ST7735::<160, 128, 40960>::new(Config::default()).unwrap();
    display.set_pixel(159, 127, 0xF800);
    display.set_pixel(0, 0, 0x001F);
    let ops = display.flush();
    assert_eq!(ops.len(), 12);
    let mut data = vec![0u8; 40960];
    data[0] = 0x00;
    data[1] = 0x1F;
    data[40958] = 0xF8;
    assert_eq!(ops, expected_flush([0, 0, 0, 159], [0, 0, 0, 127], data));
    assert_eq!(ops[11], BusOp::Write(display.buffer().to_vec()));
}

#[test]
fn flush_shifts_the_window_by_the_offset() {
    let mut display = ST7735::<2, 3, 12>::new(Config::default()).unwrap();
    display.set_offset(26, 1);
    display.clear_raw(0xAA55);
    let data = vec![0xAA, 0x55, 0xAA, 0x55, 0xAA, 0x55, 0xAA, 0x55, 0xAA, 0x55, 0xAA, 0x55];
    assert_eq!(display.flush(), expected_flush([0, 26, 0, 27], [0, 1, 0, 3], data));
}

#[test]
fn flush_buffer_sends_the_given_bytes() {
    let mut display = ST7735::<2, 3, 12>::new(Config::default()).unwrap();
    display.clear_raw(0xFFFF);
    let before = *display.buffer();
    let ops = display.flush_buffer(&[1, 2, 3, 4, 5]);
    assert_eq!(ops, expected_flush([0, 0, 0, 1], [0, 0, 0, 2], vec![1, 2, 3, 4, 5]));
    assert_eq!(display.buffer(), &before);
}

#[test]
fn flush_frame_sends_the_frame() {
    let mut iface = ST7735IF::new(Config::default());
    iface.set_offset(1, 2);
    let frame = Frame::new(2, 2, Orientation::Landscape, [1, 2, 3, 4, 5, 6, 7, 8]).unwrap();
    assert_eq!(
        iface.flush_frame(&frame),
        expected_flush([0, 1, 0, 2], [0, 2, 0, 3], vec![1, 2, 3, 4, 5, 6, 7, 8])
    );
}

#[test]
fn playing_starts_at_the_first_operation() {
    assert_eq!(first_step(&[]), None);
    assert_eq!(first_step(&[BusOp::DcLow]), Some(0));
    assert_eq!(first_step(&ST7735IF::new(Config::default()).init()), Some(0));
}

#[test]
fn playing_goes_on_after_a_success() {
    let ops = [BusOp::DcLow, BusOp::Write(vec![0x2C]), BusOp::DcHigh];
    assert!(matches!(next_step::<u8>(&ops, 0, Ok(())), Ok(Some(1))));
    assert!(matches!(next_step::<u8>(&ops, 1, Ok(())), Ok(Some(2))));
    assert!(matches!(next_step::<u8>(&ops, 2, Ok(())), Ok(None)));
}

#[test]
fn playing_stops_at_the_first_failure() {
    let ops = [BusOp::DcLow, BusOp::Write(vec![0x2C]), BusOp::DcHigh];
    assert!(matches!(next_step(&ops, 0, Err(Error::Comm(3u8))), Err(Error::Comm(3))));
    assert!(matches!(next_step(&ops, 2, Err(Error::Comm("lost"))), Err(Error::Comm("lost"))));
}

#[test]
fn flush_frame_takes_dimensions_modulo_65536() {
    let iface = ST7735IF::new(Config::default());
    let frame = Frame::new(65537, 1, Orientation::Landscape, [5u8; 131074]).unwrap();
    let ops = iface.flush_frame(&frame);
    assert_eq!(ops.len(), 12);
    assert_eq!(ops[3], BusOp::Write(vec![0, 0, 0, 0]));
    assert_eq!(ops[7], BusOp::Write(vec![0, 0, 0, 0]));
    assert_eq!(ops[11], BusOp::Write(vec![5u8; 131074]));
}
