use nanohat_oled::{
    bitmap, bulk_writes, render, AddressingMode, BusWrite, Command, Oled, OledError, COMMAND_MODE,
    DATA_MODE, DEFAULT_CONTRAST, IMAGE_LEN,
};

fn cmd(byte: u8) -> BusWrite {
    BusWrite { mode: COMMAND_MODE, payload: vec![byte] }
}

fn clear_sequence() -> Vec<BusWrite> {
    let mut v = vec![cmd(0xae), cmd(0xb0), cmd(0x00), cmd(0x10)];
    v.extend(bulk_writes(&[0u8; 1024]));
    v.push(cmd(0xaf));
    v
}

#[test]
fn command_bytes() {
    let bytes: Vec<u8> = [
        Command::SetContrast,
        Command::ContentFollowsRam,
        Command::EntireDisplayOn,
        Command::SetAddressingMode,
        Command::DisplayOff,
        Command::DisplayOn,
        Command::NormalDisplay,
        Command::InverseDisplay,
    ]
    .iter()
    .map(|c| u8::from(*c))
    .collect();
    assert_eq!(bytes, vec![0x81, 0xa4, 0xa5, 0x20, 0xae, 0xaf, 0xa6, 0xa7]);
    let b: u8 = Command::DisplayOn.into();
    assert_eq!(b, 0xaf);
}

#[test]
fn addressing_mode_bytes() {
    assert_eq!(u8::from(AddressingMode::Horizontal), 0x00);
    assert_eq!(u8::from(AddressingMode::Vertical), 0x01);
    let b: u8 = AddressingMode::Page.into();
    assert_eq!(b, 0x02);
}

#[test]
fn send_command_and_data_queue_one_write_each() {
    let mut oled = Oled::new();
    oled.send_command(0xa7);
    oled.send_data(0x3c);
    assert_eq!(
        oled.take_writes(),
        vec![cmd(0xa7), BusWrite { mode: DATA_MODE, payload: vec![0x3c] }]
    );
    assert!(oled.take_writes().is_empty());
}

#[test]
fn send_array_data_is_chunked() {
    let mut oled = Oled::new();
    let data: Vec<u8> = (0..40u8).collect();
    oled.send_array_data(&data);
    let writes = oled.take_writes();
    assert_eq!(writes.len(), 2);
    assert_eq!(writes[0].payload, data[..31].to_vec());
    assert_eq!(writes[1].payload, data[31..].to_vec());
}

#[test]
fn set_text_xy_sends_page_and_column_nibbles() {
    let mut oled = Oled::new();
    oled.set_text_xy(3, 2);
    assert_eq!(oled.take_writes(), vec![cmd(0xb2), cmd(0x08), cmd(0x11)]);
    oled.set_text_xy(15, 7);
    assert_eq!(oled.take_writes(), vec![cmd(0xb7), cmd(0x08), cmd(0x17)]);
    oled.set_text_xy(0, 0);
    assert_eq!(oled.take_writes(), vec![cmd(0xb0), cmd(0x00), cmd(0x10)]);
}

#[test]
fn set_addressing_mode_is_remembered() {
    let mut oled = Oled::new();
    assert_eq!(oled.mode(), AddressingMode::Page);
    oled.set_addressing_mode(AddressingMode::Vertical);
    assert_eq!(oled.mode(), AddressingMode::Vertical);
    assert_eq!(oled.take_writes(), vec![cmd(0x20), cmd(0x01)]);
}

#[test]
fn clear_display_blanks_the_whole_screen() {
    let mut oled = Oled::new();
    oled.clear_display();
    let writes = oled.take_writes();
    assert_eq!(writes, clear_sequence());
    assert_eq!(writes.len(), 1 + 3 + 34 + 1);
    let data: usize = writes.iter().filter(|w| w.mode == DATA_MODE).map(|w| w.payload.len()).sum();
    assert_eq!(data, 1024);
}

#[test]
fn init_configures_and_clears() {
    let mut oled = Oled::new();
    oled.init();
    assert_eq!(oled.mode(), AddressingMode::Horizontal);
    let writes = oled.take_writes();
    let config: Vec<u8> = vec![
        0xae, 0x00, 0x10, 0x40, 0xb0, 0x81, DEFAULT_CONTRAST, 0xa1, 0xa6, 0xa8, 0x3f, 0xc8, 0xd3,
        0x00, 0xd5, 0x80, 0xd9, 0xf1, 0xda, 0x12, 0xdb, 0x40, 0x8d, 0x14, 0xaf,
    ];
    let mut expected: Vec<BusWrite> = config.into_iter().map(cmd).collect();
    expected.push(cmd(0x20));
    expected.push(cmd(0x00));
    expected.extend(clear_sequence());
    assert_eq!(writes, expected);
}

#[test]
fn init_with_contrast_sets_the_contrast() {
    let mut oled = Oled::new();
    oled.init_with_contrast(0x30);
    let writes = oled.take_writes();
    assert_eq!(writes[5], cmd(0x81));
    assert_eq!(writes[6], cmd(0x30));
}

#[test]
fn put_char_writes_its_glyph() {
    let mut oled = Oled::new();
    assert_eq!(oled.put_char('A'), Ok(()));
    assert_eq!(
        oled.take_writes(),
        vec![BusWrite { mode: DATA_MODE, payload: bitmap('A').unwrap().to_vec() }]
    );
}

#[test]
fn put_char_refuses_unsupported_character() {
    let mut oled = Oled::new();
    assert_eq!(oled.put_char('é'), Err(OledError::UnsupportedChar { c: 'é' }));
    assert!(oled.take_writes().is_empty());
}

#[test]
fn put_string_writes_characters_in_order() {
    let mut oled = Oled::new();
    assert_eq!(oled.put_string("AB"), Ok(()));
    let writes = oled.take_writes();
    let mut one_by_one = Oled::new();
    one_by_one.put_char('A').unwrap();
    one_by_one.put_char('B').unwrap();
    assert_eq!(writes, one_by_one.take_writes());
    assert_eq!(writes.len(), 2);
    assert_eq!(writes[0].payload, bitmap('A').unwrap().to_vec());
    assert_eq!(writes[1].payload, bitmap('B').unwrap().to_vec());
    assert!(writes.iter().all(|w| w.mode == DATA_MODE));
}

#[test]
fn put_string_of_nothing_writes_nothing() {
    let mut oled = Oled::new();
    assert_eq!(oled.put_string(""), Ok(()));
    assert!(oled.take_writes().is_empty());
}

#[test]
fn put_string_stops_at_first_unsupported_character() {
    let mut oled = Oled::new();
    assert_eq!(oled.put_string("Hi\u{7f}yo"), Err(OledError::UnsupportedChar { c: '\u{7f}' }));
    let writes = oled.take_writes();
    assert_eq!(writes.len(), 2);
    assert_eq!(writes[1].payload, bitmap('i').unwrap().to_vec());
}

#[test]
fn draw_image_refuses_wrong_size_and_queues_nothing() {
    let mut oled = Oled::new();
    let image = vec![255u8; 100];
    assert_eq!(oled.draw_image(&image, 1), Err(OledError::InvalidImageSize { len: 100 }));
    assert!(oled.take_writes().is_empty());
}

#[test]
fn draw_image_homes_cursor_then_sends_bitmap() {
    let mut oled = Oled::new();
    let image: Vec<u8> = (0..IMAGE_LEN).map(|i| (i % 256) as u8).collect();
    assert_eq!(oled.draw_image(&image, 128), Ok(()));
    let writes = oled.take_writes();
    let mut expected = vec![cmd(0xb0), cmd(0x00), cmd(0x10)];
    expected.extend(bulk_writes(&render(&image, 128).unwrap()));
    assert_eq!(writes, expected);
    assert_eq!(writes.len(), 3 + 34);
}
