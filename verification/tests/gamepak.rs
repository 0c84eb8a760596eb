use gba::gamepak::{next_power_of_two, GamePakError, GamePakHeader, Gamepak};
use gba::system_bus::Bus;

fn gen_header() -> Vec<u8> {
    let mut header_bytes = vec![0x00; 0xC0];

    header_bytes[0xA0..0xAC].copy_from_slice("ZEROMISSIONE".as_bytes());
    header_bytes[0xAC..0xB0].copy_from_slice("BMXE".as_bytes());
    header_bytes[0xB0..0xB2].copy_from_slice("01".as_bytes());
    header_bytes[0xB2] = 0x96;

    header_bytes
}

#[test]
fn test_valid_header() {
    let header_bytes = gen_header();
    let header = Gamepak::parse_header(&header_bytes).unwrap();

    assert_eq!(header.title, "ZEROMISSIONE");
    assert_eq!(header.game_code, "BMXE");
    assert_eq!(header.maker_code, "01");
}

#[test]
fn test_invalid_header() {
    let mut header_bytes = gen_header();

    // Invalid UTF-8 in title
    let temp = header_bytes[0xA1];
    header_bytes[0xA1] = 0xFF;
    let header = Gamepak::parse_header(&header_bytes);
    assert!(matches!(
        header,
        Err(GamePakError::Header {
            expected: _,
            got: _
        })
    ));
    header_bytes[0xA1] = temp;

    // Unexpected value at offset `0xB2`
    header_bytes[0xB2] = 0xFF;
    let header = Gamepak::parse_header(&header_bytes);
    assert!(matches!(
        header,
        Err(GamePakError::Header {
            expected: _,
            got: _,
        })
    ));
    header_bytes[0xB2] = 0x96;

    // Unexpected value at offset `0xB3`
    header_bytes[0xB3] = 0x1;
    let header = Gamepak::parse_header(&header_bytes);
    assert!(matches!(
        header,
        Err(GamePakError::Header {
            expected: _,
            got: _,
        })
    ));
    header_bytes[0xB3] = 0x00;

    // Correct header
    let header = Gamepak::parse_header(&header_bytes);
    assert!(matches!(
        header,
        Ok(GamePakHeader {
            title: _,
            game_code: _,
            maker_code: _
        })
    ));
}

#[test]
fn test_invalid_size() {
    let mut header_bytes = gen_header();
    header_bytes.resize(0xC1, 0x00);

    // Invalid size
    let header = Gamepak::parse_header(&header_bytes);
    assert!(matches!(
        header,
        Err(GamePakError::Size {
            expected: 0xC0,
            got: 0xC1
        })
    ));

    // Valid size
    let header = Gamepak::parse_header(&header_bytes[..0xC0]);
    assert!(matches!(
        header,
        Ok(GamePakHeader {
            title: _,
            game_code: _,
            maker_code: _
        })
    ));
}

#[test]
fn test_rom_size() {
    let mut rom = gen_header(); // Len 0xC0
    rom.resize(0x3FFA, 0x00);
    let gamepak = Gamepak::build_rom(rom);
    assert!(gamepak.is_ok());
    let gamepak = gamepak.unwrap();
    let rom_len = gamepak.rom.len();
    assert_eq!(rom_len, 0x4000);
    assert_eq!(rom_len & (rom_len - 1), 0); // ROM size should be power of 2
}

fn header_error(header_bytes: &[u8]) -> (String, String) {
    match Gamepak::parse_header(header_bytes) {
        Err(GamePakError::Header { expected, got }) => (expected, got),
        other => panic!("no header error: {other:?}"),
    }
}

#[test]
fn test_header_error_texts() {
    let mut header_bytes = gen_header();
    header_bytes[0xA1] = 0xFF;
    assert_eq!(
        header_error(&header_bytes),
        (
            "Expected ASCII title at offset 0xA0-0xAB".to_string(),
            std::str::from_utf8(&header_bytes[0xA0..0xAC]).unwrap_err().to_string()
        )
    );
    assert_eq!(header_error(&header_bytes).1, "invalid utf-8 sequence of 1 bytes from index 1");

    let mut header_bytes = gen_header();
    header_bytes[0xAF] = 0xC3;
    assert_eq!(
        header_error(&header_bytes),
        (
            "Expected ASCII Game Code at offset 0xAC-0xAF".to_string(),
            "incomplete utf-8 byte sequence from index 3".to_string()
        )
    );

    let mut header_bytes = gen_header();
    header_bytes[0xB0] = 0x80;
    assert_eq!(header_error(&header_bytes).0, "Expected ASCII Maker Code at offset 0xB0-0xB1");

    let mut header_bytes = gen_header();
    header_bytes[0xB2] = 0xFF;
    assert_eq!(
        header_error(&header_bytes),
        ("0x96 at offset 0xB2".to_string(), "0xFF".to_string())
    );
    header_bytes[0xB2] = 0x0A;
    assert_eq!(header_error(&header_bytes).1, "0x0A");

    let mut header_bytes = gen_header();
    header_bytes[0xB3] = 0x01;
    assert_eq!(
        header_error(&header_bytes),
        ("0x00 at offset 0xB3".to_string(), "0x01".to_string())
    );
}

#[test]
fn test_header_checks_in_order() {
    // A bad title is reported before a bad fixed byte.
    let mut header_bytes = gen_header();
    header_bytes[0xA0] = 0xFF;
    header_bytes[0xB2] = 0x00;
    assert_eq!(header_error(&header_bytes).0, "Expected ASCII title at offset 0xA0-0xAB");
    // A short header is a size error whatever it holds.
    assert!(matches!(
        Gamepak::parse_header(&header_bytes[..0x10]),
        Err(GamePakError::Size { expected: 0xC0, got: 0x10 })
    ));
}

#[test]
fn test_header_with_multibyte_text() {
    let mut header_bytes = gen_header();
    header_bytes[0xB0..0xB2].copy_from_slice("é".as_bytes());
    let header = Gamepak::parse_header(&header_bytes).unwrap();
    assert_eq!(header.maker_code, "é");
}

#[test]
fn test_rom_padding() {
    // The ROM is what follows the header, filled with zero bytes.
    let mut rom = gen_header();
    rom.extend_from_slice(&[1, 2, 3, 4, 5]);
    let gamepak = Gamepak::build_rom(rom).unwrap();
    assert_eq!(gamepak.rom, vec![1, 2, 3, 4, 5, 0, 0, 0]);
    assert_eq!(gamepak.header.title, "ZEROMISSIONE");

    // A ROM whose size is a power of two stays as it is.
    let mut rom = gen_header();
    rom.extend_from_slice(&[9; 16]);
    assert_eq!(Gamepak::build_rom(rom).unwrap().rom, vec![9; 16]);

    // A file that ends with its header has a ROM of one zero byte.
    assert_eq!(Gamepak::build_rom(gen_header()).unwrap().rom, vec![0]);
}

#[test]
fn test_rom_with_bad_header() {
    let mut rom = gen_header();
    rom[0xB2] = 0;
    rom.extend_from_slice(&[1, 2, 3]);
    assert!(matches!(Gamepak::build_rom(rom), Err(GamePakError::Header { .. })));
}

#[test]
fn test_next_power_of_two() {
    assert_eq!(next_power_of_two(0), 1);
    assert_eq!(next_power_of_two(1), 1);
    assert_eq!(next_power_of_two(2), 2);
    assert_eq!(next_power_of_two(3), 4);
    assert_eq!(next_power_of_two(0x3F3A), 0x4000);
    for n in 0..5000usize {
        assert_eq!(next_power_of_two(n), n.next_power_of_two());
    }
}

fn test_gamepak() -> Gamepak {
    let header = GamePakHeader {
        title: "TEST ROM".to_string(),
        game_code: "TEST".to_string(),
        maker_code: "RA".to_string(),
    };
    let rom = vec![0x00; 0x4000];
    Gamepak { header, rom }
}

fn test_bios() -> Vec<u8> {
    (0..0x4000u32).map(|i| (i % 251) as u8).collect()
}

#[test]
fn test_bus_startup() {
    let bus = Bus::new(test_gamepak(), test_bios());

    assert!(bus.bios_active());
}

#[test]
fn test_bus_reads_bios_words() {
    let mut bus = Bus::new(test_gamepak(), test_bios());
    assert!(bus.can_read_word(0));
    assert_eq!(bus.read_word(0), 0x0302_0100);
    assert_eq!(bus.read_word(0x100), u32::from_le_bytes([5, 6, 7, 8]));
    assert!(bus.can_read_word(0x3FFC));
    assert!(!bus.can_read_word(0x3FFD));
    assert!(!bus.can_read_word(0x4000));
    assert!(!bus.can_read_word(0x0800_0000));
    assert_eq!(bus.gamepak().header.title, "TEST ROM");

    bus.toggle_bios();
    assert!(!bus.bios_active());
    assert!(!bus.can_read_word(0));
    bus.toggle_bios();
    assert!(bus.bios_active());

    // A BIOS image that is too short maps only what it holds.
    let short = Bus::new(test_gamepak(), vec![1, 2, 3, 4, 5]);
    assert!(short.can_read_word(0));
    assert!(short.can_read_word(1));
    assert!(!short.can_read_word(2));
    assert_eq!(short.read_word(1), 0x0504_0302);
}
