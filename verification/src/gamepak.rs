//! The game cartridge: its header and its ROM.

use crate::text::{format_hex_byte, hex_byte_text};
use vstd::prelude::*;
use vstd::slice::slice_subrange;
use vstd::string::StringExecFns;
use vstd::utf8::{decode_utf8, valid_utf8};

verus! {

/// Length of the cartridge header in bytes.
pub const HEADER_SIZE: usize = 0xC0;

/// The header of a cartridge, taken from the first 192 bytes of a ROM
/// file. Besides the fields below, the byte at offset `0xB2` must be `0x96`
/// and the byte at offset `0xB3` must be zero.
#[derive(Debug, Clone)]
pub struct GamePakHeader {
    /// A 12 byte string at offset `0xA0`.
    pub title: String,
    /// A 4 byte code at offset `0xAC`: a unique code, a short title of two
    /// letters and the destination.
    pub game_code: String,
    /// A 2 byte code at offset `0xB0` that names the developer.
    pub maker_code: String,
}

/// The header and the ROM bytes of a cartridge.
#[derive(Debug, Clone)]
pub struct Gamepak {
    pub header: GamePakHeader,
    pub rom: Vec<u8>,
}

#[derive(Debug)]
#[allow(inconsistent_fields)]
pub enum GamePakError {
    Header { expected: String, got: String },
    Size { expected: usize, got: usize },
}

/// A header as text.
pub struct HeaderText {
    pub title: Seq<char>,
    pub game_code: Seq<char>,
    pub maker_code: Seq<char>,
}

/// An error as text.
#[allow(inconsistent_fields)]
pub enum ErrorText {
    Header { expected: Seq<char>, got: Seq<char> },
    Size { expected: usize, got: usize },
}

impl View for GamePakHeader {
    type V = HeaderText;

    open spec fn view(&self) -> HeaderText {
        HeaderText {
            title: self.title@,
            game_code: self.game_code@,
            maker_code: self.maker_code@,
        }
    }
}

impl View for GamePakError {
    type V = ErrorText;

    open spec fn view(&self) -> ErrorText {
        match *self {
            GamePakError::Header { expected, got } => ErrorText::Header {
                expected: expected@,
                got: got@,
            },
            GamePakError::Size { expected, got } => ErrorText::Size { expected, got },
        }
    }
}

/// The text with which the standard library describes why `bytes` are not
/// UTF-8.
pub uninterp spec fn utf8_error_text(bytes: Seq<u8>) -> Seq<char>;

/// What a field of the header holds, or why it holds no text.
pub open spec fn spec_field_text(bytes: Seq<u8>, expected: Seq<char>) -> Result<
    Seq<char>,
    ErrorText,
> {
    if valid_utf8(bytes) {
        Ok(decode_utf8(bytes))
    } else {
        Err(ErrorText::Header { expected, got: utf8_error_text(bytes) })
    }
}

/// What a header of 192 bytes holds. The three text fields are checked in
/// their order, then the two fixed bytes.
pub open spec fn spec_parse_header(header: Seq<u8>) -> Result<HeaderText, ErrorText> {
    if header.len() != HEADER_SIZE {
        Err(ErrorText::Size { expected: HEADER_SIZE, got: header.len() as usize })
    } else {
        match spec_field_text(
            header.subrange(0xA0, 0xAC),
            "Expected ASCII title at offset 0xA0-0xAB"@,
        ) {
            Err(error) => Err(error),
            Ok(title) => match spec_field_text(
                header.subrange(0xAC, 0xB0),
                "Expected ASCII Game Code at offset 0xAC-0xAF"@,
            ) {
                Err(error) => Err(error),
                Ok(game_code) => match spec_field_text(
                    header.subrange(0xB0, 0xB2),
                    "Expected ASCII Maker Code at offset 0xB0-0xB1"@,
                ) {
                    Err(error) => Err(error),
                    Ok(maker_code) => if header[0xB2] != 0x96 {
                        Err(
                            ErrorText::Header {
                                expected: "0x96 at offset 0xB2"@,
                                got: hex_byte_text(header[0xB2]),
                            },
                        )
                    } else if header[0xB3] != 0x00 {
                        Err(
                            ErrorText::Header {
                                expected: "0x00 at offset 0xB3"@,
                                got: hex_byte_text(header[0xB3]),
                            },
                        )
                    } else {
                        Ok(HeaderText { title, game_code, maker_code })
                    },
                },
            },
        }
    }
}

/// The least power of two that is not below `n`.
pub open spec fn spec_next_power_of_two(n: nat) -> nat
    decreases n,
{
    if n <= 1 {
        1
    } else {
        2 * spec_next_power_of_two((n + 1) / 2)
    }
}

/// `n` is a power of two.
pub open spec fn is_power_of_two(n: nat) -> bool
    decreases n,
{
    n == 1 || (n > 1 && n % 2 == 0 && is_power_of_two(n / 2))
}

/// The ROM of a cartridge file: what follows the header, filled up with
/// zero bytes to the next power of two.
pub open spec fn spec_rom_data(file: Seq<u8>) -> Seq<u8> {
    let data = file.skip(HEADER_SIZE as int);
    data + Seq::new((spec_next_power_of_two(data.len()) - data.len()) as nat, |i: int| 0u8)
}

/// What a cartridge file holds.
pub open spec fn spec_build_rom(file: Seq<u8>) -> Result<(HeaderText, Seq<u8>), ErrorText> {
    match spec_parse_header(file.take(HEADER_SIZE as int)) {
        Err(error) => Err(error),
        Ok(header) => Ok((header, spec_rom_data(file))),
    }
}

/// `spec_next_power_of_two` gives a power of two, not below its argument
/// and less than twice as large, so the least one.
pub proof fn lemma_next_power_of_two(n: nat)
    ensures
        is_power_of_two(spec_next_power_of_two(n)),
        n <= spec_next_power_of_two(n),
        n >= 1 ==> spec_next_power_of_two(n) < 2 * n,
        is_power_of_two(n) ==> spec_next_power_of_two(n) == n,
    decreases n,
{
    if n > 1 {
        lemma_next_power_of_two((n + 1) / 2);
        lemma_next_power_of_two(n / 2);
    }
}

/// Reads `bytes` as UTF-8 text with `std::str::from_utf8`. The call
/// succeeds exactly on valid UTF-8 and then gives the text that the bytes
/// encode; otherwise the error is the text in which the standard library
/// describes the fault.
#[verifier::external_body]
fn text_from_utf8(bytes: &[u8]) -> (text: Result<String, String>)
    ensures
        text is Ok <==> valid_utf8(bytes@),
        text matches Ok(decoded) ==> decoded@ == decode_utf8(bytes@),
        text matches Err(message) ==> message@ == utf8_error_text(bytes@),
{
    match std::str::from_utf8(bytes) {
        Ok(decoded) => Ok(decoded.to_string()),
        Err(error) => Err(error.to_string()),
    }
}

/// The text of a field of the header.
fn field_text(bytes: &[u8], expected: &str) -> (text: Result<String, GamePakError>)
    ensures
        match text {
            Ok(decoded) => spec_field_text(bytes@, expected@) == Ok::<Seq<char>, ErrorText>(
                decoded@,
            ),
            Err(error) => spec_field_text(bytes@, expected@) == Err::<Seq<char>, ErrorText>(
                error@,
            ),
        },
{
    match text_from_utf8(bytes) {
        Ok(value) => Ok(value),
        Err(message) => Err(
            GamePakError::Header { expected: String::from_str(expected), got: message },
        ),
    }
}

/// The least power of two that is not below `n`.
pub fn next_power_of_two(n: usize) -> (power: usize)
    requires
        n <= usize::MAX / 4,
    ensures
        power == spec_next_power_of_two(n as nat),
    decreases n,
{
    if n <= 1 {
        1
    } else {
        proof {
            lemma_next_power_of_two(((n + 1) / 2) as nat);
        }
        2 * next_power_of_two((n + 1) / 2)
    }
}

impl Gamepak {
    /// Takes the header from the first 192 bytes of `rom` and the ROM from
    /// the rest, which is filled with zero bytes to a power of two.
    pub fn build_rom(rom: Vec<u8>) -> (gamepak: Result<Gamepak, GamePakError>)
        requires
            rom.len() >= HEADER_SIZE,
            rom.len() - HEADER_SIZE <= usize::MAX / 4,
        ensures
            match gamepak {
                Ok(pak) => spec_build_rom(rom@) == Ok::<(HeaderText, Seq<u8>), ErrorText>(
                    (pak.header@, pak.rom@),
                ),
                Err(error) => spec_build_rom(rom@) == Err::<(HeaderText, Seq<u8>), ErrorText>(
                    error@,
                ),
            },
    {
        let header = match Gamepak::parse_header(slice_subrange(rom.as_slice(), 0, HEADER_SIZE)) {
            Ok(header) => header,
            Err(error) => {
                return Err(error);
            },
        };
        let mut rom_data = vstd::slice::slice_to_vec(
            slice_subrange(rom.as_slice(), HEADER_SIZE, rom.len()),
        );
        let ghost data = rom_data@;
        let size = next_power_of_two(rom_data.len());
        proof {
            lemma_next_power_of_two(data.len());
        }
        if size != rom_data.len() {
            rom_data.resize(size, 0x00);
        }
        assert(rom_data@ =~= spec_rom_data(rom@));
        Ok(Gamepak { header, rom: rom_data })
    }

    /// Takes the fields from a header and checks its two fixed bytes.
    pub fn parse_header(header: &[u8]) -> (parsed: Result<GamePakHeader, GamePakError>)
        ensures
            match parsed {
                Ok(fields) => spec_parse_header(header@) == Ok::<HeaderText, ErrorText>(fields@),
                Err(error) => spec_parse_header(header@) == Err::<HeaderText, ErrorText>(error@),
            },
    {
        if header.len() != HEADER_SIZE {
            return Err(GamePakError::Size { expected: HEADER_SIZE, got: header.len() });
        }
        let title = match field_text(
            slice_subrange(header, 0xA0, 0xAC),
            "Expected ASCII title at offset 0xA0-0xAB",
        ) {
            Ok(value) => value,
            Err(error) => {
                return Err(error);
            },
        };
        let game_code = match field_text(
            slice_subrange(header, 0xAC, 0xB0),
            "Expected ASCII Game Code at offset 0xAC-0xAF",
        ) {
            Ok(value) => value,
            Err(error) => {
                return Err(error);
            },
        };
        let maker_code = match field_text(
            slice_subrange(header, 0xB0, 0xB2),
            "Expected ASCII Maker Code at offset 0xB0-0xB1",
        ) {
            Ok(value) => value,
            Err(error) => {
                return Err(error);
            },
        };
        if header[0xB2] != 0x96 {
            return Err(
                GamePakError::Header {
                    expected: String::from_str("0x96 at offset 0xB2"),
                    got: format_hex_byte(header[0xB2]),
                },
            );
        }
        if header[0xB3] != 0x00 {
            return Err(
                GamePakError::Header {
                    expected: String::from_str("0x00 at offset 0xB3"),
                    got: format_hex_byte(header[0xB3]),
                },
            );
        }
        Ok(GamePakHeader { title, game_code, maker_code })
    }
}

} // verus!
