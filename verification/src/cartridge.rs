//! The cartridge image and the fields of its header.

use vstd::prelude::*;

verus! {

/// Offset of the first title byte.
pub const TITLE_START: usize = 0x0134;

/// Length of the title field.
pub const TITLE_LENGTH: usize = 16;

/// Offset of the mapper-type byte.
pub const TYPE_OFFSET: usize = 0x0147;

/// Offset of the ROM-size code.
pub const ROM_SIZE_OFFSET: usize = 0x0148;

/// Offset of the RAM-size code.
pub const RAM_SIZE_OFFSET: usize = 0x0149;

/// Offset of the region byte.
pub const REGION_OFFSET: usize = 0x014A;

/// Offset just behind the header: an image shorter than this has no complete header.
pub const HEADER_END: usize = 0x0150;

/// The largest ROM-size code whose byte count fits every supported `usize`.
pub const MAX_ROM_SIZE_CODE: u8 = 16;

/// The mapper that a cartridge carries, with its extras.
#[derive(Clone, Copy, Debug, PartialEq, Eq, Structural)]
pub enum CartridgeType {
    RomOnly,
    MBC1 { ram: bool, battery: bool },
    MBC3 { timer: bool, ram: bool, battery: bool },
    Unsupported(u8),
}

/// The mapper that a header's type byte names.
pub open spec fn type_of_code(code: u8) -> CartridgeType {
    if code == 0x00 {
        CartridgeType::RomOnly
    } else if code == 0x01 {
        CartridgeType::MBC1 { ram: false, battery: false }
    } else if code == 0x02 {
        CartridgeType::MBC1 { ram: true, battery: false }
    } else if code == 0x03 {
        CartridgeType::MBC1 { ram: true, battery: true }
    } else if code == 0x0F {
        CartridgeType::MBC3 { timer: true, ram: false, battery: true }
    } else if code == 0x10 {
        CartridgeType::MBC3 { timer: true, ram: true, battery: true }
    } else if code == 0x11 {
        CartridgeType::MBC3 { timer: false, ram: false, battery: false }
    } else if code == 0x12 {
        CartridgeType::MBC3 { timer: false, ram: true, battery: false }
    } else if code == 0x13 {
        CartridgeType::MBC3 { timer: false, ram: true, battery: true }
    } else {
        CartridgeType::Unsupported(code)
    }
}

/// The ROM byte count that a size code stands for: 32 KiB doubled `code` times.
pub open spec fn rom_bytes(code: nat) -> nat
    decreases code,
{
    if code == 0 {
        0x8000
    } else {
        2 * rom_bytes((code - 1) as nat)
    }
}

/// The RAM byte count that a size code stands for.
pub open spec fn ram_bytes(code: u8) -> usize {
    if code == 2 {
        0x2000
    } else if code == 3 {
        0x8000
    } else if code == 4 {
        0x20000
    } else if code == 5 {
        0x10000
    } else {
        0
    }
}

/// How many of the first `limit` bytes from `start` on come before the first zero byte.
pub open spec fn text_length(data: Seq<u8>, start: int, limit: nat) -> nat
    decreases limit,
{
    if limit == 0 || data[start] == 0 {
        0
    } else {
        1 + text_length(data, start + 1, (limit - 1) as nat)
    }
}

/// The title field as text: the bytes before the first zero byte, each taken as the character
/// of that code.
pub open spec fn title_text(data: Seq<u8>) -> Seq<char> {
    Seq::new(text_length(data, 0x0134, 16), |i: int| data[0x0134 + i] as char)
}

/// A raw cartridge image.
pub struct Cartridge {
    pub data: Vec<u8>,
}

impl View for Cartridge {
    type V = Seq<u8>;

    open spec fn view(&self) -> Seq<u8> {
        self.data@
    }
}

/// `String::push` with a byte taken as the character of the same code: the text grows by
/// exactly that character.
#[verifier::external_body]
fn push_byte(text: &mut String, byte: u8)
    ensures
        final(text)@ == old(text)@.push(byte as char),
{
    text.push(byte as char)
}

impl Cartridge {
    /// The image is long enough to hold a complete header.
    pub open spec fn spec_has_header(&self) -> bool {
        self@.len() >= 0x0150
    }

    pub fn from_data(data: Vec<u8>) -> (r: Cartridge)
        ensures
            r@ == data@,
    {
        Cartridge { data }
    }

    #[verifier::when_used_as_spec(spec_has_header)]
    pub fn has_header(&self) -> (r: bool)
        ensures
            r == self.spec_has_header(),
    {
        self.data.len() >= HEADER_END
    }

    /// The length of the image in bytes.
    pub fn len(&self) -> (r: usize)
        ensures
            r == self@.len(),
    {
        self.data.len()
    }

    pub fn read8(&self, addr: usize) -> (r: u8)
        requires
            addr < self@.len(),
        ensures
            r == self@[addr as int],
    {
        self.data[addr]
    }

    /// The game's title: the characters of the title field up to its first zero byte.
    pub fn game_title(&self) -> (r: String)
        requires
            self.spec_has_header(),
        ensures
            r@ == title_text(self@),
    {
        let mut title = String::new();
        let mut i: usize = 0;
        while i < TITLE_LENGTH && self.data[TITLE_START + i] != 0
            invariant
                self.spec_has_header(),
                i <= 16,
                title@.len() == i,
                forall|k: int| 0 <= k < i ==> title@[k] == self@[0x0134 + k] as char,
                text_length(self@, 0x0134, 16) == i + text_length(
                    self@,
                    0x0134 + i,
                    (16 - i) as nat,
                ),
            decreases 16 - i,
        {
            push_byte(&mut title, self.data[TITLE_START + i]);
            i = i + 1;
        }
        assert(title@ =~= title_text(self@));
        title
    }

    pub fn cart_type(&self) -> (r: CartridgeType)
        requires
            self.spec_has_header(),
        ensures
            r == type_of_code(self@[0x0147]),
    {
        let code = self.data[TYPE_OFFSET];
        match code {
            0x00 => CartridgeType::RomOnly,
            0x01 => CartridgeType::MBC1 { ram: false, battery: false },
            0x02 => CartridgeType::MBC1 { ram: true, battery: false },
            0x03 => CartridgeType::MBC1 { ram: true, battery: true },
            0x0F => CartridgeType::MBC3 { timer: true, ram: false, battery: true },
            0x10 => CartridgeType::MBC3 { timer: true, ram: true, battery: true },
            0x11 => CartridgeType::MBC3 { timer: false, ram: false, battery: false },
            0x12 => CartridgeType::MBC3 { timer: false, ram: true, battery: false },
            0x13 => CartridgeType::MBC3 { timer: false, ram: true, battery: true },
            n => CartridgeType::Unsupported(n),
        }
    }

    /// The ROM size in bytes that the header declares.
    pub fn rom_size(&self) -> (r: usize)
        requires
            self.spec_has_header(),
            self@[0x0148] <= MAX_ROM_SIZE_CODE,
        ensures
            r == rom_bytes(self@[0x0148] as nat),
    {
        let code = self.data[ROM_SIZE_OFFSET];
        let mut size: usize = 0x8000;
        let mut i: u8 = 0;
        while i < code
            invariant
                i <= code <= 16,
                size == rom_bytes(i as nat),
                size * rom_bytes((16 - i) as nat) == 0x8000 * rom_bytes(16),
            decreases code - i,
        {
            proof {
                lemma_rom_bytes_16();
                assert(rom_bytes((16 - i) as nat) == 2 * rom_bytes((16 - i - 1) as nat));
                assert(size * (2 * rom_bytes((16 - i - 1) as nat)) == (2 * size) * rom_bytes(
                    (16 - i - 1) as nat,
                )) by (nonlinear_arith);
                lemma_rom_bytes_positive((16 - i - 1) as nat);
                assert(2 * size <= 0x8000_0000) by (nonlinear_arith)
                    requires
                        (2 * size) * rom_bytes((16 - i - 1) as nat) == 0x4000_0000_0000,
                        rom_bytes((16 - i - 1) as nat) >= 0x8000,
                ;
            }
            size = size * 2;
            i = i + 1;
        }
        size
    }

    /// The cartridge RAM size in bytes that the header declares.
    pub fn ram_size(&self) -> (r: usize)
        requires
            self.spec_has_header(),
        ensures
            r == ram_bytes(self@[0x0149]),
    {
        match self.data[RAM_SIZE_OFFSET] {
            2 => 0x2000,
            3 => 0x8000,
            4 => 0x20000,
            5 => 0x10000,
            _ => 0,
        }
    }

    /// Whether the region byte is zero, which marks a cartridge sold in Japan and overseas.
    pub fn sold_in_japan(&self) -> (r: bool)
        requires
            self.spec_has_header(),
        ensures
            r == (self@[0x014A] == 0),
    {
        self.data[REGION_OFFSET] == 0
    }
}

pub proof fn lemma_rom_bytes_positive(code: nat)
    ensures
        rom_bytes(code) >= 0x8000,
    decreases code,
{
    if code > 0 {
        lemma_rom_bytes_positive((code - 1) as nat);
    }
}

pub proof fn lemma_rom_bytes_16()
    ensures
        rom_bytes(16) == 0x8000_0000,
        0x8000 * rom_bytes(16) == 0x4000_0000_0000,
{
    reveal_with_fuel(rom_bytes, 18);
}

} // verus!
