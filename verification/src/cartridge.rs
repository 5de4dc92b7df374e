use vstd::prelude::*;

verus! {

/// The logo that every cartridge header holds at 0x104..0x134.
pub const NINTENDO_LOGO: [u8; 48] = [
    0xCE, 0xED, 0x66, 0x66, 0xCC, 0x0D, 0x00, 0x0B, 0x03, 0x73, 0x00, 0x83, 0x00, 0x0C, 0x00, 0x0D,
    0x00, 0x08, 0x11, 0x1F, 0x88, 0x89, 0x00, 0x0E, 0xDC, 0xCC, 0x6E, 0xE6, 0xDD, 0xDD, 0xD9, 0x99,
    0xBB, 0xBB, 0x67, 0x63, 0x6E, 0x0E, 0xEC, 0xCC, 0xDD, 0xDC, 0x99, 0x9F, 0xBB, 0xB9, 0x33, 0x3E,
];

/// Why a ROM image is refused.
#[derive(Debug, Clone, Copy, PartialEq, Eq, Structural)]
pub enum CartridgeError {
    /// The header does not hold the Nintendo logo.
    InvalidLogo,
    /// The title is not ASCII.
    InvalidTitle,
    /// The header checksum computed over 0x134..0x14D differs from the one at 0x14D.
    ChecksumMismatch { computed: u8, expected: u8 },
    /// The cartridge type byte names a memory bank controller that is not supported.
    UnsupportedType(u8),
}

/// The fixed-size part of the cartridge header, 0x144..0x150.
#[derive(Debug, Clone, Copy)]
pub struct HeaderFlags {
    pub new_licensee_code: [u8; 2],
    pub sgb_flag: u8,
    pub cartridge_type: u8,
    pub rom_size: u8,
    pub ram_size: u8,
    pub destination_code: u8,
    pub old_licensee_code: u8,
    pub mask_rom_version_number: u8,
    pub header_checksum: u8,
    pub global_checksum: [u8; 2],
}

/// A parsed cartridge header.
pub struct Header {
    pub title: String,
    pub header_flags: HeaderFlags,
}

/// Whether `h` holds the bytes of the header at 0x144..0x150 of `rom`.
pub open spec fn flags_match(h: HeaderFlags, rom: Seq<u8>) -> bool {
    &&& h.new_licensee_code@ == seq![rom[0x144], rom[0x145]]
    &&& h.sgb_flag == rom[0x146]
    &&& h.cartridge_type == rom[0x147]
    &&& h.rom_size == rom[0x148]
    &&& h.ram_size == rom[0x149]
    &&& h.destination_code == rom[0x14A]
    &&& h.old_licensee_code == rom[0x14B]
    &&& h.mask_rom_version_number == rom[0x14C]
    &&& h.header_checksum == rom[0x14D]
    &&& h.global_checksum@ == seq![rom[0x14E], rom[0x14F]]
}

/// Whether the header holds the Nintendo logo.
pub open spec fn logo_ok(rom: Seq<u8>) -> bool {
    rom.subrange(0x104, 0x134) == NINTENDO_LOGO@
}

/// The bytes that hold the title: 0x134..0x143 when 0x143 is a CGB flag (0x80 or
/// 0xC0), and 0x134..0x144 otherwise.
pub open spec fn title_region(rom: Seq<u8>) -> Seq<u8> {
    if rom[0x143] == 0x80 || rom[0x143] == 0xC0 {
        rom.subrange(0x134, 0x143)
    } else {
        rom.subrange(0x134, 0x144)
    }
}

/// The bytes of `s` before its first zero byte (all of `s` if it has none).
pub open spec fn trim_nul(s: Seq<u8>) -> Seq<u8>
    decreases s.len(),
{
    if s.len() == 0 {
        s
    } else if s[0] == 0 {
        Seq::empty()
    } else {
        seq![s[0]] + trim_nul(s.drop_first())
    }
}

/// The title bytes: the title region cut at its first zero byte.
pub open spec fn title_bytes(rom: Seq<u8>) -> Seq<u8> {
    trim_nul(title_region(rom))
}

/// Whether every byte is ASCII.
pub open spec fn is_ascii_bytes(s: Seq<u8>) -> bool {
    forall|i: int| 0 <= i < s.len() ==> s[i] < 0x80
}

/// The characters of ASCII bytes.
pub open spec fn ascii_chars(s: Seq<u8>) -> Seq<char> {
    s.map_values(|b: u8| b as char)
}

/// The header checksum of the bytes `s`: starting from zero, each byte is
/// subtracted, and one more, modulo 256.
pub open spec fn checksum_of(s: Seq<u8>) -> u8
    decreases s.len(),
{
    if s.len() == 0 {
        0
    } else {
        ((checksum_of(s.drop_last()) - s.last() - 1) % 256) as u8
    }
}

/// The header checksum computed over 0x134..0x14D.
pub open spec fn header_checksum(rom: Seq<u8>) -> u8 {
    checksum_of(rom.subrange(0x134, 0x14D))
}

/// Why the header of `rom` is refused, if it is.
pub open spec fn header_error(rom: Seq<u8>) -> Option<CartridgeError> {
    if !logo_ok(rom) {
        Some(CartridgeError::InvalidLogo)
    } else if !is_ascii_bytes(title_bytes(rom)) {
        Some(CartridgeError::InvalidTitle)
    } else if header_checksum(rom) != rom[0x14D] {
        Some(CartridgeError::ChecksumMismatch { computed: header_checksum(rom), expected: rom[0x14D] })
    } else {
        None
    }
}

/// `std::str::from_utf8`, on bytes that are all ASCII: by its documentation it
/// returns the string whose characters are those bytes.
#[verifier::external_body]
fn ascii_str(bytes: &[u8]) -> (s: &str)
    requires
        is_ascii_bytes(bytes@),
    ensures
        s@ == ascii_chars(bytes@),
{
    match std::str::from_utf8(bytes) {
        Ok(s) => s,
        Err(_) => "",
    }
}

fn logo_matches(rom: &[u8]) -> (r: bool)
    requires
        rom@.len() >= 0x150,
    ensures
        r == logo_ok(rom@),
{
    let mut i: usize = 0;
    while i < 48
        invariant
            i <= 48,
            rom@.len() >= 0x150,
            forall|j: int| 0 <= j < i ==> rom@[0x104 + j] == NINTENDO_LOGO@[j],
        decreases 48 - i,
    {
        if rom[0x104 + i] != NINTENDO_LOGO[i] {
            assert(rom@.subrange(0x104, 0x134)[i as int] != NINTENDO_LOGO@[i as int]);
            return false;
        }
        i = i + 1;
    }
    assert(rom@.subrange(0x104, 0x134) =~= NINTENDO_LOGO@);
    true
}

proof fn lemma_trim_nul_prefix(s: Seq<u8>, k: int)
    requires
        0 <= k <= s.len(),
        forall|j: int| 0 <= j < k ==> s[j] != 0,
        k == s.len() || s[k] == 0,
    ensures
        trim_nul(s) == s.subrange(0, k),
    decreases s.len(),
{
    if s.len() == 0 {
    } else if s[0] == 0 {
        assert(s.subrange(0, k) =~= Seq::<u8>::empty());
    } else {
        lemma_trim_nul_prefix(s.drop_first(), k - 1);
        assert(seq![s[0]] + s.drop_first().subrange(0, k - 1) =~= s.subrange(0, k));
    }
}

proof fn lemma_checksum_step(s: Seq<u8>, i: int)
    requires
        0 <= i < s.len(),
    ensures
        checksum_of(s.subrange(0, i + 1)) == ((checksum_of(s.subrange(0, i)) - s[i] - 1) % 256) as u8,
{
    assert(s.subrange(0, i + 1).drop_last() =~= s.subrange(0, i));
}

/// Checks the header of a ROM image and reads its title and flags.
pub fn parse_rom_header(rom: &[u8]) -> (r: Result<Header, CartridgeError>)
    requires
        rom@.len() >= 0x150,
    ensures
        r is Ok <==> header_error(rom@) is None,
        r matches Err(e) ==> header_error(rom@) == Some(e),
        r matches Ok(h) ==> h.title@ == ascii_chars(title_bytes(rom@)) && flags_match(
            h.header_flags,
            rom@,
        ),
{
    if !logo_matches(rom) {
        return Err(CartridgeError::InvalidLogo);
    }
    // handle CGB flag
    let end: usize = if rom[0x143] == 0x80 || rom[0x143] == 0xC0 {
        0x143
    } else {
        0x144
    };
    let ghost region = rom@.subrange(0x134, end as int);
    assert(region == title_region(rom@));

    // trim the title at its first zero byte
    let mut len: usize = 0;
    while 0x134 + len < end && rom[0x134 + len] != 0
        invariant
            0x134 + len <= end,
            end <= 0x144,
            rom@.len() >= 0x150,
            region == rom@.subrange(0x134, end as int),
            forall|j: int| 0 <= j < len ==> region[j] != 0,
        decreases end - len,
    {
        len = len + 1;
    }
    proof {
        lemma_trim_nul_prefix(region, len as int);
    }
    let ghost title = region.subrange(0, len as int);

    // all ASCII is valid UTF-8
    let mut k: usize = 0;
    while k < len
        invariant
            k <= len,
            0x134 + len <= end <= 0x144,
            rom@.len() >= 0x150,
            title == rom@.subrange(0x134, 0x134 + len),
            title == title_bytes(rom@),
            logo_ok(rom@),
            forall|j: int| 0 <= j < k ==> title[j] < 0x80,
        decreases len - k,
    {
        if rom[0x134 + k] >= 0x80 {
            assert(title[k as int] >= 0x80);
            return Err(CartridgeError::InvalidTitle);
        }
        k = k + 1;
    }
    let title_slice = vstd::slice::slice_subrange(rom, 0x134, 0x134 + len);
    assert(title_slice@ =~= title);
    let title_str = ascii_str(title_slice);
    let title_string = title_str.to_owned();

    let mut checksum: u8 = 0;
    let mut i: usize = 0x134;
    while i < 0x14D
        invariant
            0x134 <= i <= 0x14D,
            rom@.len() >= 0x150,
            checksum == checksum_of(rom@.subrange(0x134, 0x14D).subrange(0, i - 0x134)),
        decreases 0x14D - i,
    {
        proof {
            lemma_checksum_step(rom@.subrange(0x134, 0x14D), i - 0x134);
        }
        checksum = checksum.wrapping_sub(rom[i]).wrapping_sub(1);
        i = i + 1;
    }
    assert(rom@.subrange(0x134, 0x14D).subrange(0, 0x14D - 0x134) =~= rom@.subrange(0x134, 0x14D));

    let header_flags = HeaderFlags {
        new_licensee_code: [rom[0x144], rom[0x145]],
        sgb_flag: rom[0x146],
        cartridge_type: rom[0x147],
        rom_size: rom[0x148],
        ram_size: rom[0x149],
        destination_code: rom[0x14A],
        old_licensee_code: rom[0x14B],
        mask_rom_version_number: rom[0x14C],
        header_checksum: rom[0x14D],
        global_checksum: [rom[0x14E], rom[0x14F]],
    };
    assert(header_flags.new_licensee_code@ =~= seq![rom@[0x144], rom@[0x145]]);
    assert(header_flags.global_checksum@ =~= seq![rom@[0x14E], rom@[0x14F]]);

    if checksum != header_flags.header_checksum {
        return Err(
            CartridgeError::ChecksumMismatch {
                computed: checksum,
                expected: header_flags.header_checksum,
            },
        );
    }
    Ok(Header { title: title_string, header_flags })
}


/// Writing a value whose low nibble is this enables MBC1 cartridge RAM.
pub const RAM_ENABLE_NIBBLE: u8 = 0xA;

/// The state of a cartridge without a memory bank controller.
pub struct NoMbcView {
    pub rom: Seq<u8>,
    pub ram: Option<Seq<u8>>,
}

impl NoMbcView {
    /// Whether a read of `addr` succeeds: ROM at 0x0000..0x8000 and, when present,
    /// RAM at 0xA000..0xC000, each indexed by the address itself.
    pub open spec fn read_ok(self, addr: u16) -> bool {
        ||| addr < 0x8000 && addr < self.rom.len()
        ||| 0xA000 <= addr < 0xC000 && (self.ram matches Some(ram) && addr < ram.len())
    }

    /// The byte that a read of `addr` gives.
    pub open spec fn read(self, addr: u16) -> u8 {
        if addr < 0x8000 {
            self.rom[addr as int]
        } else {
            self.ram->0[addr as int]
        }
    }

    /// Whether a write to `addr` succeeds: ROM ignores writes, RAM must be present.
    pub open spec fn write_ok(self, addr: u16) -> bool {
        ||| addr < 0x8000
        ||| 0xA000 <= addr < 0xC000 && (self.ram matches Some(ram) && addr < ram.len())
    }

    /// The state after a write of `value` to `addr`.
    pub open spec fn write(self, addr: u16, value: u8) -> NoMbcView {
        if addr < 0x8000 {
            self
        } else {
            NoMbcView { ram: Some(self.ram->0.update(addr as int, value)), ..self }
        }
    }
}

/// The state of an MBC1 cartridge.
pub struct Mbc1View {
    pub rom: Seq<u8>,
    pub ram: Option<Seq<u8>>,
    pub ram_enabled: bool,
    pub rom_bank_number: u8,
    pub secondary_bank: u8,
    pub banking_mode: u8,
    pub rom_size_flag: u8,
    pub ram_size_flag: u8,
    /// The ROM is larger than 512 KiB.
    pub is_large_rom: bool,
    /// The RAM is larger than 8 KiB.
    pub is_large_ram: bool,
}

/// The ROM bank number that a write of `value` to 0x2000..0x4000 selects: the low five
/// bits of `value` (zero read as one), with the secondary bank above them, masked
/// to the number of bits that the ROM size needs.
pub open spec fn mbc1_bank_number(value: u8, secondary_bank: u8, rom_size_flag: u8) -> u8 {
    let low = if value & 0x1F == 0 {
        1u8
    } else {
        value & 0x1F
    };
    (low | (secondary_bank << 5u8)) & (0xFFu8 >> ((8 - (rom_size_flag + 1)) as u8))
}

impl Mbc1View {
    /// Where in the ROM an address of 0x0000..0x4000 reads: the secondary bank
    /// selects a 512 KiB block in mode 1 on a large ROM.
    pub open spec fn rom0_addr(self, addr: u16) -> int {
        if self.banking_mode == 1 && self.is_large_rom {
            self.secondary_bank * 0x80000 + addr
        } else {
            addr as int
        }
    }

    /// Where in the ROM an address of 0x4000..0x8000 reads: the selected bank.
    pub open spec fn rom1_addr(self, addr: u16) -> int {
        self.rom_bank_number * 0x4000 + (addr - 0x4000)
    }

    /// Where in the RAM an address of 0xA000..0xC000 reads or writes.
    pub open spec fn ram_addr(self, addr: u16) -> int {
        if self.banking_mode == 1 && self.is_large_ram {
            (((self.secondary_bank as usize) << 13usize) | (addr as usize)) as int
        } else {
            addr as int
        }
    }

    /// Whether a read of `addr` succeeds.
    pub open spec fn read_ok(self, addr: u16) -> bool {
        if addr < 0x4000 {
            self.rom0_addr(addr) < self.rom.len()
        } else if addr < 0x8000 {
            self.rom1_addr(addr) < self.rom.len()
        } else if 0xA000 <= addr < 0xC000 {
            self.ram matches Some(ram) && self.ram_enabled && self.ram_addr(addr) < ram.len()
        } else {
            false
        }
    }

    /// The byte that a read of `addr` gives.
    pub open spec fn read(self, addr: u16) -> u8 {
        if addr < 0x4000 {
            self.rom[self.rom0_addr(addr)]
        } else if addr < 0x8000 {
            self.rom[self.rom1_addr(addr)]
        } else {
            self.ram->0[self.ram_addr(addr)]
        }
    }

    /// Whether a write to `addr` succeeds: the bank number register needs a ROM size
    /// flag of at most 7, and RAM must be present, enabled and large enough.
    pub open spec fn write_ok(self, addr: u16) -> bool {
        if addr < 0x2000 {
            true
        } else if addr < 0x4000 {
            self.rom_size_flag <= 7
        } else if addr < 0x8000 {
            true
        } else if 0xA000 <= addr < 0xC000 {
            self.ram matches Some(ram) && self.ram_enabled && self.ram_addr(addr) < ram.len()
        } else {
            false
        }
    }

    /// The state after a write of `value` to `addr`.
    pub open spec fn write(self, addr: u16, value: u8) -> Mbc1View {
        if addr < 0x2000 {
            Mbc1View { ram_enabled: value & 0x0F == RAM_ENABLE_NIBBLE, ..self }
        } else if addr < 0x4000 {
            Mbc1View {
                rom_bank_number: mbc1_bank_number(value, self.secondary_bank, self.rom_size_flag),
                ..self
            }
        } else if addr < 0x6000 {
            Mbc1View { secondary_bank: value & 0x07, ..self }
        } else if addr < 0x8000 {
            Mbc1View { banking_mode: value & 0x01, ..self }
        } else {
            Mbc1View { ram: Some(self.ram->0.update(self.ram_addr(addr), value)), ..self }
        }
    }
}

/// The state of a cartridge's memory bank controller.
pub enum MbcView {
    NoMbc(NoMbcView),
    Mbc1(Mbc1View),
}

impl MbcView {
    /// Whether a read of `addr` succeeds.
    pub open spec fn read_ok(self, addr: u16) -> bool {
        match self {
            MbcView::NoMbc(m) => m.read_ok(addr),
            MbcView::Mbc1(m) => m.read_ok(addr),
        }
    }

    /// The byte that a read of `addr` gives.
    pub open spec fn read(self, addr: u16) -> u8 {
        match self {
            MbcView::NoMbc(m) => m.read(addr),
            MbcView::Mbc1(m) => m.read(addr),
        }
    }

    /// Whether a write to `addr` succeeds.
    pub open spec fn write_ok(self, addr: u16) -> bool {
        match self {
            MbcView::NoMbc(m) => m.write_ok(addr),
            MbcView::Mbc1(m) => m.write_ok(addr),
        }
    }

    /// The state after a write of `value` to `addr`.
    pub open spec fn write(self, addr: u16, value: u8) -> MbcView {
        match self {
            MbcView::NoMbc(m) => MbcView::NoMbc(m.write(addr, value)),
            MbcView::Mbc1(m) => MbcView::Mbc1(m.write(addr, value)),
        }
    }
}

/// A memory bank controller: maps the cartridge's ROM and RAM into the address space.
pub trait Mbc {
    /// The controller's state.
    spec fn mbc_view(&self) -> MbcView;

    /// A read of `addr` in 0x0000..0x8000 or 0xA000..0xC000.
    fn read(&self, addr: u16) -> (r: u8)
        requires
            self.mbc_view().read_ok(addr),
        ensures
            r == self.mbc_view().read(addr),
    ;

    /// A write of `value` to `addr` in 0x0000..0x8000 or 0xA000..0xC000.
    fn write(&mut self, addr: u16, value: u8)
        requires
            old(self).mbc_view().write_ok(addr),
        ensures
            final(self).mbc_view() == old(self).mbc_view().write(addr, value),
    ;
}

/// A cartridge without a memory bank controller.
pub struct NoMbc {
    rom: Vec<u8>,
    ram: Option<Vec<u8>>,
}

impl NoMbc {
    /// A cartridge with `rom`, and with an empty RAM when `ram` is set.
    pub fn new(rom: Vec<u8>, ram: bool) -> (m: Self)
        ensures
            m.mbc_view() == MbcView::NoMbc(
                NoMbcView { rom: rom@, ram: if ram { Some(Seq::empty()) } else { None } },
            ),
    {
        Self {
            rom,
            ram: if ram {
                Some(Vec::new())
            } else {
                None
            },
        }
    }
}

impl Mbc for NoMbc {
    closed spec fn mbc_view(&self) -> MbcView {
        MbcView::NoMbc(
            NoMbcView {
                rom: self.rom@,
                ram: match &self.ram {
                    Some(r) => Some(r@),
                    None => None,
                },
            },
        )
    }

    fn read(&self, addr: u16) -> (r: u8) {
        if addr < 0x8000 {
            self.rom[addr as usize]
        } else {
            match &self.ram {
                Some(ram) => ram[addr as usize],
                None => 0,
            }
        }
    }

    fn write(&mut self, addr: u16, value: u8) {
        if addr >= 0x8000 {
            match &mut self.ram {
                Some(ram) => {
                    ram.set(addr as usize, value);
                },
                None => {},
            }
        }
    }
}

/// A cartridge with an MBC1 memory bank controller.
pub struct Mbc1 {
    rom: Vec<u8>,
    ram: Option<Vec<u8>>,
    // control registers
    ram_enabled: bool,
    rom_bank_number: u8,
    secondary_bank: u8,
    banking_mode: u8,
    // from HeaderFlags
    rom_size_flag: u8,
    ram_size_flag: u8,
    // if computed rom size > 512 KiB
    is_large_rom: bool,
    // if computed ram size > 8 KiB (0x2000, same size as 0xA000..0xC000)
    is_large_ram: bool,
}

impl Mbc1 {
    /// Size of a ROM bank.
    pub const BANK_SIZE: usize = 0x4000;

    /// The controller after reset: RAM disabled, bank 1 selected, mode 0.
    pub fn new(rom: Vec<u8>, ram: bool, rom_size_flag: u8, ram_size_flag: u8) -> (m: Self)
        ensures
            m.mbc_view() == MbcView::Mbc1(
                Mbc1View {
                    rom: rom@,
                    ram: if ram { Some(Seq::empty()) } else { None },
                    ram_enabled: false,
                    rom_bank_number: 1,
                    secondary_bank: 0,
                    banking_mode: 0,
                    rom_size_flag,
                    ram_size_flag,
                    is_large_rom: rom_size_flag >= 5,
                    is_large_ram: ram_size_flag >= 2,
                },
            ),
    {
        Self {
            rom,
            ram: if ram {
                Some(Vec::new())
            } else {
                None
            },
            ram_enabled: false,
            rom_bank_number: 1,
            secondary_bank: 0,
            banking_mode: 0,
            rom_size_flag,
            ram_size_flag,
            is_large_rom: rom_size_flag >= 5,
            is_large_ram: ram_size_flag >= 2,
        }
    }

    spec fn view1(&self) -> Mbc1View {
        Mbc1View {
            rom: self.rom@,
            ram: match &self.ram {
                Some(r) => Some(r@),
                None => None,
            },
            ram_enabled: self.ram_enabled,
            rom_bank_number: self.rom_bank_number,
            secondary_bank: self.secondary_bank,
            banking_mode: self.banking_mode,
            rom_size_flag: self.rom_size_flag,
            ram_size_flag: self.ram_size_flag,
            is_large_rom: self.is_large_rom,
            is_large_ram: self.is_large_ram,
        }
    }

    /// Where the selected ROM bank starts.
    fn rom_bank_base_addr(&self) -> (r: usize)
        ensures
            r == self.rom_bank_number * 0x4000,
    {
        (self.rom_bank_number as usize) * Self::BANK_SIZE
    }

    /// Where in the ROM an address of 0x0000..0x4000 reads.
    fn rom0_effective_addr(&self, addr: u16) -> (r: usize)
        requires
            addr < 0x4000,
        ensures
            r == self.view1().rom0_addr(addr),
    {
        if self.banking_mode == 1 && self.is_large_rom {
            let s = self.secondary_bank;
            assert(((s as usize) << 19usize) | (addr as usize) == s * 0x80000 + addr) by (bit_vector)
                requires
                    addr < 0x4000,
            ;
            ((self.secondary_bank as usize) << 19) | addr as usize
        } else {
            addr as usize
        }
    }

    /// Where in the ROM an address of 0x4000..0x8000 reads.
    fn rom1_effective_addr(&self, addr: u16) -> (r: usize)
        requires
            0x4000 <= addr < 0x8000,
        ensures
            r == self.view1().rom1_addr(addr),
    {
        self.rom_bank_base_addr() + (addr as usize - 0x4000)
    }

    /// Where in the RAM an address of 0xA000..0xC000 reads or writes.
    fn ram_effective_addr(&self, addr: u16) -> (r: usize)
        requires
            0xA000 <= addr < 0xC000,
        ensures
            r == self.view1().ram_addr(addr),
    {
        if self.banking_mode == 1 && self.is_large_ram {
            ((self.secondary_bank as usize) << 13) | addr as usize
        } else {
            addr as usize
        }
    }
}

impl Mbc for Mbc1 {
    closed spec fn mbc_view(&self) -> MbcView {
        MbcView::Mbc1(self.view1())
    }

    fn read(&self, addr: u16) -> (r: u8) {
        if addr < 0x4000 {
            self.rom[self.rom0_effective_addr(addr)]
        } else if addr < 0x8000 {
            self.rom[self.rom1_effective_addr(addr)]
        } else {
            let effective_addr = self.ram_effective_addr(addr);
            match &self.ram {
                Some(ram) => ram[effective_addr],
                None => 0,
            }
        }
    }

    fn write(&mut self, addr: u16, value: u8) {
        if addr < 0x2000 {
            // RAM enable register: check if the lower nibble is equal to `RAM_ENABLE_NIBBLE`
            if (value & 0x0F) == RAM_ENABLE_NIBBLE {
                self.ram_enabled = true;
            } else {
                self.ram_enabled = false;
            }
        } else if addr < 0x4000 {
            // ROM bank number register, 5 bits
            let mut bank_number = value & 0x1F;
            if bank_number == 0 {
                bank_number = 1;
            }
            // if the rom is too small to need these bits, they will be masked out in the next
            // step
            bank_number |= self.secondary_bank << 5u8;

            // mask bank number to only the amount of bits required to represent every possible
            // bank number within the limits of the rom size flag
            let required_bits = self.rom_size_flag + 1;
            let mask: u8 = 0xFF >> (8 - required_bits);
            bank_number &= mask;

            self.rom_bank_number = bank_number;
        } else if addr < 0x6000 {
            // Secondary ROM bank register, 3 bits
            self.secondary_bank = value & 0b111;
        } else if addr < 0x8000 {
            // Banking mode register, 1 bit
            self.banking_mode = value & 0b1;
        } else {
            // RAM write
            let effective_addr = self.ram_effective_addr(addr);
            match &mut self.ram {
                Some(ram) => {
                    ram.set(effective_addr, value);
                },
                None => {},
            }
        }
    }
}

/// The controller of a cartridge.
pub enum MbcKind {
    NoMbc(NoMbc),
    Mbc1(Mbc1),
}

/// A loaded cartridge: its controller, title and header flags.
pub struct Cartridge {
    mbc: MbcKind,
    title: String,
    header_flags: HeaderFlags,
}

/// The state of a cartridge.
pub struct CartridgeView {
    pub mbc: MbcView,
    pub title: Seq<char>,
    pub header_flags: HeaderFlags,
}

/// The controller that a ROM image's cartridge type byte calls for, if supported:
/// 0x00 ROM only, 0x01 MBC1, 0x02 MBC1+RAM, 0x08 ROM+RAM.
pub open spec fn initial_mbc(rom: Seq<u8>) -> Option<MbcView> {
    let t = rom[0x147];
    let ram_flag = t == 0x02 || t == 0x08;
    let ram = if ram_flag { Some(Seq::<u8>::empty()) } else { None };
    if t == 0x00 || t == 0x08 {
        Some(MbcView::NoMbc(NoMbcView { rom, ram }))
    } else if t == 0x01 || t == 0x02 {
        Some(
            MbcView::Mbc1(
                Mbc1View {
                    rom,
                    ram,
                    ram_enabled: false,
                    rom_bank_number: 1,
                    secondary_bank: 0,
                    banking_mode: 0,
                    rom_size_flag: rom[0x148],
                    ram_size_flag: rom[0x149],
                    is_large_rom: rom[0x148] >= 5,
                    is_large_ram: rom[0x149] >= 2,
                },
            ),
        )
    } else {
        None
    }
}

impl View for Cartridge {
    type V = CartridgeView;

    closed spec fn view(&self) -> CartridgeView {
        CartridgeView {
            mbc: match &self.mbc {
                MbcKind::NoMbc(m) => m.mbc_view(),
                MbcKind::Mbc1(m) => m.mbc_view(),
            },
            title: self.title@,
            header_flags: self.header_flags,
        }
    }
}

impl Cartridge {
    /// Loads a ROM image: checks its header and picks the controller that its
    /// cartridge type calls for.
    pub fn new(rom: Vec<u8>) -> (r: Result<Self, CartridgeError>)
        requires
            rom@.len() >= 0x150,
        ensures
            r is Ok <==> header_error(rom@) is None && initial_mbc(rom@) is Some,
            r matches Err(e) ==> (header_error(rom@) == Some(e) || (header_error(rom@) is None
                && e == CartridgeError::UnsupportedType(rom@[0x147]))),
            r matches Ok(c) ==> c@.mbc == initial_mbc(rom@)->0 && c@.title == ascii_chars(title_bytes(rom@))
                && flags_match(c@.header_flags, rom@),
    {
        let header = match parse_rom_header(rom.as_slice()) {
            Ok(h) => h,
            Err(e) => return Err(e),
        };
        let header_flags = header.header_flags;
        let mbc = match header_flags.cartridge_type {
            // ROM ONLY
            0x00 => MbcKind::NoMbc(NoMbc::new(rom, false)),
            // MBC1
            0x01 => MbcKind::Mbc1(Mbc1::new(rom, false, header_flags.rom_size, header_flags.ram_size)),
            // MBC1+RAM
            0x02 => MbcKind::Mbc1(Mbc1::new(rom, true, header_flags.rom_size, header_flags.ram_size)),
            // ROM+RAM
            0x08 => MbcKind::NoMbc(NoMbc::new(rom, true)),
            v => return Err(CartridgeError::UnsupportedType(v)),
        };
        Ok(Self { mbc, title: header.title, header_flags })
    }

    /// The title from the header.
    pub fn title(&self) -> (r: &str)
        ensures
            r@ == self@.title,
    {
        self.title.as_str()
    }

    /// The header flags.
    pub fn header_flags(&self) -> (r: &HeaderFlags)
        ensures
            *r == self@.header_flags,
    {
        &self.header_flags
    }

    /// A read of `addr` in 0x0000..0x8000 or 0xA000..0xC000.
    pub fn read(&self, addr: u16) -> (r: u8)
        requires
            self@.mbc.read_ok(addr),
        ensures
            r == self@.mbc.read(addr),
    {
        match &self.mbc {
            MbcKind::NoMbc(m) => m.read(addr),
            MbcKind::Mbc1(m) => m.read(addr),
        }
    }

    /// A write of `value` to `addr` in 0x0000..0x8000 or 0xA000..0xC000.
    pub fn write(&mut self, addr: u16, value: u8)
        requires
            old(self)@.mbc.write_ok(addr),
        ensures
            final(self)@ == (CartridgeView { mbc: old(self)@.mbc.write(addr, value), ..old(self)@ }),
    {
        match &mut self.mbc {
            MbcKind::NoMbc(m) => m.write(addr, value),
            MbcKind::Mbc1(m) => m.write(addr, value),
        }
    }
}


impl NoMbc {
    /// Whether a read of `addr` succeeds.
    pub fn can_read(&self, addr: u16) -> (r: bool)
        ensures
            r == (match self.mbc_view() {
                MbcView::NoMbc(m) => m.read_ok(addr),
                _ => false,
            }),
    {
        if addr < 0x8000 {
            (addr as usize) < self.rom.len()
        } else if 0xA000 <= addr && addr < 0xC000 {
            match &self.ram {
                Some(ram) => (addr as usize) < ram.len(),
                None => false,
            }
        } else {
            false
        }
    }

    /// Whether a write to `addr` succeeds.
    pub fn can_write(&self, addr: u16) -> (r: bool)
        ensures
            r == (match self.mbc_view() {
                MbcView::NoMbc(m) => m.write_ok(addr),
                _ => false,
            }),
    {
        if addr < 0x8000 {
            true
        } else if 0xA000 <= addr && addr < 0xC000 {
            match &self.ram {
                Some(ram) => (addr as usize) < ram.len(),
                None => false,
            }
        } else {
            false
        }
    }
}

impl Mbc1 {
    /// Whether a read of `addr` succeeds.
    pub fn can_read(&self, addr: u16) -> (r: bool)
        ensures
            r == (match self.mbc_view() {
                MbcView::Mbc1(m) => m.read_ok(addr),
                _ => false,
            }),
    {
        if addr < 0x4000 {
            self.rom0_effective_addr(addr) < self.rom.len()
        } else if addr < 0x8000 {
            self.rom1_effective_addr(addr) < self.rom.len()
        } else if 0xA000 <= addr && addr < 0xC000 {
            match &self.ram {
                Some(ram) => self.ram_enabled && self.ram_effective_addr(addr) < ram.len(),
                None => false,
            }
        } else {
            false
        }
    }

    /// Whether a write to `addr` succeeds.
    pub fn can_write(&self, addr: u16) -> (r: bool)
        ensures
            r == (match self.mbc_view() {
                MbcView::Mbc1(m) => m.write_ok(addr),
                _ => false,
            }),
    {
        if addr < 0x2000 {
            true
        } else if addr < 0x4000 {
            self.rom_size_flag <= 7
        } else if addr < 0x8000 {
            true
        } else if 0xA000 <= addr && addr < 0xC000 {
            match &self.ram {
                Some(ram) => self.ram_enabled && self.ram_effective_addr(addr) < ram.len(),
                None => false,
            }
        } else {
            false
        }
    }
}

impl Cartridge {
    /// Whether a read of `addr` succeeds.
    pub fn can_read(&self, addr: u16) -> (r: bool)
        ensures
            r == self@.mbc.read_ok(addr),
    {
        match &self.mbc {
            MbcKind::NoMbc(m) => m.can_read(addr),
            MbcKind::Mbc1(m) => m.can_read(addr),
        }
    }

    /// Whether a write to `addr` succeeds.
    pub fn can_write(&self, addr: u16) -> (r: bool)
        ensures
            r == self@.mbc.write_ok(addr),
    {
        match &self.mbc {
            MbcKind::NoMbc(m) => m.can_write(addr),
            MbcKind::Mbc1(m) => m.can_write(addr),
        }
    }
}

impl MbcView {
    /// The ROM image behind the controller.
    pub open spec fn rom(self) -> Seq<u8> {
        match self {
            MbcView::NoMbc(m) => m.rom,
            MbcView::Mbc1(m) => m.rom,
        }
    }
}

/// Writes never change the ROM image; on a cartridge without a controller a write
/// to 0x0000..0x8000 changes nothing at all.
pub proof fn lemma_rom_read_only(m: MbcView, addr: u16, value: u8)
    ensures
        m.write(addr, value).rom() == m.rom(),
        m is NoMbc && addr < 0x8000 ==> m.write(addr, value) == m,
{
}

/// Cartridge RAM reads back the value last written to it. This speaks of any
/// controller state with RAM large enough for the write; the cartridges that
/// `Cartridge::new` builds start with an empty RAM, so on them every RAM access is
/// refused and the law holds vacuously.
pub proof fn lemma_cart_ram_write_read(m: MbcView, addr: u16, value: u8)
    requires
        0xA000 <= addr < 0xC000,
        m.write_ok(addr),
    ensures
        m.write(addr, value).read_ok(addr),
        m.write(addr, value).read(addr) == value,
{
}

/// The ROM bank that MBC1 selects fits in the number of bits that the ROM size
/// flag calls for, so it is one of the 2 ^ (flag + 1) banks of such a ROM.
pub proof fn lemma_mbc1_bank_in_range(value: u8, secondary_bank: u8, rom_size_flag: u8)
    requires
        rom_size_flag <= 7,
    ensures
        mbc1_bank_number(value, secondary_bank, rom_size_flag) <= 0xFFu8 >> ((7 - rom_size_flag) as u8),
{
    let low: u8 = if value & 0x1F == 0 {
        1u8
    } else {
        value & 0x1F
    };
    let f = rom_size_flag;
    assert(((low | (secondary_bank << 5u8)) & (0xFFu8 >> ((8 - (f + 1)) as u8))) <= 0xFFu8 >> ((7 - f) as u8))
        by (bit_vector)
        requires
            f <= 7,
    ;
}


/// MBC1 banking: after the secondary bank `sb` is written to 0x4000..0x6000 and
/// `v` to 0x2000..0x4000, the window at 0x4000..0x8000 shows the ROM bank whose low
/// five bits are those of `v` (zero read as one) and whose bits from 5 up are the
/// low three bits of `sb`, the whole masked to the `rom_size_flag + 1` bits that the
/// ROM size needs; a read there gives that bank's byte.
pub proof fn lemma_mbc1_bank_switch(m: Mbc1View, sb: u8, v: u8, addr: u16)
    requires
        m.rom_size_flag <= 7,
        0x4000 <= addr < 0x8000,
    ensures
        ({
            let t = m.write(0x4000, sb).write(0x2000, v);
            let low: u8 = if v & 0x1F == 0 {
                1
            } else {
                v & 0x1F
            };
            let mask: u8 = 0xFFu8 >> ((7 - m.rom_size_flag) as u8);
            &&& t.rom_bank_number == (low | ((sb & 0x07) << 5u8)) & mask
            &&& t.rom_bank_number & 0x1F == low & mask
            &&& t.rom_bank_number >> 5u8 == (sb & 0x07) & (mask >> 5u8)
            &&& t.rom == m.rom
            &&& t.read(addr) == m.rom[t.rom_bank_number * 0x4000 + (addr - 0x4000)]
        }),
{
    let low: u8 = if v & 0x1F == 0 {
        1
    } else {
        v & 0x1F
    };
    let f = m.rom_size_flag;
    let mask: u8 = 0xFFu8 >> ((7 - f) as u8);
    let s3 = sb & 0x07;
    assert(0xFFu8 >> ((8 - (f + 1)) as u8) == mask);
    let b = (low | (s3 << 5u8)) & mask;
    assert(b & 0x1F == low & mask && b >> 5u8 == s3 & (mask >> 5u8)) by (bit_vector)
        requires
            b == (low | (s3 << 5u8)) & mask,
            low == (if v & 0x1F == 0 { 1u8 } else { v & 0x1F }),
            s3 == sb & 0x07,
    ;
}


/// The header flags sit at fixed offsets of the image, in header order: new
/// licensee code at 0x144 and 0x145, SGB flag 0x146, cartridge type 0x147, ROM size
/// 0x148, RAM size 0x149, destination 0x14A, old licensee code 0x14B, version
/// 0x14C, header checksum 0x14D, global checksum at 0x14E and 0x14F. A loaded MBC1
/// cartridge is banked by the ROM and RAM size bytes of its header.
pub proof fn lemma_header_layout(rom: Seq<u8>, c: CartridgeView)
    requires
        rom.len() >= 0x150,
        flags_match(c.header_flags, rom),
        initial_mbc(rom) is Some,
        c.mbc == initial_mbc(rom)->0,
    ensures
        c.header_flags.new_licensee_code[0] == rom[0x144],
        c.header_flags.new_licensee_code[1] == rom[0x145],
        c.header_flags.sgb_flag == rom[0x146],
        c.header_flags.cartridge_type == rom[0x147],
        c.header_flags.rom_size == rom[0x148],
        c.header_flags.ram_size == rom[0x149],
        c.header_flags.destination_code == rom[0x14A],
        c.header_flags.old_licensee_code == rom[0x14B],
        c.header_flags.mask_rom_version_number == rom[0x14C],
        c.header_flags.header_checksum == rom[0x14D],
        c.header_flags.global_checksum[0] == rom[0x14E],
        c.header_flags.global_checksum[1] == rom[0x14F],
        c.mbc matches MbcView::Mbc1(m) ==> {
            &&& m.rom_size_flag == rom[0x148]
            &&& m.ram_size_flag == rom[0x149]
            &&& m.rom_size_flag == c.header_flags.rom_size
            &&& m.ram_size_flag == c.header_flags.ram_size
            &&& m.is_large_rom == (rom[0x148] >= 5)
            &&& m.is_large_ram == (rom[0x149] >= 2)
        },
{
    assert(c.header_flags.new_licensee_code@[0] == rom[0x144]);
    assert(c.header_flags.new_licensee_code@[1] == rom[0x145]);
    assert(c.header_flags.global_checksum@[0] == rom[0x14E]);
    assert(c.header_flags.global_checksum@[1] == rom[0x14F]);
}

} // verus!
