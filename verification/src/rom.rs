use vstd::prelude::*;

verus! {

/// Whether the cartridge supports Game Boy Color features (header byte $0143).
#[derive(Clone, Copy, PartialEq, Eq, Structural, Debug)]
pub enum CgbFlag {
    NonCgb,
    SupportCgb,
    OnlyCgb,
}

/// Intended sales region of the cartridge (header byte $014A).
#[derive(Clone, Copy, PartialEq, Eq, Structural, Debug)]
pub enum DestinationCode {
    Japanese,
    NonJapanese,
}

/// Memory bank controller chip found on a cartridge.
#[derive(Clone, Copy, PartialEq, Eq, Structural, Debug)]
pub enum Mbc {
    Mbc1,
    Mbc2,
    Mmm01,
    Mbc3,
    Mbc5,
    Mbc6,
    Mbc7,
    HuC1,
    HuC3,
}

/// Hardware found on a cartridge, decoded from header byte $0147.
#[derive(Clone, Copy, PartialEq, Eq, Structural, Debug)]
pub struct CartridgeType {
    pub code: u8,
    pub mbc: Option<Mbc>,
    pub has_ram: bool,
    pub has_battery: bool,
    pub has_timer: bool,
    pub has_rumble: bool,
    pub has_sensor: bool,
}

/// Reasons for which a ROM image is refused.
#[derive(Clone, Copy, PartialEq, Eq, Structural, Debug)]
pub enum RomError {
    UnknownCartridgeType(u8),
    InvalidRomSize(u8),
    RomSizeMismatch { expected: u64, actual: u64 },
    InvalidRamSize(u8),
    InvalidDestinationCode(u8),
}

/// A cartridge type with the given code and features.
pub open spec fn cart(
    code: u8,
    mbc: Option<Mbc>,
    ram: bool,
    battery: bool,
    timer: bool,
    rumble: bool,
    sensor: bool,
) -> CartridgeType {
    CartridgeType {
        code,
        mbc,
        has_ram: ram,
        has_battery: battery,
        has_timer: timer,
        has_rumble: rumble,
        has_sensor: sensor,
    }
}

/// The table of cartridge type codes (Pan Docs, "0147 - Cartridge Type").
pub open spec fn cartridge_type_of(code: u8) -> Option<CartridgeType> {
    let n = None::<Mbc>;
    if code == 0x00 {
        Some(cart(code, n, false, false, false, false, false))
    } else if code == 0x01 {
        Some(cart(code, Some(Mbc::Mbc1), false, false, false, false, false))
    } else if code == 0x02 {
        Some(cart(code, Some(Mbc::Mbc1), true, false, false, false, false))
    } else if code == 0x03 {
        Some(cart(code, Some(Mbc::Mbc1), true, true, false, false, false))
    } else if code == 0x05 {
        Some(cart(code, Some(Mbc::Mbc2), false, false, false, false, false))
    } else if code == 0x06 {
        Some(cart(code, Some(Mbc::Mbc2), false, true, false, false, false))
    } else if code == 0x08 {
        Some(cart(code, n, true, false, false, false, false))
    } else if code == 0x09 {
        Some(cart(code, n, true, true, false, false, false))
    } else if code == 0x0B {
        Some(cart(code, Some(Mbc::Mmm01), false, false, false, false, false))
    } else if code == 0x0C {
        Some(cart(code, Some(Mbc::Mmm01), true, false, false, false, false))
    } else if code == 0x0D {
        Some(cart(code, Some(Mbc::Mmm01), true, true, false, false, false))
    } else if code == 0x0F {
        Some(cart(code, Some(Mbc::Mbc3), false, true, true, false, false))
    } else if code == 0x10 {
        Some(cart(code, Some(Mbc::Mbc3), true, true, true, false, false))
    } else if code == 0x11 {
        Some(cart(code, Some(Mbc::Mbc3), false, false, false, false, false))
    } else if code == 0x12 {
        Some(cart(code, Some(Mbc::Mbc3), true, false, false, false, false))
    } else if code == 0x13 {
        Some(cart(code, Some(Mbc::Mbc3), true, true, false, false, false))
    } else if code == 0x19 {
        Some(cart(code, Some(Mbc::Mbc5), false, false, false, false, false))
    } else if code == 0x1A {
        Some(cart(code, Some(Mbc::Mbc5), true, false, false, false, false))
    } else if code == 0x1B {
        Some(cart(code, Some(Mbc::Mbc5), true, true, false, false, false))
    } else if code == 0x1C {
        Some(cart(code, Some(Mbc::Mbc5), false, false, false, true, false))
    } else if code == 0x1D {
        Some(cart(code, Some(Mbc::Mbc5), true, false, false, true, false))
    } else if code == 0x1E {
        Some(cart(code, Some(Mbc::Mbc5), true, true, false, true, false))
    } else if code == 0x20 {
        Some(cart(code, Some(Mbc::Mbc6), false, false, false, false, false))
    } else if code == 0x22 {
        Some(cart(code, Some(Mbc::Mbc7), true, true, false, true, true))
    } else if code == 0xFE {
        Some(cart(code, Some(Mbc::HuC3), false, false, false, false, false))
    } else if code == 0xFF {
        Some(cart(code, Some(Mbc::HuC1), true, true, false, false, false))
    } else {
        None
    }
}

impl CartridgeType {
    /// Decodes header byte $0147.
    pub fn from_code(code: u8) -> (r: Result<Self, RomError>)
        ensures
            match cartridge_type_of(code) {
                Some(t) => r == Ok::<CartridgeType, RomError>(t),
                None => r == Err::<CartridgeType, RomError>(RomError::UnknownCartridgeType(code)),
            },
    {
        let ret = CartridgeType {
            code,
            mbc: None,
            has_ram: false,
            has_battery: false,
            has_timer: false,
            has_rumble: false,
            has_sensor: false,
        };
        if code == 0x00 {
            Ok(ret)
        } else if code == 0x01 {
            Ok(ret.with_mbc(Mbc::Mbc1))
        } else if code == 0x02 {
            Ok(ret.with_mbc(Mbc::Mbc1).with_ram())
        } else if code == 0x03 {
            Ok(ret.with_mbc(Mbc::Mbc1).with_ram().with_battery())
        } else if code == 0x05 {
            Ok(ret.with_mbc(Mbc::Mbc2))
        } else if code == 0x06 {
            Ok(ret.with_mbc(Mbc::Mbc2).with_battery())
        } else if code == 0x08 {
            Ok(ret.with_ram())
        } else if code == 0x09 {
            Ok(ret.with_ram().with_battery())
        } else if code == 0x0B {
            Ok(ret.with_mbc(Mbc::Mmm01))
        } else if code == 0x0C {
            Ok(ret.with_mbc(Mbc::Mmm01).with_ram())
        } else if code == 0x0D {
            Ok(ret.with_mbc(Mbc::Mmm01).with_ram().with_battery())
        } else if code == 0x0F {
            Ok(ret.with_mbc(Mbc::Mbc3).with_timer().with_battery())
        } else if code == 0x10 {
            Ok(ret.with_mbc(Mbc::Mbc3).with_timer().with_ram().with_battery())
        } else if code == 0x11 {
            Ok(ret.with_mbc(Mbc::Mbc3))
        } else if code == 0x12 {
            Ok(ret.with_mbc(Mbc::Mbc3).with_ram())
        } else if code == 0x13 {
            Ok(ret.with_mbc(Mbc::Mbc3).with_ram().with_battery())
        } else if code == 0x19 {
            Ok(ret.with_mbc(Mbc::Mbc5))
        } else if code == 0x1A {
            Ok(ret.with_mbc(Mbc::Mbc5).with_ram())
        } else if code == 0x1B {
            Ok(ret.with_mbc(Mbc::Mbc5).with_ram().with_battery())
        } else if code == 0x1C {
            Ok(ret.with_mbc(Mbc::Mbc5).with_rumble())
        } else if code == 0x1D {
            Ok(ret.with_mbc(Mbc::Mbc5).with_rumble().with_ram())
        } else if code == 0x1E {
            Ok(ret.with_mbc(Mbc::Mbc5).with_rumble().with_ram().with_battery())
        } else if code == 0x20 {
            Ok(ret.with_mbc(Mbc::Mbc6))
        } else if code == 0x22 {
            Ok(ret.with_mbc(Mbc::Mbc7).with_sensor().with_rumble().with_ram().with_battery())
        } else if code == 0xFE {
            Ok(ret.with_mbc(Mbc::HuC3))
        } else if code == 0xFF {
            Ok(ret.with_mbc(Mbc::HuC1).with_ram().with_battery())
        } else {
            Err(RomError::UnknownCartridgeType(code))
        }
    }

    fn with_mbc(self, mbc: Mbc) -> (r: Self)
        ensures
            r == (CartridgeType { mbc: Some(mbc), ..self }),
    {
        let mut s = self;
        s.mbc = Some(mbc);
        s
    }

    fn with_ram(self) -> (r: Self)
        ensures
            r == (CartridgeType { has_ram: true, ..self }),
    {
        let mut s = self;
        s.has_ram = true;
        s
    }

    fn with_battery(self) -> (r: Self)
        ensures
            r == (CartridgeType { has_battery: true, ..self }),
    {
        let mut s = self;
        s.has_battery = true;
        s
    }

    fn with_timer(self) -> (r: Self)
        ensures
            r == (CartridgeType { has_timer: true, ..self }),
    {
        let mut s = self;
        s.has_timer = true;
        s
    }

    fn with_rumble(self) -> (r: Self)
        ensures
            r == (CartridgeType { has_rumble: true, ..self }),
    {
        let mut s = self;
        s.has_rumble = true;
        s
    }

    fn with_sensor(self) -> (r: Self)
        ensures
            r == (CartridgeType { has_sensor: true, ..self }),
    {
        let mut s = self;
        s.has_sensor = true;
        s
    }

    /// Only the MBC2 carries its RAM inside the controller chip.
    pub fn has_internal_ram(&self) -> (r: bool)
        ensures
            r == (self.mbc == Some(Mbc::Mbc2)),
    {
        match self.mbc {
            Some(Mbc::Mbc2) => true,
            _ => false,
        }
    }
}

} // verus!

verus! {

/// Decodes bytes as UTF-8, with invalid sequences replaced by U+FFFD.
pub uninterp spec fn utf8_lossy(bytes: Seq<u8>) -> Seq<char>;

/// Calls `String::from_utf8_lossy`. Its result is named `utf8_lossy` of the bytes; for
/// valid UTF-8 std documents that the bytes are decoded as they are.
#[verifier::external_body]
fn string_from_utf8_lossy(bytes: &[u8]) -> (r: String)
    ensures
        r@ == utf8_lossy(bytes@),
        vstd::utf8::valid_utf8(bytes@) ==> r@ == vstd::utf8::decode_utf8(bytes@),
{
    String::from_utf8_lossy(bytes).into_owned()
}

/// ROM size in bytes for header byte $0148: 32 KiB shifted left by the code.
pub open spec fn rom_size_of(code: u8) -> Option<u64> {
    if code <= 8 {
        Some((0x8000 * vstd::arithmetic::power2::pow2(code as nat)) as u64)
    } else {
        None
    }
}

/// RAM size in bytes for header byte $0149.
pub open spec fn ram_size_of(code: u8) -> Option<u64> {
    if code == 0 {
        Some(0)
    } else if code == 2 {
        Some(0x2000)
    } else if code == 3 {
        Some(0x8000)
    } else if code == 4 {
        Some(0x20000)
    } else if code == 5 {
        Some(0x10000)
    } else {
        None
    }
}

/// Header checksum of the cartridge: starting from 0, for each byte at $0134 up to
/// (but excluding) `end`, subtract the byte and one, modulo 256.
pub open spec fn header_checksum_upto(b: Seq<u8>, end: int) -> u8
    decreases end - 0x134,
{
    if end <= 0x134 {
        0
    } else {
        let x = header_checksum_upto(b, end - 1);
        vstd::wrapping::u8_specs::wrapping_sub(
            vstd::wrapping::u8_specs::wrapping_sub(x, b[end - 1]),
            1,
        )
    }
}

/// The header checksum computed over bytes $0134..=$014C.
pub open spec fn header_checksum_of(b: Seq<u8>) -> u8 {
    header_checksum_upto(b, 0x14d)
}

/// Sum, modulo 65536, of the bytes before `end` except those at $014E and $014F.
pub open spec fn global_checksum_upto(b: Seq<u8>, end: int) -> u16
    decreases end,
{
    if end <= 0 {
        0
    } else {
        let x = global_checksum_upto(b, end - 1);
        if end - 1 == 0x14e || end - 1 == 0x14f {
            x
        } else {
            vstd::wrapping::u16_specs::wrapping_add(x, b[end - 1] as u16)
        }
    }
}

/// The global checksum computed over the whole image.
pub open spec fn global_checksum_of(b: Seq<u8>) -> u16 {
    global_checksum_upto(b, b.len() as int)
}

/// The first reason, in header order, for which the image is refused, if any.
pub open spec fn rom_error_of(b: Seq<u8>) -> Option<RomError> {
    if cartridge_type_of(b[0x147]) is None {
        Some(RomError::UnknownCartridgeType(b[0x147]))
    } else if rom_size_of(b[0x148]) is None {
        Some(RomError::InvalidRomSize(b[0x148]))
    } else if b.len() != rom_size_of(b[0x148]).unwrap() {
        Some(
            RomError::RomSizeMismatch {
                expected: rom_size_of(b[0x148]).unwrap(),
                actual: b.len() as u64,
            },
        )
    } else if ram_size_of(b[0x149]) is None {
        Some(RomError::InvalidRamSize(b[0x149]))
    } else if b[0x14a] > 1 {
        Some(RomError::InvalidDestinationCode(b[0x14a]))
    } else {
        None
    }
}

pub open spec fn cgb_flag_of(v: u8) -> CgbFlag {
    if v == 0x80 {
        CgbFlag::SupportCgb
    } else if v == 0xC0 {
        CgbFlag::OnlyCgb
    } else {
        CgbFlag::NonCgb
    }
}

/// A cartridge image with its decoded header.
pub struct Rom {
    pub title: String,
    pub manufacturer_code: [u8; 4],
    pub cgb_flag: CgbFlag,
    pub new_licensee_code: [u8; 2],
    pub sgb_flag: bool,
    pub cartridge_type: CartridgeType,
    pub rom_size: u64,
    pub ram_size: u64,
    pub destination_code: DestinationCode,
    pub old_licensee_code: u8,
    pub mask_rom_version: u8,
    pub header_checksum: u8,
    pub header_checksum_ok: bool,
    pub global_checksum: u16,
    pub global_checksum_ok: bool,
    pub data: Vec<u8>,
}

/// ROM sizes that a header can give: 32 KiB to 8 MiB.
pub open spec fn valid_rom_size(s: u64) -> bool {
    s == 0x8000 || s == 0x10000 || s == 0x20000 || s == 0x40000 || s == 0x80000 || s == 0x100000
        || s == 0x200000 || s == 0x400000 || s == 0x800000
}

/// RAM sizes that a header can give.
pub open spec fn valid_ram_size(s: u64) -> bool {
    s == 0 || s == 0x2000 || s == 0x8000 || s == 0x10000 || s == 0x20000
}

impl Rom {
    /// The sizes are ones a header gives, and the image has the ROM size.
    pub open spec fn wf(&self) -> bool {
        &&& valid_rom_size(self.rom_size)
        &&& valid_ram_size(self.ram_size)
        &&& self.data@.len() == self.rom_size
    }
}

/// The header of `rom` is the one decoded from the bytes `b`, which it holds.
pub open spec fn rom_decoded_from(rom: Rom, b: Seq<u8>) -> bool {
    &&& rom.data@ == b
    &&& rom.title@ == utf8_lossy(b.subrange(0x134, 0x144))
    &&& rom.manufacturer_code@ == b.subrange(0x13f, 0x143)
    &&& rom.cgb_flag == cgb_flag_of(b[0x143])
    &&& rom.new_licensee_code@ == b.subrange(0x144, 0x146)
    &&& rom.sgb_flag == (b[0x146] == 0x03)
    &&& Some(rom.cartridge_type) == cartridge_type_of(b[0x147])
    &&& Some(rom.rom_size) == rom_size_of(b[0x148])
    &&& Some(rom.ram_size) == ram_size_of(b[0x149])
    &&& rom.destination_code == (if b[0x14a] == 0 {
        DestinationCode::Japanese
    } else {
        DestinationCode::NonJapanese
    })
    &&& rom.old_licensee_code == b[0x14b]
    &&& rom.mask_rom_version == b[0x14c]
    &&& rom.header_checksum == b[0x14d]
    &&& rom.header_checksum_ok == (header_checksum_of(b) == b[0x14d])
    &&& rom.global_checksum == b[0x14e] as u16 * 256 + b[0x14f] as u16
    &&& rom.global_checksum_ok == (global_checksum_of(b) == rom.global_checksum)
}

proof fn lemma_rom_size_table(n: u8)
    requires
        n <= 8,
    ensures
        rom_size_of(n) == Some(
            if n == 0 { 0x8000u64 }
            else if n == 1 { 0x10000u64 }
            else if n == 2 { 0x20000u64 }
            else if n == 3 { 0x40000u64 }
            else if n == 4 { 0x80000u64 }
            else if n == 5 { 0x100000u64 }
            else if n == 6 { 0x200000u64 }
            else if n == 7 { 0x400000u64 }
            else { 0x800000u64 },
        ),
{
    vstd::arithmetic::power2::lemma2_to64();
}

fn rom_size_from_code(n: u8) -> (r: Option<u64>)
    ensures
        r == rom_size_of(n),
{
    proof {
        if n <= 8 {
            lemma_rom_size_table(n);
        }
    }
    match n {
        0 => Some(0x8000u64),
        1 => Some(0x10000u64),
        2 => Some(0x20000u64),
        3 => Some(0x40000u64),
        4 => Some(0x80000u64),
        5 => Some(0x100000u64),
        6 => Some(0x200000u64),
        7 => Some(0x400000u64),
        8 => Some(0x800000u64),
        _ => None,
    }
}

} // verus!

verus! {

fn ram_size_from_code(n: u8) -> (r: Option<u64>)
    ensures
        r == ram_size_of(n),
{
    match n {
        0 => Some(0u64),
        2 => Some(0x2000u64),
        3 => Some(0x8000u64),
        4 => Some(0x20000u64),
        5 => Some(0x10000u64),
        _ => None,
    }
}

fn header_checksum_calc(bytes: &[u8]) -> (r: u8)
    requires
        bytes.len() >= 0x150,
    ensures
        r == header_checksum_of(bytes@),
{
    let mut x: u8 = 0;
    let mut i: usize = 0x134;
    while i <= 0x14c
        invariant
            bytes.len() >= 0x150,
            0x134 <= i <= 0x14d,
            x == header_checksum_upto(bytes@, i as int),
        decreases 0x14d - i,
    {
        x = x.wrapping_sub(bytes[i]).wrapping_sub(1);
        i = i + 1;
    }
    x
}

fn global_checksum_calc(bytes: &[u8]) -> (r: u16)
    ensures
        r == global_checksum_of(bytes@),
{
    let mut x: u16 = 0;
    let mut i: usize = 0;
    while i < bytes.len()
        invariant
            i <= bytes.len(),
            x == global_checksum_upto(bytes@, i as int),
        decreases bytes.len() - i,
    {
        if !(0x14e <= i && i <= 0x14f) {
            x = x.wrapping_add(bytes[i] as u16);
        }
        i = i + 1;
    }
    x
}

pub(crate) fn copy_bytes(bytes: &[u8]) -> (r: Vec<u8>)
    ensures
        r@ == bytes@,
{
    let mut v: Vec<u8> = Vec::new();
    let mut i: usize = 0;
    while i < bytes.len()
        invariant
            i <= bytes.len(),
            v@ == bytes@.subrange(0, i as int),
        decreases bytes.len() - i,
    {
        v.push(bytes[i]);
        i = i + 1;
    }
    v
}

fn subslice(bytes: &[u8], from: usize, to: usize) -> (r: Vec<u8>)
    requires
        from <= to <= bytes.len(),
    ensures
        r@ == bytes@.subrange(from as int, to as int),
{
    let mut v: Vec<u8> = Vec::new();
    let mut i: usize = from;
    while i < to
        invariant
            from <= i <= to <= bytes.len(),
            v@ == bytes@.subrange(from as int, i as int),
        decreases to - i,
    {
        v.push(bytes[i]);
        i = i + 1;
    }
    v
}

impl Rom {
    /// Decodes the cartridge header of a ROM image and keeps the image.
    ///
    /// A wrong header or global checksum does not refuse the image; it is recorded in
    /// `header_checksum_ok` and `global_checksum_ok`.
    pub fn from_bytes(bytes: &[u8]) -> (r: Result<Rom, RomError>)
        requires
            bytes.len() >= 0x150,
        ensures
            match rom_error_of(bytes@) {
                Some(e) => r == Err::<Rom, RomError>(e),
                None => r is Ok && rom_decoded_from(r->Ok_0, bytes@) && r->Ok_0.wf(),
            },
    {
        let title_bytes = subslice(bytes, 0x134, 0x144);
        let title = string_from_utf8_lossy(title_bytes.as_slice());
        let manufacturer_code: [u8; 4] = [bytes[0x13f], bytes[0x140], bytes[0x141], bytes[0x142]];
        let cgb_flag = if bytes[0x143] == 0x80 {
            CgbFlag::SupportCgb
        } else if bytes[0x143] == 0xC0 {
            CgbFlag::OnlyCgb
        } else {
            CgbFlag::NonCgb
        };
        let new_licensee_code: [u8; 2] = [bytes[0x144], bytes[0x145]];
        let sgb_flag = bytes[0x146] == 0x03;

        let cartridge_type = match CartridgeType::from_code(bytes[0x147]) {
            Ok(t) => t,
            Err(e) => return Err(e),
        };

        let rom_size = match rom_size_from_code(bytes[0x148]) {
            Some(s) => s,
            None => return Err(RomError::InvalidRomSize(bytes[0x148])),
        };

        if bytes.len() as u64 != rom_size {
            return Err(RomError::RomSizeMismatch { expected: rom_size, actual: bytes.len() as u64 });
        }

        let ram_size = match ram_size_from_code(bytes[0x149]) {
            Some(s) => s,
            None => return Err(RomError::InvalidRamSize(bytes[0x149])),
        };

        let destination_code = if bytes[0x14a] == 0x00 {
            DestinationCode::Japanese
        } else if bytes[0x14a] == 0x01 {
            DestinationCode::NonJapanese
        } else {
            return Err(RomError::InvalidDestinationCode(bytes[0x14a]));
        };

        let old_licensee_code = bytes[0x14b];
        let mask_rom_version = bytes[0x14c];
        let header_checksum = bytes[0x14d];
        let header_checksum_calc = header_checksum_calc(bytes);

        let global_checksum = (bytes[0x14e] as u16) * 256 + bytes[0x14f] as u16;
        let global_checksum_calc = global_checksum_calc(bytes);

        let data = copy_bytes(bytes);
        proof {
            assert(manufacturer_code@ =~= bytes@.subrange(0x13f, 0x143));
            assert(new_licensee_code@ =~= bytes@.subrange(0x144, 0x146));
            lemma_rom_size_table(bytes@[0x148]);
        }
        Ok(Rom {
            title,
            manufacturer_code,
            cgb_flag,
            new_licensee_code,
            sgb_flag,
            cartridge_type,
            rom_size,
            ram_size,
            destination_code,
            old_licensee_code,
            mask_rom_version,
            header_checksum,
            header_checksum_ok: header_checksum_calc == header_checksum,
            global_checksum,
            global_checksum_ok: global_checksum_calc == global_checksum,
            data,
        })
    }
}

impl Default for Rom {
    /// An empty image: no data, a ROM-only cartridge type, zero sizes.
    fn default() -> (r: Rom)
        ensures
            r.data@.len() == 0,
            r.rom_size == 0,
            r.ram_size == 0,
            r.cartridge_type.mbc is None,
    {
        Rom {
            title: String::new(),
            manufacturer_code: [0u8; 4],
            cgb_flag: CgbFlag::NonCgb,
            new_licensee_code: [0u8; 2],
            sgb_flag: false,
            cartridge_type: CartridgeType {
                code: 0,
                mbc: None,
                has_ram: false,
                has_battery: false,
                has_timer: false,
                has_rumble: false,
                has_sensor: false,
            },
            rom_size: 0,
            ram_size: 0,
            destination_code: DestinationCode::Japanese,
            old_licensee_code: 0,
            mask_rom_version: 0,
            header_checksum: 0,
            header_checksum_ok: false,
            global_checksum: 0,
            global_checksum_ok: false,
            data: Vec::new(),
        }
    }
}

} // verus!
