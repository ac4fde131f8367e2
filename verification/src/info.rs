//! The cartridge header as text, for display.
use vstd::prelude::*;
use vstd::string::*;
use crate::rom::{CartridgeType, CgbFlag, DestinationCode, Mbc, Rom};

verus! {

broadcast use crate::bits::group_and_bounds;

/// The digit of value `n` (0-15) in upper-case hexadecimal.
pub open spec fn hex_char(n: u8) -> char {
    if n == 0 {
        '0'
    } else if n == 1 {
        '1'
    } else if n == 2 {
        '2'
    } else if n == 3 {
        '3'
    } else if n == 4 {
        '4'
    } else if n == 5 {
        '5'
    } else if n == 6 {
        '6'
    } else if n == 7 {
        '7'
    } else if n == 8 {
        '8'
    } else if n == 9 {
        '9'
    } else if n == 10 {
        'A'
    } else if n == 11 {
        'B'
    } else if n == 12 {
        'C'
    } else if n == 13 {
        'D'
    } else if n == 14 {
        'E'
    } else {
        'F'
    }
}

/// A byte as two hexadecimal digits.
pub open spec fn hex2(b: u8) -> Seq<char> {
    seq![hex_char((b >> 4u8) & 15), hex_char(b & 15)]
}

/// A 16-bit value as four hexadecimal digits.
pub open spec fn hex4(w: u16) -> Seq<char> {
    seq![
        hex_char(((w >> 12u16) & 15) as u8),
        hex_char(((w >> 8u16) & 15) as u8),
        hex_char(((w >> 4u16) & 15) as u8),
        hex_char((w & 15) as u8),
    ]
}

/// A byte in decimal, without leading zeros.
pub open spec fn dec(v: u8) -> Seq<char> {
    if v >= 100 {
        seq![hex_char(v / 100), hex_char((v / 10) % 10), hex_char(v % 10)]
    } else if v >= 10 {
        seq![hex_char(v / 10), hex_char(v % 10)]
    } else {
        seq![hex_char(v)]
    }
}

pub open spec fn bool_text(b: bool) -> Seq<char> {
    if b {
        "true"@
    } else {
        "false"@
    }
}

pub open spec fn good_text(ok: bool) -> Seq<char> {
    if ok {
        "Good"@
    } else {
        "Bad"@
    }
}

pub open spec fn cgb_flag_text(f: CgbFlag) -> Seq<char> {
    match f {
        CgbFlag::NonCgb => "Non-CGB"@,
        CgbFlag::SupportCgb => "Support CGB"@,
        CgbFlag::OnlyCgb => "Only CGB"@,
    }
}

pub open spec fn destination_text(d: DestinationCode) -> Seq<char> {
    match d {
        DestinationCode::Japanese => "Japanese"@,
        DestinationCode::NonJapanese => "Non-Japanese"@,
    }
}

pub open spec fn mbc_text(m: Mbc) -> Seq<char> {
    match m {
        Mbc::Mbc1 => "MBC1"@,
        Mbc::Mbc2 => "MBC2"@,
        Mbc::Mmm01 => "MMM01"@,
        Mbc::Mbc3 => "MBC3"@,
        Mbc::Mbc5 => "MBC5"@,
        Mbc::Mbc6 => "MBC6"@,
        Mbc::Mbc7 => "MBC7"@,
        Mbc::HuC1 => "HuC1"@,
        Mbc::HuC3 => "HuC3"@,
    }
}

pub open spec fn flag_text(b: bool, s: Seq<char>) -> Seq<char> {
    if b {
        s
    } else {
        Seq::empty()
    }
}

/// "code: controller+features", e.g. "13: MBC3+RAM+BATTERY".
pub open spec fn cartridge_type_text(t: CartridgeType) -> Seq<char> {
    hex2(t.code) + ": "@ + (match t.mbc {
        Some(m) => mbc_text(m),
        None => "ROM"@,
    }) + flag_text(t.has_ram, "+RAM"@) + flag_text(t.has_battery, "+BATTERY"@) + flag_text(
        t.has_timer,
        "+TIMER"@,
    ) + flag_text(t.has_rumble, "+RUMBLE"@) + flag_text(t.has_sensor, "+SENSOR"@)
}

/// A byte count with a binary unit, as the `bytesize` crate writes it.
pub uninterp spec fn si_size_text(x: u64) -> Seq<char>;

/// `bytesize::ByteSize::to_string_as` with binary units: the size as text, which the
/// contract only names.
#[verifier::external_body]
fn si_size(x: u64) -> (r: String)
    ensures
        r@ == si_size_text(x),
{
    bytesize::ByteSize(x).to_string_as(true)
}

fn hex_str(n: u8) -> (r: &'static str)
    requires
        n < 16,
    ensures
        r@ == seq![hex_char(n)],
{
    if n == 0 {
        proof {
            reveal_strlit("0");
        }
        "0"
    } else if n == 1 {
        proof {
            reveal_strlit("1");
        }
        "1"
    } else if n == 2 {
        proof {
            reveal_strlit("2");
        }
        "2"
    } else if n == 3 {
        proof {
            reveal_strlit("3");
        }
        "3"
    } else if n == 4 {
        proof {
            reveal_strlit("4");
        }
        "4"
    } else if n == 5 {
        proof {
            reveal_strlit("5");
        }
        "5"
    } else if n == 6 {
        proof {
            reveal_strlit("6");
        }
        "6"
    } else if n == 7 {
        proof {
            reveal_strlit("7");
        }
        "7"
    } else if n == 8 {
        proof {
            reveal_strlit("8");
        }
        "8"
    } else if n == 9 {
        proof {
            reveal_strlit("9");
        }
        "9"
    } else if n == 10 {
        proof {
            reveal_strlit("A");
        }
        "A"
    } else if n == 11 {
        proof {
            reveal_strlit("B");
        }
        "B"
    } else if n == 12 {
        proof {
            reveal_strlit("C");
        }
        "C"
    } else if n == 13 {
        proof {
            reveal_strlit("D");
        }
        "D"
    } else if n == 14 {
        proof {
            reveal_strlit("E");
        }
        "E"
    } else {
        proof {
            reveal_strlit("F");
        }
        "F"
    }
}

/// Appends `b` as two hexadecimal digits.
pub(crate) fn push_hex2(s: &mut String, b: u8)
    ensures
        final(s)@ == old(s)@ + hex2(b),
{
    s.append(hex_str((b >> 4u8) & 15));
    s.append(hex_str(b & 15));
}

/// Appends `w` as four hexadecimal digits.
pub(crate) fn push_hex4(s: &mut String, w: u16)
    ensures
        final(s)@ == old(s)@ + hex4(w),
{
    s.append(hex_str(((w >> 12u16) & 15) as u8));
    s.append(hex_str(((w >> 8u16) & 15) as u8));
    s.append(hex_str(((w >> 4u16) & 15) as u8));
    s.append(hex_str((w & 15) as u8));
}

/// `v` in decimal.
pub(crate) fn dec_string(v: u8) -> (r: String)
    ensures
        r@ == dec(v),
{
    let mut s = String::new();
    if v >= 100 {
        s.append(hex_str(v / 100));
        s.append(hex_str((v / 10) % 10));
    } else if v >= 10 {
        s.append(hex_str(v / 10));
    }
    s.append(hex_str(v % 10));
    s
}

fn text(lit: &str) -> (r: String)
    ensures
        r@ == lit@,
{
    lit.to_owned()
}

fn bool_string(b: bool) -> (r: String)
    ensures
        r@ == bool_text(b),
{
    if b {
        text("true")
    } else {
        text("false")
    }
}

impl CgbFlag {
    /// The flag as text.
    pub fn name(&self) -> (r: String)
        ensures
            r@ == cgb_flag_text(*self),
    {
        match self {
            CgbFlag::NonCgb => text("Non-CGB"),
            CgbFlag::SupportCgb => text("Support CGB"),
            CgbFlag::OnlyCgb => text("Only CGB"),
        }
    }
}

impl DestinationCode {
    /// The region as text.
    pub fn name(&self) -> (r: String)
        ensures
            r@ == destination_text(*self),
    {
        match self {
            DestinationCode::Japanese => text("Japanese"),
            DestinationCode::NonJapanese => text("Non-Japanese"),
        }
    }
}

impl Mbc {
    /// The controller's name.
    pub fn name(&self) -> (r: String)
        ensures
            r@ == mbc_text(*self),
    {
        match self {
            Mbc::Mbc1 => text("MBC1"),
            Mbc::Mbc2 => text("MBC2"),
            Mbc::Mmm01 => text("MMM01"),
            Mbc::Mbc3 => text("MBC3"),
            Mbc::Mbc5 => text("MBC5"),
            Mbc::Mbc6 => text("MBC6"),
            Mbc::Mbc7 => text("MBC7"),
            Mbc::HuC1 => text("HuC1"),
            Mbc::HuC3 => text("HuC3"),
        }
    }
}

impl CartridgeType {
    /// The type code and its hardware, e.g. "13: MBC3+RAM+BATTERY".
    pub fn name(&self) -> (r: String)
        ensures
            r@ == cartridge_type_text(*self),
    {
        let mut s = String::new();
        push_hex2(&mut s, self.code);
        s.append(": ");
        match &self.mbc {
            Some(m) => {
                let n = m.name();
                s.append(n.as_str());
            },
            None => s.append("ROM"),
        }
        if self.has_ram {
            s.append("+RAM");
        }
        if self.has_battery {
            s.append("+BATTERY");
        }
        if self.has_timer {
            s.append("+TIMER");
        }
        if self.has_rumble {
            s.append("+RUMBLE");
        }
        if self.has_sensor {
            s.append("+SENSOR");
        }
        proof {
            assert(s@ =~= cartridge_type_text(*self));
        }
        s
    }
}

impl Rom {
    /// The header fields as (name, value) text, in header order.
    pub open spec fn info_spec(&self) -> Seq<(Seq<char>, Seq<char>)> {
        let m = self.manufacturer_code;
        let l = self.new_licensee_code;
        seq![
            ("Title"@, self.title@),
            ("Manufacturer Code"@, hex2(m[0]) + " "@ + hex2(m[1]) + " "@ + hex2(m[2]) + " "@ + hex2(m[3])),
            ("CGB Flag"@, cgb_flag_text(self.cgb_flag)),
            ("New Licensee Code"@, hex2(l[0]) + " "@ + hex2(l[1])),
            ("Suport SGB"@, bool_text(self.sgb_flag)),
            ("Cartridge Type"@, cartridge_type_text(self.cartridge_type)),
            ("ROM Size"@, si_size_text(self.rom_size)),
            ("RAM Size"@, si_size_text(self.ram_size)),
            ("Destination Code"@, destination_text(self.destination_code)),
            ("Old Licensee Code"@, dec(self.old_licensee_code)),
            ("Mask ROM Version"@, dec(self.mask_rom_version)),
            ("Header Checksum"@, hex2(self.header_checksum) + " ("@ + good_text(self.header_checksum_ok) + ")"@),
            ("Global Checksum"@, hex4(self.global_checksum) + " ("@ + good_text(self.global_checksum_ok) + ")"@),
        ]
    }

    /// The header fields as (name, value) text, in header order.
    pub fn info(&self) -> (r: Vec<(&'static str, String)>)
        ensures
            r@.len() == self.info_spec().len(),
            forall|i: int|
                0 <= i < r@.len() ==> (#[trigger] r@[i]).0@ == self.info_spec()[i].0 && r@[i].1@
                    == self.info_spec()[i].1,
    {
        let mut v: Vec<(&'static str, String)> = Vec::new();
        v.push(("Title", self.title.clone()));
        let m = self.manufacturer_code;
        let mut s = String::new();
        push_hex2(&mut s, m[0]);
        s.append(" ");
        push_hex2(&mut s, m[1]);
        s.append(" ");
        push_hex2(&mut s, m[2]);
        s.append(" ");
        push_hex2(&mut s, m[3]);
        v.push(("Manufacturer Code", s));
        v.push(("CGB Flag", self.cgb_flag.name()));
        let mut s = String::new();
        push_hex2(&mut s, self.new_licensee_code[0]);
        s.append(" ");
        push_hex2(&mut s, self.new_licensee_code[1]);
        v.push(("New Licensee Code", s));
        v.push(("Suport SGB", bool_string(self.sgb_flag)));
        v.push(("Cartridge Type", self.cartridge_type.name()));
        v.push(("ROM Size", si_size(self.rom_size)));
        v.push(("RAM Size", si_size(self.ram_size)));
        v.push(("Destination Code", self.destination_code.name()));
        v.push(("Old Licensee Code", dec_string(self.old_licensee_code)));
        v.push(("Mask ROM Version", dec_string(self.mask_rom_version)));
        let mut s = String::new();
        push_hex2(&mut s, self.header_checksum);
        s.append(" (");
        s.append(
            if self.header_checksum_ok {
                "Good"
            } else {
                "Bad"
            },
        );
        s.append(")");
        v.push(("Header Checksum", s));
        let mut s = String::new();
        push_hex4(&mut s, self.global_checksum);
        s.append(" (");
        s.append(
            if self.global_checksum_ok {
                "Good"
            } else {
                "Bad"
            },
        );
        s.append(")");
        v.push(("Global Checksum", s));
        proof {
            assert(v@.len() == self.info_spec().len());
        }
        v
    }
}

} // verus!
