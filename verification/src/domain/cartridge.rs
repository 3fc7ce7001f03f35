//! A loaded cartridge: ROM image, parsed header and external RAM with a dirty flag.
use vstd::prelude::*;
use super::rom::{RomHeader, RomHeaderError, MIN_ROM_SIZE};

verus! {

pub const ROM_BANK_SIZE: usize = 0x4000;
pub const OPEN_BUS: u8 = 0xFF;
pub const MBC2_RAM_SIZE: usize = 512;

/// Memory bank controller and extras declared by header byte 0x0147.
#[derive(Debug, Clone, Copy, PartialEq, Eq, Structural)]
pub enum CartridgeType {
    RomOnly,
    Mbc1,
    Mbc1Ram,
    Mbc1RamBattery,
    Mbc2,
    Mbc2Battery,
    RomRam,
    RomRamBattery,
    Mmm01,
    Mmm01Ram,
    Mmm01RamBattery,
    Mbc3TimerBattery,
    Mbc3TimerRamBattery,
    Mbc3,
    Mbc3Ram,
    Mbc3RamBattery,
    Mbc5,
    Mbc5Ram,
    Mbc5RamBattery,
    Mbc5Rumble,
    Mbc5RumbleRam,
    Mbc5RumbleRamBattery,
    Mbc6,
    Mbc7SensorRumbleRamBattery,
    PocketCamera,
    BandaiTama5,
    HuC3,
    HuC1RamBattery,
    Unknown(u8),
}

pub open spec fn cartridge_type_of(code: u8) -> CartridgeType {
    match code {
        0x00 => CartridgeType::RomOnly,
        0x01 => CartridgeType::Mbc1,
        0x02 => CartridgeType::Mbc1Ram,
        0x03 => CartridgeType::Mbc1RamBattery,
        0x05 => CartridgeType::Mbc2,
        0x06 => CartridgeType::Mbc2Battery,
        0x08 => CartridgeType::RomRam,
        0x09 => CartridgeType::RomRamBattery,
        0x0B => CartridgeType::Mmm01,
        0x0C => CartridgeType::Mmm01Ram,
        0x0D => CartridgeType::Mmm01RamBattery,
        0x0F => CartridgeType::Mbc3TimerBattery,
        0x10 => CartridgeType::Mbc3TimerRamBattery,
        0x11 => CartridgeType::Mbc3,
        0x12 => CartridgeType::Mbc3Ram,
        0x13 => CartridgeType::Mbc3RamBattery,
        0x19 => CartridgeType::Mbc5,
        0x1A => CartridgeType::Mbc5Ram,
        0x1B => CartridgeType::Mbc5RamBattery,
        0x1C => CartridgeType::Mbc5Rumble,
        0x1D => CartridgeType::Mbc5RumbleRam,
        0x1E => CartridgeType::Mbc5RumbleRamBattery,
        0x20 => CartridgeType::Mbc6,
        0x22 => CartridgeType::Mbc7SensorRumbleRamBattery,
        0xFC => CartridgeType::PocketCamera,
        0xFD => CartridgeType::BandaiTama5,
        0xFE => CartridgeType::HuC3,
        0xFF => CartridgeType::HuC1RamBattery,
        other => CartridgeType::Unknown(other),
    }
}

pub open spec fn has_battery_type(t: CartridgeType) -> bool {
    match t {
        CartridgeType::Mbc1RamBattery | CartridgeType::Mbc2Battery | CartridgeType::RomRamBattery
        | CartridgeType::Mmm01RamBattery | CartridgeType::Mbc3TimerBattery
        | CartridgeType::Mbc3TimerRamBattery | CartridgeType::Mbc3RamBattery
        | CartridgeType::Mbc5RamBattery | CartridgeType::Mbc5RumbleRamBattery
        | CartridgeType::Mbc7SensorRumbleRamBattery | CartridgeType::HuC1RamBattery => true,
        _ => false,
    }
}

impl CartridgeType {
    pub fn from_code(code: u8) -> (t: Self)
        ensures t == cartridge_type_of(code),
    {
        match code {
            0x00 => CartridgeType::RomOnly,
            0x01 => CartridgeType::Mbc1,
            0x02 => CartridgeType::Mbc1Ram,
            0x03 => CartridgeType::Mbc1RamBattery,
            0x05 => CartridgeType::Mbc2,
            0x06 => CartridgeType::Mbc2Battery,
            0x08 => CartridgeType::RomRam,
            0x09 => CartridgeType::RomRamBattery,
            0x0B => CartridgeType::Mmm01,
            0x0C => CartridgeType::Mmm01Ram,
            0x0D => CartridgeType::Mmm01RamBattery,
            0x0F => CartridgeType::Mbc3TimerBattery,
            0x10 => CartridgeType::Mbc3TimerRamBattery,
            0x11 => CartridgeType::Mbc3,
            0x12 => CartridgeType::Mbc3Ram,
            0x13 => CartridgeType::Mbc3RamBattery,
            0x19 => CartridgeType::Mbc5,
            0x1A => CartridgeType::Mbc5Ram,
            0x1B => CartridgeType::Mbc5RamBattery,
            0x1C => CartridgeType::Mbc5Rumble,
            0x1D => CartridgeType::Mbc5RumbleRam,
            0x1E => CartridgeType::Mbc5RumbleRamBattery,
            0x20 => CartridgeType::Mbc6,
            0x22 => CartridgeType::Mbc7SensorRumbleRamBattery,
            0xFC => CartridgeType::PocketCamera,
            0xFD => CartridgeType::BandaiTama5,
            0xFE => CartridgeType::HuC3,
            0xFF => CartridgeType::HuC1RamBattery,
            other => CartridgeType::Unknown(other),
        }
    }

    /// The header byte that declares this type.
    pub fn code(&self) -> (c: u8)
        ensures
            !(*self is Unknown) ==> cartridge_type_of(c) == *self,
            *self is Unknown ==> c == self->Unknown_0,
    {
        match *self {
            CartridgeType::RomOnly => 0x00,
            CartridgeType::Mbc1 => 0x01,
            CartridgeType::Mbc1Ram => 0x02,
            CartridgeType::Mbc1RamBattery => 0x03,
            CartridgeType::Mbc2 => 0x05,
            CartridgeType::Mbc2Battery => 0x06,
            CartridgeType::RomRam => 0x08,
            CartridgeType::RomRamBattery => 0x09,
            CartridgeType::Mmm01 => 0x0B,
            CartridgeType::Mmm01Ram => 0x0C,
            CartridgeType::Mmm01RamBattery => 0x0D,
            CartridgeType::Mbc3TimerBattery => 0x0F,
            CartridgeType::Mbc3TimerRamBattery => 0x10,
            CartridgeType::Mbc3 => 0x11,
            CartridgeType::Mbc3Ram => 0x12,
            CartridgeType::Mbc3RamBattery => 0x13,
            CartridgeType::Mbc5 => 0x19,
            CartridgeType::Mbc5Ram => 0x1A,
            CartridgeType::Mbc5RamBattery => 0x1B,
            CartridgeType::Mbc5Rumble => 0x1C,
            CartridgeType::Mbc5RumbleRam => 0x1D,
            CartridgeType::Mbc5RumbleRamBattery => 0x1E,
            CartridgeType::Mbc6 => 0x20,
            CartridgeType::Mbc7SensorRumbleRamBattery => 0x22,
            CartridgeType::PocketCamera => 0xFC,
            CartridgeType::BandaiTama5 => 0xFD,
            CartridgeType::HuC3 => 0xFE,
            CartridgeType::HuC1RamBattery => 0xFF,
            CartridgeType::Unknown(other) => other,
        }
    }
}


/// External RAM size declared by header byte 0x0149.
pub open spec fn ram_size_for_code(code: u8) -> usize {
    if code == 0x01 { 0x800 } else if code == 0x02 { 0x2000 } else if code == 0x03 { 0x8000 }
    else if code == 0x04 { 0x20000 } else if code == 0x05 { 0x10000 } else { 0 }
}

/// RAM a cartridge carries: MBC2 has 512 half-bytes built in, others follow the header.
pub open spec fn ext_ram_size(cartridge_type: u8, ram_size_code: u8) -> usize {
    let t = cartridge_type_of(cartridge_type);
    if t == CartridgeType::Mbc2 || t == CartridgeType::Mbc2Battery {
        MBC2_RAM_SIZE
    } else {
        ram_size_for_code(ram_size_code)
    }
}

/// ROM banks declared by header byte 0x0148.
pub open spec fn declared_banks(code: u8) -> Option<usize> {
    if code <= 0x08 {
        Some((2 * vstd::arithmetic::power2::pow2(code as nat)) as usize)
    } else if code == 0x52 {
        Some(72)
    } else if code == 0x53 {
        Some(80)
    } else if code == 0x54 {
        Some(96)
    } else {
        None
    }
}

#[derive(Debug)]
pub struct Cartridge {
    pub bytes: Vec<u8>,
    pub header: RomHeader,
    pub ext_ram: Vec<u8>,
    pub ram_dirty: bool,
    pub ram_dirty_generation: u64,
}

/// Number of 16 KiB banks needed to hold `len` bytes.
pub open spec fn banks_for_len(len: int) -> int {
    if len == 0 { 0 } else { (len + ROM_BANK_SIZE - 1) / ROM_BANK_SIZE as int }
}

fn zeroed(len: usize) -> (v: Vec<u8>)
    ensures
        v@.len() == len,
        forall|i: int| 0 <= i < len ==> v@[i] == 0,
{
    let mut v: Vec<u8> = Vec::new();
    let mut i: usize = 0;
    while i < len
        invariant
            i <= len,
            v@.len() == i,
            forall|j: int| 0 <= j < i ==> v@[j] == 0,
        decreases len - i,
    {
        v.push(0);
        i = i + 1;
    }
    v
}

/// The parts of a cartridge that bank controllers read and write.
pub struct CartView {
    pub bytes: Seq<u8>,
    pub ext_ram: Seq<u8>,
    pub ram_dirty: bool,
    pub ram_dirty_generation: u64,
}

impl CartView {
    /// The view after a RAM change has been recorded.
    pub open spec fn marked_dirty(self) -> CartView {
        CartView {
            ram_dirty: true,
            ram_dirty_generation: ((self.ram_dirty_generation as int + 1) % 0x1_0000_0000_0000_0000) as u64,
            ..self
        }
    }
}

impl View for Cartridge {
    type V = CartView;

    open spec fn view(&self) -> CartView {
        CartView {
            bytes: self.bytes@,
            ext_ram: self.ext_ram@,
            ram_dirty: self.ram_dirty,
            ram_dirty_generation: self.ram_dirty_generation,
        }
    }
}

impl Cartridge {
    /// Parses the header and allocates zeroed external RAM of the declared size.
    pub fn from_bytes(bytes: Vec<u8>) -> (r: Result<Self, RomHeaderError>)
        ensures
            bytes@.len() < MIN_ROM_SIZE ==> r == Err::<Self, RomHeaderError>(
                RomHeaderError::TooSmall { actual: bytes@.len() as usize }),
            bytes@.len() >= MIN_ROM_SIZE ==> r is Ok && ({
                let c = r->Ok_0;
                &&& c.bytes@ == bytes@
                &&& c.header.matches_bytes(bytes@)
                &&& c.ext_ram@.len() == ext_ram_size(bytes@[0x0147], bytes@[0x0149])
                &&& forall|i: int| 0 <= i < c.ext_ram@.len() ==> c.ext_ram@[i] == 0
                &&& !c.ram_dirty
                &&& c.ram_dirty_generation == 0
            }),
    {
        let header = match RomHeader::parse(bytes.as_slice()) {
            Ok(h) => h,
            Err(e) => return Err(e),
        };
        let t = CartridgeType::from_code(header.cartridge_type);
        let size: usize = match t {
            CartridgeType::Mbc2 | CartridgeType::Mbc2Battery => MBC2_RAM_SIZE,
            _ => match header.ram_size_code {
                0x01 => 0x800,
                0x02 => 0x2000,
                0x03 => 0x8000,
                0x04 => 0x20000,
                0x05 => 0x10000,
                _ => 0,
            },
        };
        let ext_ram = zeroed(size);
        Ok(Cartridge { bytes, header, ext_ram, ram_dirty: false, ram_dirty_generation: 0 })
    }

    /// The ROM image split into 16 KiB banks.
    pub fn banked_rom(&self) -> (v: RomBankView<'_>)
        ensures v.bytes@ == self.bytes@,
    {
        RomBankView::new(self.bytes.as_slice())
    }

    /// Bank count declared by the header's ROM size code, if the code is known.
    pub fn declared_bank_count(&self) -> (r: Option<usize>)
        ensures r == declared_banks(self.header.rom_size_code),
    {
        let code = self.header.rom_size_code;
        if code <= 0x08 {
            proof {
                vstd::arithmetic::power2::lemma2_to64();
                vstd::bits::lemma_u64_shl_is_mul(2, code as u64);
                vstd::arithmetic::power2::lemma_pow2_strictly_increases(code as nat, 9);
            }
            Some((2u64 << (code as u64)) as usize)
        } else if code == 0x52 {
            Some(72)
        } else if code == 0x53 {
            Some(80)
        } else if code == 0x54 {
            Some(96)
        } else {
            None
        }
    }

    /// Whether the header asks for CGB features.
    pub fn is_cgb(&self) -> (r: bool)
        ensures
            r == (self.header.cgb_flag == super::rom::CgbFlag::CgbSupported
                || self.header.cgb_flag == super::rom::CgbFlag::CgbOnly),
    {
        match self.header.cgb_flag {
            super::rom::CgbFlag::CgbSupported | super::rom::CgbFlag::CgbOnly => true,
            super::rom::CgbFlag::DmgOnly => false,
        }
    }

    pub fn has_battery(&self) -> (r: bool)
        ensures r == has_battery_type(cartridge_type_of(self.header.cartridge_type)),
    {
        match CartridgeType::from_code(self.header.cartridge_type) {
            CartridgeType::Mbc1RamBattery | CartridgeType::Mbc2Battery | CartridgeType::RomRamBattery
            | CartridgeType::Mmm01RamBattery | CartridgeType::Mbc3TimerBattery
            | CartridgeType::Mbc3TimerRamBattery | CartridgeType::Mbc3RamBattery
            | CartridgeType::Mbc5RamBattery | CartridgeType::Mbc5RumbleRamBattery
            | CartridgeType::Mbc7SensorRumbleRamBattery | CartridgeType::HuC1RamBattery => true,
            _ => false,
        }
    }

    pub fn has_ram(&self) -> (r: bool)
        ensures r == (self.ext_ram@.len() > 0),
    {
        self.ext_ram.len() > 0
    }

    pub fn ram(&self) -> (r: &[u8])
        ensures r@ == self.ext_ram@,
    {
        self.ext_ram.as_slice()
    }

    /// Copies a save image into external RAM (as much as fits); leaves the dirty state alone.
    pub fn load_ram(&mut self, data: &[u8])
        ensures
            final(self).ext_ram@.len() == old(self).ext_ram@.len(),
            forall|i: int| 0 <= i < old(self).ext_ram@.len() ==> final(self).ext_ram@[i]
                == if i < data@.len() { data@[i] } else { old(self).ext_ram@[i] },
            final(self).bytes == old(self).bytes,
            final(self).header == old(self).header,
            final(self).ram_dirty == old(self).ram_dirty,
            final(self).ram_dirty_generation == old(self).ram_dirty_generation,
    {
        let n = if data.len() < self.ext_ram.len() { data.len() } else { self.ext_ram.len() };
        let mut i: usize = 0;
        while i < n
            invariant
                n <= data@.len(),
                n <= self.ext_ram@.len(),
                i <= n,
                self.ext_ram@.len() == old(self).ext_ram@.len(),
                forall|j: int| 0 <= j < old(self).ext_ram@.len() ==> self.ext_ram@[j]
                    == if j < i { data@[j] } else { old(self).ext_ram@[j] },
                self.bytes == old(self).bytes,
                self.header == old(self).header,
                self.ram_dirty == old(self).ram_dirty,
                self.ram_dirty_generation == old(self).ram_dirty_generation,
            decreases n - i,
        {
            self.ext_ram.set(i, data[i]);
            i = i + 1;
        }
    }

    /// Records that external RAM changed since the last save.
    pub fn mark_ram_dirty(&mut self)
        ensures
            final(self)@ == old(self)@.marked_dirty(),
            final(self).bytes == old(self).bytes,
            final(self).header == old(self).header,
            final(self).ext_ram == old(self).ext_ram,
    {
        self.ram_dirty = true;
        self.ram_dirty_generation = self.ram_dirty_generation.wrapping_add(1);
    }

    pub fn is_ram_dirty(&self) -> (r: bool)
        ensures r == self.ram_dirty,
    {
        self.ram_dirty
    }

    pub fn clear_ram_dirty(&mut self)
        ensures
            !final(self).ram_dirty,
            final(self).ram_dirty_generation == old(self).ram_dirty_generation,
            final(self).bytes == old(self).bytes,
            final(self).header == old(self).header,
            final(self).ext_ram == old(self).ext_ram,
    {
        self.ram_dirty = false;
    }

    /// Counter bumped by every change to external RAM.
    pub fn ram_dirty_generation(&self) -> (r: u64)
        ensures r == self.ram_dirty_generation,
    {
        self.ram_dirty_generation
    }
}

/// A read-only view of a ROM image as 16 KiB banks.
#[derive(Debug, Clone, Copy)]
pub struct RomBankView<'a> {
    pub bytes: &'a [u8],
}

impl<'a> RomBankView<'a> {
    pub fn new(bytes: &'a [u8]) -> (v: Self)
        ensures v.bytes@ == bytes@,
    {
        RomBankView { bytes }
    }

    pub fn bank_size(&self) -> (r: usize)
        ensures r == ROM_BANK_SIZE,
    {
        ROM_BANK_SIZE
    }

    /// Banks needed for the image; a partial last bank counts as a bank.
    pub fn bank_count(&self) -> (r: usize)
        ensures r as int == banks_for_len(self.bytes@.len() as int),
    {
        if self.bytes.len() == 0 {
            0
        } else {
            (self.bytes.len() - 1) / ROM_BANK_SIZE + 1
        }
    }

    /// Bank `index`, shortened if it is the partial last bank; `None` past the end.
    pub fn bank(&self, index: usize) -> (r: Option<&'a [u8]>)
        ensures
            index as int * ROM_BANK_SIZE >= self.bytes@.len() ==> r is None,
            index as int * ROM_BANK_SIZE < self.bytes@.len() ==> r is Some && r->Some_0@
                == self.bytes@.subrange(index as int * ROM_BANK_SIZE,
                    if index as int * ROM_BANK_SIZE + ROM_BANK_SIZE < self.bytes@.len() {
                        index as int * ROM_BANK_SIZE + ROM_BANK_SIZE
                    } else {
                        self.bytes@.len() as int
                    }),
    {
        let len = self.bytes.len();
        let start = match index.checked_mul(ROM_BANK_SIZE) {
            Some(s) => s,
            None => return None,
        };
        if start >= self.bytes.len() {
            return None;
        }
        let end = if self.bytes.len() - start > ROM_BANK_SIZE { start + ROM_BANK_SIZE } else { self.bytes.len() };
        Some(slice_range(self.bytes, start, end))
    }
}

fn slice_range<'a>(bytes: &'a [u8], start: usize, end: usize) -> (r: &'a [u8])
    requires
        start <= end <= bytes@.len(),
    ensures
        r@ == bytes@.subrange(start as int, end as int),
{
    &bytes[start..end]
}

/// ROM address space with a fixed bank at 0x0000-0x3FFF and a switchable one at 0x4000.
#[derive(Debug, Clone, Copy)]
pub struct RomBankMapping<'a> {
    pub bytes: &'a [u8],
    pub fixed_bank: usize,
    pub switchable_bank: usize,
}

/// Byte `offset` of `bytes`, or open bus past the end.
pub open spec fn byte_or_open_bus(bytes: Seq<u8>, offset: int) -> u8 {
    if 0 <= offset < bytes.len() { bytes[offset] } else { OPEN_BUS }
}

/// Offset into the ROM image that a mapping with banks `fixed`/`switchable` reads for `addr`.
pub open spec fn mapped_offset(fixed: usize, switchable: usize, addr: u16) -> int {
    if addr < 0x4000 {
        fixed as int * ROM_BANK_SIZE + addr as int
    } else {
        switchable as int * ROM_BANK_SIZE + (addr as int - 0x4000)
    }
}

pub open spec fn rom_read(bytes: Seq<u8>, fixed: usize, switchable: usize, addr: u16) -> u8 {
    byte_or_open_bus(bytes, mapped_offset(fixed, switchable, addr))
}

impl<'a> RomBankMapping<'a> {
    pub fn with_banks(bytes: &'a [u8], fixed_bank: usize, switchable_bank: usize) -> (m: Self)
        ensures
            m.bytes@ == bytes@,
            m.fixed_bank == fixed_bank,
            m.switchable_bank == switchable_bank,
    {
        RomBankMapping { bytes, fixed_bank, switchable_bank }
    }

    /// Reads `addr` through the mapping; reads past the image return 0xFF.
    pub fn read(&self, addr: u16) -> (r: u8)
        ensures r == rom_read(self.bytes@, self.fixed_bank, self.switchable_bank, addr),
    {
        let (bank, off) = if addr < 0x4000 {
            (self.fixed_bank, addr as usize)
        } else {
            (self.switchable_bank, (addr - 0x4000) as usize)
        };
        let len = self.bytes.len();
        let base = match bank.checked_mul(ROM_BANK_SIZE) {
            Some(b) => b,
            None => return OPEN_BUS,
        };
        let offset = match base.checked_add(off) {
            Some(o) => o,
            None => return OPEN_BUS,
        };
        if offset < self.bytes.len() { self.bytes[offset] } else { OPEN_BUS }
    }
}

} // verus!

verus! {

/// Bank `i` of an image as `RomBankView::bank` hands it out: 16 KiB from `i * 0x4000`,
/// cut short at the end of the image.
pub open spec fn bank_slice(bytes: Seq<u8>, i: int) -> Seq<u8> {
    let start = i * ROM_BANK_SIZE;
    bytes.subrange(start, if start + ROM_BANK_SIZE < bytes.len() { start + ROM_BANK_SIZE } else { bytes.len() as int })
}

/// The banks of an image partition it: bank `i` exists exactly for `i` below the bank count,
/// every bank but the last is a full 16 KiB, the last holds between 1 byte and 16 KiB, and
/// byte `k` of the image is byte `k % 0x4000` of bank `k / 0x4000`.
pub proof fn lemma_rom_banks_partition(bytes: Seq<u8>, i: int, k: int)
    ensures
        0 <= i ==> (i * ROM_BANK_SIZE < bytes.len() <==> i < banks_for_len(bytes.len() as int)),
        0 <= i < banks_for_len(bytes.len() as int) - 1 ==> bank_slice(bytes, i).len() == ROM_BANK_SIZE,
        bytes.len() > 0 ==> 0 < bank_slice(bytes, banks_for_len(bytes.len() as int) - 1).len() <= ROM_BANK_SIZE,
        0 <= k < bytes.len() ==> (k / (ROM_BANK_SIZE as int)) < banks_for_len(bytes.len() as int)
            && bank_slice(bytes, k / ROM_BANK_SIZE as int)[k % ROM_BANK_SIZE as int] == bytes[k],
{
    let n = bytes.len() as int;
    let c = banks_for_len(n);
    if n > 0 {
        assert((c - 1) * 0x4000 < n <= c * 0x4000) by (nonlinear_arith)
            requires c == (n + 0x3FFF) / 0x4000, n > 0;
    }
    if 0 <= i {
        assert(i * 0x4000 < n <==> i < c);
    }
    if 0 <= k < n {
        let q = k / 0x4000;
        assert(q * 0x4000 <= k < q * 0x4000 + 0x4000 && k % 0x4000 == k - q * 0x4000) by (nonlinear_arith)
            requires q == k / 0x4000, 0 <= k;
        assert(q < c);
    }
}

} // verus!
