//! Integrity checks of a ROM image against its header: the boot logo, both checksums, the
//! declared ROM size, and header codes this emulator does not know.
use vstd::prelude::*;
use crate::domain::cartridge::{Cartridge, CartridgeType, cartridge_type_of};

verus! {

pub const LOGO_START: usize = 0x0104;
pub const LOGO_LEN: usize = 48;
pub const HEADER_SUM_START: usize = 0x0134;
pub const HEADER_SUM_END: usize = 0x014C;
pub const GLOBAL_SUM_HIGH: usize = 0x014E;
pub const GLOBAL_SUM_LOW: usize = 0x014F;
pub const FNV_OFFSET_BASIS: u64 = 0xcbf2_9ce4_8422_2325;
pub const FNV_PRIME: u64 = 0x0000_0100_0000_01B3;

/// The logo every licensed cartridge carries at 0x0104-0x0133.
pub open spec fn nintendo_logo() -> Seq<u8> {
    seq![
        0xCEu8, 0xED, 0x66, 0x66, 0xCC, 0x0D, 0x00, 0x0B, 0x03, 0x73, 0x00, 0x83,
        0x00, 0x0C, 0x00, 0x0D, 0x00, 0x08, 0x11, 0x1F, 0x88, 0x89, 0x00, 0x0E,
        0xDC, 0xCC, 0x6E, 0xE6, 0xDD, 0xDD, 0xD9, 0x99, 0xBB, 0xBB, 0x67, 0x63,
        0x6E, 0x0E, 0xEC, 0xCC, 0xDD, 0xDC, 0x99, 0x9F, 0xBB, 0xB9, 0x33, 0x3E
    ]
}

fn logo_bytes() -> (v: Vec<u8>)
    ensures v@ == nintendo_logo(),
{
    let v: Vec<u8> = vec![
        0xCE, 0xED, 0x66, 0x66, 0xCC, 0x0D, 0x00, 0x0B, 0x03, 0x73, 0x00, 0x83,
        0x00, 0x0C, 0x00, 0x0D, 0x00, 0x08, 0x11, 0x1F, 0x88, 0x89, 0x00, 0x0E,
        0xDC, 0xCC, 0x6E, 0xE6, 0xDD, 0xDD, 0xD9, 0x99, 0xBB, 0xBB, 0x67, 0x63,
        0x6E, 0x0E, 0xEC, 0xCC, 0xDD, 0xDC, 0x99, 0x9F, 0xBB, 0xB9, 0x33, 0x3E,
    ];
    assert(v@ =~= nintendo_logo());
    v
}

/// Whether the logo area matches, or `None` for an image too short to hold it.
pub open spec fn logo_spec(bytes: Seq<u8>) -> Option<bool> {
    if bytes.len() < LOGO_START + LOGO_LEN {
        None
    } else {
        Some(bytes.subrange(LOGO_START as int, (LOGO_START + LOGO_LEN) as int) == nintendo_logo())
    }
}

pub fn nintendo_logo_matches(bytes: &[u8]) -> (r: Option<bool>)
    ensures r == logo_spec(bytes@),
{
    if bytes.len() < LOGO_START + LOGO_LEN {
        return None;
    }
    let logo = logo_bytes();
    let mut i: usize = 0;
    while i < LOGO_LEN
        invariant
            bytes@.len() >= LOGO_START + LOGO_LEN,
            logo@ == nintendo_logo(),
            i <= LOGO_LEN,
            forall|j: int| 0 <= j < i ==> bytes@[LOGO_START + j] == logo@[j],
        decreases LOGO_LEN - i,
    {
        if bytes[LOGO_START + i] != logo[i] {
            assert(bytes@.subrange(LOGO_START as int, (LOGO_START + LOGO_LEN) as int)[i as int] != nintendo_logo()[i as int]);
            return Some(false);
        }
        i = i + 1;
    }
    assert(bytes@.subrange(LOGO_START as int, (LOGO_START + LOGO_LEN) as int) =~= nintendo_logo());
    Some(true)
}

/// The header checksum over the first `n` bytes from 0x0134: `x = x - byte - 1` each, mod 256.
pub open spec fn header_sum(bytes: Seq<u8>, n: nat) -> u8
    decreases n,
{
    if n == 0 {
        0
    } else {
        let x = header_sum(bytes, (n - 1) as nat);
        ((x as int - bytes[HEADER_SUM_START + n - 1] as int - 1 + 512) % 256) as u8
    }
}

/// The checksum of 0x0134-0x014C, or `None` for an image too short to hold them.
pub open spec fn header_checksum_spec(bytes: Seq<u8>) -> Option<u8> {
    if bytes.len() <= HEADER_SUM_END {
        None
    } else {
        Some(header_sum(bytes, (HEADER_SUM_END - HEADER_SUM_START + 1) as nat))
    }
}

pub fn compute_header_checksum(bytes: &[u8]) -> (r: Option<u8>)
    ensures r == header_checksum_spec(bytes@),
{
    if bytes.len() <= HEADER_SUM_END {
        return None;
    }
    let mut x: u8 = 0;
    let mut i: usize = HEADER_SUM_START;
    while i <= HEADER_SUM_END
        invariant
            bytes@.len() > HEADER_SUM_END,
            HEADER_SUM_START <= i <= HEADER_SUM_END + 1,
            x == header_sum(bytes@, (i - HEADER_SUM_START) as nat),
        decreases HEADER_SUM_END + 1 - i,
    {
        x = x.wrapping_sub(bytes[i]).wrapping_sub(1);
        i = i + 1;
    }
    Some(x)
}

/// The sum, mod 65536, of the first `n` bytes, leaving out the checksum bytes 0x014E-0x014F.
pub open spec fn global_sum(bytes: Seq<u8>, n: nat) -> u16
    decreases n,
{
    if n == 0 {
        0
    } else {
        let k = n - 1;
        let b: int = if k == GLOBAL_SUM_HIGH || k == GLOBAL_SUM_LOW { 0 } else { bytes[k] as int };
        ((global_sum(bytes, (n - 1) as nat) as int + b) % 65536) as u16
    }
}

/// The global checksum of the whole image, or `None` for an image without a full header.
pub open spec fn global_checksum_spec(bytes: Seq<u8>) -> Option<u16> {
    if bytes.len() <= GLOBAL_SUM_LOW {
        None
    } else {
        Some(global_sum(bytes, bytes.len()))
    }
}

pub fn compute_global_checksum(bytes: &[u8]) -> (r: Option<u16>)
    ensures r == global_checksum_spec(bytes@),
{
    if bytes.len() <= GLOBAL_SUM_LOW {
        return None;
    }
    let mut sum: u16 = 0;
    let mut i: usize = 0;
    while i < bytes.len()
        invariant
            i <= bytes@.len(),
            sum == global_sum(bytes@, i as nat),
        decreases bytes@.len() - i,
    {
        if i != GLOBAL_SUM_HIGH && i != GLOBAL_SUM_LOW {
            sum = sum.wrapping_add(bytes[i] as u16);
        }
        i = i + 1;
    }
    Some(sum)
}

/// The FNV-1a hash of the first `n` bytes.
pub open spec fn fnv_spec(bytes: Seq<u8>, n: nat) -> u64
    decreases n,
{
    if n == 0 {
        FNV_OFFSET_BASIS
    } else {
        let h = fnv_spec(bytes, (n - 1) as nat) ^ (bytes[n - 1] as u64);
        ((h as nat * FNV_PRIME as nat) % 0x1_0000_0000_0000_0000nat) as u64
    }
}

/// The 64-bit FNV-1a hash of `bytes`, used as a ROM identifier.
pub fn fnv1a64(bytes: &[u8]) -> (r: u64)
    ensures r == fnv_spec(bytes@, bytes@.len()),
{
    let mut hash: u64 = FNV_OFFSET_BASIS;
    let mut i: usize = 0;
    while i < bytes.len()
        invariant
            i <= bytes@.len(),
            hash == fnv_spec(bytes@, i as nat),
        decreases bytes@.len() - i,
    {
        hash = hash ^ (bytes[i] as u64);
        hash = hash.wrapping_mul(FNV_PRIME);
        i = i + 1;
    }
    hash
}

/// ROM size in bytes for header code `code`: 32 KiB doubled `code` times, for codes 0-8.
pub open spec fn rom_size_spec(code: u8) -> Option<usize> {
    if code <= 8 { Some((0x8000 * pow2(code as nat)) as usize) } else { None }
}

pub open spec fn pow2(n: nat) -> nat
    decreases n,
{
    if n == 0 { 1 } else { 2 * pow2((n - 1) as nat) }
}

pub fn rom_size_bytes(code: u8) -> (r: Option<usize>)
    ensures r == rom_size_spec(code),
{
    proof { reveal_with_fuel(pow2, 9); }
    match code {
        0 => Some(0x8000),
        1 => Some(0x10000),
        2 => Some(0x20000),
        3 => Some(0x40000),
        4 => Some(0x80000),
        5 => Some(0x100000),
        6 => Some(0x200000),
        7 => Some(0x400000),
        8 => Some(0x800000),
        _ => None,
    }
}

/// A header problem worth reporting.
#[derive(Debug, Clone, Copy, PartialEq, Eq, Structural)]
pub enum RomWarning {
    LogoMismatch,
    HeaderChecksumMismatch,
    GlobalChecksumMismatch,
    RomSizeMismatch { expected: usize, actual: usize },
    UnknownRomSize,
    UnknownRamSize,
    UnknownDestination,
    UnknownCartridgeType,
}

/// What the checks found: the computed values (`None` where the image is too short or the code
/// unknown) and the warnings, in the order they are reported.
pub struct RomCheckReport {
    pub logo: Option<bool>,
    pub header_checksum: Option<u8>,
    pub global_checksum: Option<u16>,
    pub expected_size: Option<usize>,
    pub warnings: Vec<RomWarning>,
}

/// The warnings for image `bytes` whose header declares `header_sum`, `global`, the ROM size
/// code `rom_code`, RAM size code `ram_code`, destination `dest` and cartridge type `cart`.
pub open spec fn warnings_spec(bytes: Seq<u8>, header_sum: u8, global: u16, rom_code: u8, ram_code: u8,
    dest: u8, cart: u8) -> Seq<RomWarning>
{
    let w0: Seq<RomWarning> = if logo_spec(bytes) == Some(false) { seq![RomWarning::LogoMismatch] } else { seq![] };
    let w1 = match header_checksum_spec(bytes) {
        Some(c) => if c != header_sum { w0.push(RomWarning::HeaderChecksumMismatch) } else { w0 },
        None => w0,
    };
    let w2 = match global_checksum_spec(bytes) {
        Some(c) => if c != global { w1.push(RomWarning::GlobalChecksumMismatch) } else { w1 },
        None => w1,
    };
    let w3 = match rom_size_spec(rom_code) {
        Some(e) => if e != bytes.len() {
            w2.push(RomWarning::RomSizeMismatch { expected: e, actual: bytes.len() as usize })
        } else { w2 },
        None => w2.push(RomWarning::UnknownRomSize),
    };
    let w4 = if ram_code > 5 { w3.push(RomWarning::UnknownRamSize) } else { w3 };
    let w5 = if dest > 1 { w4.push(RomWarning::UnknownDestination) } else { w4 };
    if cartridge_type_of(cart) is Unknown { w5.push(RomWarning::UnknownCartridgeType) } else { w5 }
}

/// Runs every check on a loaded cartridge.
pub fn check_rom(cartridge: &Cartridge) -> (r: RomCheckReport)
    ensures
        r.logo == logo_spec(cartridge.bytes@),
        r.header_checksum == header_checksum_spec(cartridge.bytes@),
        r.global_checksum == global_checksum_spec(cartridge.bytes@),
        r.expected_size == rom_size_spec(cartridge.header.rom_size_code),
        r.warnings@ == warnings_spec(cartridge.bytes@, cartridge.header.header_checksum,
            cartridge.header.global_checksum, cartridge.header.rom_size_code,
            cartridge.header.ram_size_code, cartridge.header.destination_code,
            cartridge.header.cartridge_type),
{
    let bytes = cartridge.bytes.as_slice();
    let mut warnings: Vec<RomWarning> = Vec::new();
    let logo = nintendo_logo_matches(bytes);
    if logo == Some(false) {
        warnings.push(RomWarning::LogoMismatch);
    }
    let header_checksum = compute_header_checksum(bytes);
    if let Some(c) = header_checksum {
        if c != cartridge.header.header_checksum {
            warnings.push(RomWarning::HeaderChecksumMismatch);
        }
    }
    let global_checksum = compute_global_checksum(bytes);
    if let Some(c) = global_checksum {
        if c != cartridge.header.global_checksum {
            warnings.push(RomWarning::GlobalChecksumMismatch);
        }
    }
    let expected_size = rom_size_bytes(cartridge.header.rom_size_code);
    match expected_size {
        Some(e) => {
            if e != bytes.len() {
                warnings.push(RomWarning::RomSizeMismatch { expected: e, actual: bytes.len() });
            }
        },
        None => warnings.push(RomWarning::UnknownRomSize),
    }
    if cartridge.header.ram_size_code > 5 {
        warnings.push(RomWarning::UnknownRamSize);
    }
    if cartridge.header.destination_code > 1 {
        warnings.push(RomWarning::UnknownDestination);
    }
    if let CartridgeType::Unknown(_) = CartridgeType::from_code(cartridge.header.cartridge_type) {
        warnings.push(RomWarning::UnknownCartridgeType);
    }
    RomCheckReport { logo, header_checksum, global_checksum, expected_size, warnings }
}

} // verus!
