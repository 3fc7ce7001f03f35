//! Cartridge header parsing (0x0100-0x014F).
use vstd::prelude::*;

verus! {

pub const MIN_ROM_SIZE: usize = 0x0150;
pub const TITLE_START: usize = 0x0134;
pub const TITLE_END_DMG: usize = 0x0143;
pub const TITLE_END_CGB: usize = 0x0142;
pub const CGB_FLAG_ADDR: usize = 0x0143;
pub const NEW_LICENSEE_START: usize = 0x0144;
pub const SGB_FLAG_ADDR: usize = 0x0146;
pub const CARTRIDGE_TYPE_ADDR: usize = 0x0147;
pub const ROM_SIZE_ADDR: usize = 0x0148;
pub const RAM_SIZE_ADDR: usize = 0x0149;
pub const DESTINATION_CODE_ADDR: usize = 0x014A;
pub const OLD_LICENSEE_ADDR: usize = 0x014B;
pub const MASK_ROM_VERSION_ADDR: usize = 0x014C;
pub const HEADER_CHECKSUM_ADDR: usize = 0x014D;
pub const GLOBAL_CHECKSUM_ADDR: usize = 0x014E;

#[derive(Debug, Clone, Copy, PartialEq, Eq, Structural)]
pub enum CgbFlag {
    DmgOnly,
    CgbSupported,
    CgbOnly,
}

pub open spec fn cgb_flag_of(value: u8) -> CgbFlag {
    if value == 0x80 {
        CgbFlag::CgbSupported
    } else if value == 0xC0 {
        CgbFlag::CgbOnly
    } else {
        CgbFlag::DmgOnly
    }
}

impl CgbFlag {
    fn from_byte(value: u8) -> (r: Self)
        ensures r == cgb_flag_of(value),
    {
        match value {
            0x80 => CgbFlag::CgbSupported,
            0xC0 => CgbFlag::CgbOnly,
            _ => CgbFlag::DmgOnly,
        }
    }
}

#[derive(Debug, Clone, Copy, PartialEq, Eq, Structural)]
pub enum SgbFlag {
    /// No SGB support (header byte 0x00).
    Absent,
    Supported,
    Unknown(u8),
}

pub open spec fn sgb_flag_of(value: u8) -> SgbFlag {
    if value == 0x00 {
        SgbFlag::Absent
    } else if value == 0x03 {
        SgbFlag::Supported
    } else {
        SgbFlag::Unknown(value)
    }
}

impl SgbFlag {
    fn from_byte(value: u8) -> (r: Self)
        ensures r == sgb_flag_of(value),
    {
        match value {
            0x00 => SgbFlag::Absent,
            0x03 => SgbFlag::Supported,
            other => SgbFlag::Unknown(other),
        }
    }
}

#[derive(Debug, Clone)]
pub struct RomHeader {
    pub title: String,
    pub cgb_flag: CgbFlag,
    pub sgb_flag: SgbFlag,
    pub cartridge_type: u8,
    pub rom_size_code: u8,
    pub ram_size_code: u8,
    pub destination_code: u8,
    pub new_licensee_code: [u8; 2],
    pub old_licensee_code: u8,
    pub mask_rom_version: u8,
    pub header_checksum: u8,
    pub global_checksum: u16,
}

#[derive(Debug, Clone, Copy, PartialEq, Eq, Structural)]
pub enum RomHeaderError {
    TooSmall { actual: usize },
}

/// What `String::from_utf8_lossy` decodes `bytes` to.
pub uninterp spec fn utf8_lossy(bytes: Seq<u8>) -> Seq<char>;

/// Whether `c` has Unicode's `White_Space` property, the whitespace that `str::trim` removes.
pub open spec fn is_unicode_whitespace(c: char) -> bool {
    let u = c as u32;
    ||| 0x09 <= u <= 0x0D
    ||| u == 0x20 || u == 0x85 || u == 0xA0 || u == 0x1680
    ||| 0x2000 <= u <= 0x200A
    ||| u == 0x2028 || u == 0x2029 || u == 0x202F || u == 0x205F || u == 0x3000
}

/// `chars` without its leading whitespace.
pub open spec fn trim_start_whitespace(chars: Seq<char>) -> Seq<char>
    decreases chars.len(),
{
    if chars.len() > 0 && is_unicode_whitespace(chars[0]) {
        trim_start_whitespace(chars.drop_first())
    } else {
        chars
    }
}

/// `chars` without its trailing whitespace.
pub open spec fn trim_end_whitespace(chars: Seq<char>) -> Seq<char>
    decreases chars.len(),
{
    if chars.len() > 0 && is_unicode_whitespace(chars.last()) {
        trim_end_whitespace(chars.drop_last())
    } else {
        chars
    }
}

/// `chars` without its leading and trailing whitespace.
pub open spec fn trim_whitespace(chars: Seq<char>) -> Seq<char> {
    trim_end_whitespace(trim_start_whitespace(chars))
}

/// Calls `String::from_utf8_lossy`; bytes that are all ASCII decode one char per byte, as its
/// documentation says for valid UTF-8 input.
#[verifier::external_body]
fn decode_utf8_lossy(bytes: &[u8]) -> (s: String)
    ensures
        s@ == utf8_lossy(bytes@),
        (forall|i: int| 0 <= i < bytes@.len() ==> bytes@[i] < 0x80) ==> s@ == bytes@.map_values(|b: u8| b as char),
{
    String::from_utf8_lossy(bytes).into_owned()
}

/// Calls `str::trim`, which, as its documentation says, removes the leading and trailing
/// characters that have Unicode's `White_Space` property.
#[verifier::external_body]
fn trim_str(s: &str) -> (r: &str)
    ensures
        r@ == trim_whitespace(s@),
{
    s.trim()
}

/// The title: bytes up to the first NUL, decoded lossily as UTF-8, then trimmed.
pub open spec fn title_of(bytes: Seq<u8>) -> Seq<char> {
    trim_whitespace(utf8_lossy(bytes.take(first_zero(bytes))))
}

/// Whether the bytes before the first NUL are all ASCII.
pub open spec fn ascii_before_nul(bytes: Seq<u8>) -> bool {
    forall|i: int| 0 <= i < first_zero(bytes) ==> #[trigger] bytes[i] < 0x80
}

/// The title of ASCII bytes: the bytes up to the first NUL as characters, trimmed.
pub open spec fn ascii_title_of(bytes: Seq<u8>) -> Seq<char> {
    trim_whitespace(bytes.take(first_zero(bytes)).map_values(|b: u8| b as char))
}

/// The bytes of the header's title field, 15 of them on a CGB cartridge and 16 otherwise.
pub open spec fn title_region(bytes: Seq<u8>) -> Seq<u8> {
    bytes.subrange(TITLE_START as int, header_title_end(bytes) + 1)
}

/// Index of the first zero byte, or the length when there is none.
pub open spec fn first_zero(bytes: Seq<u8>) -> int {
    if exists|i: int| 0 <= i < bytes.len() && bytes[i] == 0 {
        choose|i: int| 0 <= i < bytes.len() && bytes[i] == 0 && forall|j: int| 0 <= j < i ==> bytes[j] != 0
    } else {
        bytes.len() as int
    }
}

fn parse_title(bytes: &[u8]) -> (title: String)
    ensures
        title@ == title_of(bytes@),
        ascii_before_nul(bytes@) ==> title@ == ascii_title_of(bytes@),
{
    let mut end: usize = 0;
    while end < bytes.len() && bytes[end] != 0
        invariant
            end <= bytes@.len(),
            forall|j: int| 0 <= j < end ==> bytes@[j] != 0,
        decreases bytes@.len() - end,
    {
        end = end + 1;
    }
    proof {
        if end < bytes@.len() {
            assert(bytes@[end as int] == 0);
            let k = choose|i: int| 0 <= i < bytes@.len() && bytes@[i] == 0 && forall|j: int| 0 <= j < i ==> bytes@[j] != 0;
            assert(k == end as int) by {
                if k < end { assert(bytes@[k] != 0); }
                if k > end { assert(bytes@[end as int] != 0); }
            }
        }
    }
    let mut prefix: Vec<u8> = Vec::new();
    let mut i: usize = 0;
    while i < end
        invariant
            end <= bytes@.len(),
            i <= end,
            prefix@ == bytes@.take(i as int),
        decreases end - i,
    {
        prefix.push(bytes[i]);
        i = i + 1;
        assert(prefix@ =~= bytes@.take(i as int));
    }
    let decoded = decode_utf8_lossy(prefix.as_slice());
    let trimmed = trim_str(decoded.as_str());
    trimmed.to_owned()
}

pub open spec fn header_title_end(bytes: Seq<u8>) -> int {
    let flag = cgb_flag_of(bytes[CGB_FLAG_ADDR as int]);
    if flag == CgbFlag::CgbSupported || flag == CgbFlag::CgbOnly { TITLE_END_CGB as int } else { TITLE_END_DMG as int }
}

impl RomHeader {
    /// The fields of the header that `parse` reads from `bytes`.
    pub open spec fn matches_bytes(&self, bytes: Seq<u8>) -> bool {
        &&& self.title@ == title_of(bytes.subrange(TITLE_START as int, header_title_end(bytes) + 1))
        &&& self.cgb_flag == cgb_flag_of(bytes[CGB_FLAG_ADDR as int])
        &&& self.sgb_flag == sgb_flag_of(bytes[SGB_FLAG_ADDR as int])
        &&& self.cartridge_type == bytes[CARTRIDGE_TYPE_ADDR as int]
        &&& self.rom_size_code == bytes[ROM_SIZE_ADDR as int]
        &&& self.ram_size_code == bytes[RAM_SIZE_ADDR as int]
        &&& self.destination_code == bytes[DESTINATION_CODE_ADDR as int]
        &&& self.new_licensee_code@ == seq![bytes[NEW_LICENSEE_START as int], bytes[NEW_LICENSEE_START + 1]]
        &&& self.old_licensee_code == bytes[OLD_LICENSEE_ADDR as int]
        &&& self.mask_rom_version == bytes[MASK_ROM_VERSION_ADDR as int]
        &&& self.header_checksum == bytes[HEADER_CHECKSUM_ADDR as int]
        &&& self.global_checksum == bytes[GLOBAL_CHECKSUM_ADDR as int] as u16 * 256
            + bytes[GLOBAL_CHECKSUM_ADDR + 1] as u16
    }

    /// Parses the header; fails exactly when the image is shorter than 0x150 bytes.
    pub fn parse(bytes: &[u8]) -> (r: Result<Self, RomHeaderError>)
        ensures
            bytes@.len() < MIN_ROM_SIZE ==> r == Err::<Self, RomHeaderError>(
                RomHeaderError::TooSmall { actual: bytes@.len() as usize }),
            bytes@.len() >= MIN_ROM_SIZE ==> r is Ok && r->Ok_0.matches_bytes(bytes@),
            bytes@.len() >= MIN_ROM_SIZE && ascii_before_nul(title_region(bytes@)) ==>
                r->Ok_0.title@ == ascii_title_of(title_region(bytes@)),
    {
        if bytes.len() < MIN_ROM_SIZE {
            return Err(RomHeaderError::TooSmall { actual: bytes.len() });
        }
        let cgb_flag_value = bytes[CGB_FLAG_ADDR];
        let cgb_flag = CgbFlag::from_byte(cgb_flag_value);
        let title_end = match cgb_flag {
            CgbFlag::CgbSupported | CgbFlag::CgbOnly => TITLE_END_CGB,
            CgbFlag::DmgOnly => TITLE_END_DMG,
        };
        let mut title_bytes: Vec<u8> = Vec::new();
        let mut i = TITLE_START;
        while i <= title_end
            invariant
                TITLE_START <= i <= title_end + 1,
                title_end < bytes@.len(),
                title_bytes@ == bytes@.subrange(TITLE_START as int, i as int),
            decreases title_end + 1 - i,
        {
            title_bytes.push(bytes[i]);
            i = i + 1;
            assert(title_bytes@ =~= bytes@.subrange(TITLE_START as int, i as int));
        }
        let title = parse_title(title_bytes.as_slice());
        let new_licensee_code = [bytes[NEW_LICENSEE_START], bytes[NEW_LICENSEE_START + 1]];
        let header_checksum = bytes[HEADER_CHECKSUM_ADDR];
        let hi = bytes[GLOBAL_CHECKSUM_ADDR];
        let lo = bytes[GLOBAL_CHECKSUM_ADDR + 1];
        let global_checksum = (hi as u16) * 256 + (lo as u16);
        let header = RomHeader {
            title,
            cgb_flag,
            sgb_flag: SgbFlag::from_byte(bytes[SGB_FLAG_ADDR]),
            cartridge_type: bytes[CARTRIDGE_TYPE_ADDR],
            rom_size_code: bytes[ROM_SIZE_ADDR],
            ram_size_code: bytes[RAM_SIZE_ADDR],
            destination_code: bytes[DESTINATION_CODE_ADDR],
            new_licensee_code,
            old_licensee_code: bytes[OLD_LICENSEE_ADDR],
            mask_rom_version: bytes[MASK_ROM_VERSION_ADDR],
            header_checksum,
            global_checksum,
        };
        assert(header.new_licensee_code@ =~= seq![bytes@[NEW_LICENSEE_START as int], bytes@[NEW_LICENSEE_START + 1]]);
        Ok(header)
    }
}

#[derive(Debug, Clone)]
pub struct Rom {
    pub bytes: Vec<u8>,
    pub header: RomHeader,
}

impl Rom {
    /// Keeps the image together with its parsed header; fails as `RomHeader::parse` does.
    pub fn from_bytes(bytes: Vec<u8>) -> (r: Result<Self, RomHeaderError>)
        ensures
            bytes@.len() < MIN_ROM_SIZE ==> r == Err::<Self, RomHeaderError>(
                RomHeaderError::TooSmall { actual: bytes@.len() as usize }),
            bytes@.len() >= MIN_ROM_SIZE ==> r is Ok && r->Ok_0.bytes@ == bytes@
                && r->Ok_0.header.matches_bytes(bytes@),
    {
        let header = match RomHeader::parse(bytes.as_slice()) {
            Ok(h) => h,
            Err(e) => return Err(e),
        };
        Ok(Rom { bytes, header })
    }
}

} // verus!
