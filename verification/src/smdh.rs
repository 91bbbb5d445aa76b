//! The icon and metadata blob of a title.

use vstd::prelude::*;

use crate::error::{is_failure, Error, ResultCode};
use crate::services::am::Title;
use crate::services::cfgu::Language;
use crate::text::{string_from_utf16_lossy, utf16_lossy};

verus! {

/// The size of the blob in bytes.
pub const SMDH_SIZE: usize = 0x36c0;

/// How many titles, one for each language slot, the blob holds.
pub const TITLE_COUNT: usize = 16;

/// The size of one title in bytes.
pub const TITLE_SIZE: usize = 0x200;

/// Where the fields lie in the blob.
pub const VERSION_AT: usize = 0x4;

pub const TITLES_AT: usize = 0x6;

pub const AGE_RATINGS_AT: usize = 0x2006;

pub const REGION_LOCK_AT: usize = 0x2018;

pub const MATCHMAKER_ID_AT: usize = 0x201c;

pub const MATCHMAKER_BIT_ID_AT: usize = 0x2020;

pub const FLAGS_AT: usize = 0x2028;

pub const EULA_VERSION_AT: usize = 0x202c;

pub const BANNER_FRAME_AT: usize = 0x2030;

pub const CEC_ID_AT: usize = 0x2034;

pub const SMALL_ICON_AT: usize = 0x2040;

pub const LARGE_ICON_AT: usize = 0x24c0;

/// The 16-bit little-endian number at `at`.
pub open spec fn le_u16(bytes: Seq<u8>, at: int) -> u16 {
    (bytes[at] as int + 0x100 * bytes[at + 1] as int) as u16
}

/// The 32-bit little-endian number at `at`.
pub open spec fn le_u32(bytes: Seq<u8>, at: int) -> u32 {
    (le_u16(bytes, at) as int + 0x1_0000 * le_u16(bytes, at + 2) as int) as u32
}

/// The 64-bit little-endian number at `at`.
pub open spec fn le_u64(bytes: Seq<u8>, at: int) -> u64 {
    (le_u32(bytes, at) as int + 0x1_0000_0000 * le_u32(bytes, at + 4) as int) as u64
}

/// The `count` 16-bit little-endian numbers that start at `at`.
pub open spec fn le_units(bytes: Seq<u8>, at: int, count: nat) -> Seq<u16> {
    Seq::new(count, |j: int| le_u16(bytes, at + 2 * j))
}

/// Whether a blob starts with the four letters that mark it.
pub open spec fn has_magic(bytes: Seq<u8>) -> bool {
    bytes.len() >= 4 && bytes[0] == 0x53 && bytes[1] == 0x4d && bytes[2] == 0x44 && bytes[3]
        == 0x48
}

/// The flags of a title's metadata, one bit for each.
#[derive(Copy, Clone, Debug, PartialEq, Eq, Structural)]
pub struct SmdhFlags {
    bits: u32,
}

impl SmdhFlags {
    pub const VISIBLE: u32 = 0x1;

    pub const AUTOBOOT_GAMECARD: u32 = 0x2;

    pub const PARENTAL_3D_ALLOW: u32 = 0x4;

    pub const REQUIRE_CTR_EULA: u32 = 0x8;

    pub const AUTOSAVE_ON_EXIT: u32 = 0x10;

    pub const EXTENDED_BANNER: u32 = 0x20;

    pub const REGION_RATING_REQUIRED: u32 = 0x40;

    pub const SAVEDATA_USAGE: u32 = 0x80;

    pub const RECORD_USAGE: u32 = 0x100;

    pub const DISABLE_SD_SAVEDATA_BACKUPS: u32 = 0x400;

    pub const NEW3DS_EXCLUSIVE: u32 = 0x1000;

    /// The bits of the set, as the blob holds them.
    pub closed spec fn spec_bits(self) -> u32 {
        self.bits
    }

    /// The bits of the set, as the blob holds them.
    #[verifier::when_used_as_spec(spec_bits)]
    pub fn bits(self) -> (bits: u32)
        ensures
            bits == self.spec_bits(),
    {
        self.bits
    }

    /// Whether every bit of `mask` is set.
    pub fn contains(self, mask: u32) -> (r: bool)
        ensures
            r == (self.spec_bits() & mask == mask),
    {
        self.bits & mask == mask
    }
}

/// The regions in which a title runs, one bit for each.
#[derive(Copy, Clone, Debug, PartialEq, Eq, Structural)]
pub struct RegionLock {
    bits: u32,
}

impl RegionLock {
    pub const JAPAN: u32 = 0x1;

    pub const NORTH_AMERICA: u32 = 0x2;

    pub const EUROPE: u32 = 0x4;

    pub const AUSTRALIA: u32 = 0x8;

    pub const CHINA: u32 = 0x10;

    pub const KOREA: u32 = 0x20;

    pub const TAIWAN: u32 = 0x40;

    pub const REGION_FREE: u32 = 0x7fff_ffff;

    /// The bits of the set, as the blob holds them.
    pub closed spec fn spec_bits(self) -> u32 {
        self.bits
    }

    /// The bits of the set, as the blob holds them.
    #[verifier::when_used_as_spec(spec_bits)]
    pub fn bits(self) -> (bits: u32)
        ensures
            bits == self.spec_bits(),
    {
        self.bits
    }

    /// Whether every bit of `mask` is set.
    pub fn contains(self, mask: u32) -> (r: bool)
        ensures
            r == (self.spec_bits() & mask == mask),
    {
        self.bits & mask == mask
    }
}

/// The names of a title in one language, as UTF-16 code units.
#[derive(Copy, Clone, Debug)]
pub struct SmdhTitle {
    short: [u16; 0x40],
    long: [u16; 0x80],
    publisher: [u16; 0x40],
}

/// What a [`SmdhTitle`] is, mathematically.
pub struct SmdhTitleView {
    pub short: Seq<u16>,
    pub long: Seq<u16>,
    pub publisher: Seq<u16>,
}

impl View for SmdhTitle {
    type V = SmdhTitleView;

    closed spec fn view(&self) -> SmdhTitleView {
        SmdhTitleView { short: self.short@, long: self.long@, publisher: self.publisher@ }
    }
}

/// The title that starts at `at`: the short name, the long name and the publisher.
pub open spec fn title_at(bytes: Seq<u8>, at: int) -> SmdhTitleView {
    SmdhTitleView {
        short: le_units(bytes, at, 0x40),
        long: le_units(bytes, at + 0x80, 0x80),
        publisher: le_units(bytes, at + 0x180, 0x40),
    }
}

/// What a [`Smdh`] is, mathematically.
pub struct SmdhView {
    pub version: u16,
    pub titles: Seq<SmdhTitleView>,
    pub age_ratings: Seq<u8>,
    pub region_lock: u32,
    pub matchmaker_id: u32,
    pub matchmaker_bit_id: u64,
    pub flags: u32,
    pub eula_version_major: u8,
    pub eula_version_minor: u8,
    /// The bits of the 32-bit floating-point frame number.
    pub optimal_banner_anim_frame: u32,
    pub cec_id: u32,
    pub small_icon: Seq<u8>,
    pub large_icon: Seq<u8>,
}

/// What the blob `bytes` holds, field by field.
pub open spec fn decode(bytes: Seq<u8>) -> SmdhView {
    SmdhView {
        version: le_u16(bytes, VERSION_AT as int),
        titles: Seq::new(
            TITLE_COUNT as nat,
            |t: int| title_at(bytes, TITLES_AT as int + t * TITLE_SIZE as int),
        ),
        age_ratings: bytes.subrange(AGE_RATINGS_AT as int, AGE_RATINGS_AT as int + 0x10),
        region_lock: le_u32(bytes, REGION_LOCK_AT as int),
        matchmaker_id: le_u32(bytes, MATCHMAKER_ID_AT as int),
        matchmaker_bit_id: le_u64(bytes, MATCHMAKER_BIT_ID_AT as int),
        flags: le_u32(bytes, FLAGS_AT as int),
        eula_version_major: bytes[EULA_VERSION_AT as int],
        eula_version_minor: bytes[EULA_VERSION_AT as int + 1],
        optimal_banner_anim_frame: le_u32(bytes, BANNER_FRAME_AT as int),
        cec_id: le_u32(bytes, CEC_ID_AT as int),
        small_icon: bytes.subrange(SMALL_ICON_AT as int, SMALL_ICON_AT as int + 0x480),
        large_icon: bytes.subrange(LARGE_ICON_AT as int, LARGE_ICON_AT as int + 0x1200),
    }
}

/// The metadata of a title: its names, ratings, flags and icons.
#[derive(Copy, Clone, Debug)]
pub struct Smdh {
    version: u16,
    titles: [SmdhTitle; 16],
    age_ratings: [u8; 16],
    region_lock: RegionLock,
    matchmaker_id: u32,
    matchmaker_bit_id: u64,
    flags: SmdhFlags,
    eula_version_major: u8,
    eula_version_minor: u8,
    optimal_banner_anim_frame: u32,
    cec_id: u32,
    small_icon: [u8; 0x480],
    large_icon: [u8; 0x1200],
}

impl View for Smdh {
    type V = SmdhView;

    closed spec fn view(&self) -> SmdhView {
        SmdhView {
            version: self.version,
            titles: Seq::new(self.titles@.len(), |t: int| self.titles@[t]@),
            age_ratings: self.age_ratings@,
            region_lock: self.region_lock.spec_bits(),
            matchmaker_id: self.matchmaker_id,
            matchmaker_bit_id: self.matchmaker_bit_id,
            flags: self.flags.spec_bits(),
            eula_version_major: self.eula_version_major,
            eula_version_minor: self.eula_version_minor,
            optimal_banner_anim_frame: self.optimal_banner_anim_frame,
            cec_id: self.cec_id,
            small_icon: self.small_icon@,
            large_icon: self.large_icon@,
        }
    }
}

fn read_u16(bytes: &[u8], at: usize) -> (r: u16)
    requires
        at + 2 <= bytes@.len() <= usize::MAX,
    ensures
        r == le_u16(bytes@, at as int),
{
    bytes[at] as u16 + 0x100 * (bytes[at + 1] as u16)
}

fn read_u32(bytes: &[u8], at: usize) -> (r: u32)
    requires
        at + 4 <= bytes@.len() <= usize::MAX,
    ensures
        r == le_u32(bytes@, at as int),
{
    read_u16(bytes, at) as u32 + 0x1_0000 * (read_u16(bytes, at + 2) as u32)
}

fn read_u64(bytes: &[u8], at: usize) -> (r: u64)
    requires
        at + 8 <= bytes@.len() <= usize::MAX,
    ensures
        r == le_u64(bytes@, at as int),
{
    read_u32(bytes, at) as u64 + 0x1_0000_0000 * (read_u32(bytes, at + 4) as u64)
}

fn read_age_ratings(bytes: &[u8], at: usize) -> (r: [u8; 16])
    requires
        at + 16 <= bytes@.len() <= usize::MAX,
    ensures
        r@ == bytes@.subrange(at as int, at + 16),
{
    let mut r: [u8; 16] = [0u8; 16];
    let mut j: usize = 0;
    while j < 16
        invariant
            j <= 16,
            at + 16 <= bytes@.len() <= usize::MAX,
            forall|k: int| 0 <= k < j ==> r@[k] == bytes@[at + k],
        decreases 16 - j,
    {
        r[j] = bytes[at + j];
        j = j + 1;
    }
    assert(r@ =~= bytes@.subrange(at as int, at + 16));
    r
}

fn read_small_icon(bytes: &[u8], at: usize) -> (r: [u8; 0x480])
    requires
        at + 0x480 <= bytes@.len() <= usize::MAX,
    ensures
        r@ == bytes@.subrange(at as int, at + 0x480),
{
    let mut r: [u8; 0x480] = [0u8; 0x480];
    let mut j: usize = 0;
    while j < 0x480
        invariant
            j <= 0x480,
            at + 0x480 <= bytes@.len() <= usize::MAX,
            forall|k: int| 0 <= k < j ==> r@[k] == bytes@[at + k],
        decreases 0x480 - j,
    {
        r[j] = bytes[at + j];
        j = j + 1;
    }
    assert(r@ =~= bytes@.subrange(at as int, at + 0x480));
    r
}

fn read_large_icon(bytes: &[u8], at: usize) -> (r: [u8; 0x1200])
    requires
        at + 0x1200 <= bytes@.len() <= usize::MAX,
    ensures
        r@ == bytes@.subrange(at as int, at + 0x1200),
{
    let mut r: [u8; 0x1200] = [0u8; 0x1200];
    let mut j: usize = 0;
    while j < 0x1200
        invariant
            j <= 0x1200,
            at + 0x1200 <= bytes@.len() <= usize::MAX,
            forall|k: int| 0 <= k < j ==> r@[k] == bytes@[at + k],
        decreases 0x1200 - j,
    {
        r[j] = bytes[at + j];
        j = j + 1;
    }
    assert(r@ =~= bytes@.subrange(at as int, at + 0x1200));
    r
}

fn read_units_64(bytes: &[u8], at: usize) -> (r: [u16; 0x40])
    requires
        at + 0x80 <= bytes@.len() <= usize::MAX,
    ensures
        r@ == le_units(bytes@, at as int, 0x40),
{
    let mut r: [u16; 0x40] = [0u16; 0x40];
    let mut j: usize = 0;
    while j < 0x40
        invariant
            j <= 0x40,
            at + 0x80 <= bytes@.len() <= usize::MAX,
            forall|k: int| 0 <= k < j ==> r@[k] == le_u16(bytes@, at + 2 * k),
        decreases 0x40 - j,
    {
        r[j] = read_u16(bytes, at + 2 * j);
        j = j + 1;
    }
    assert(r@ =~= le_units(bytes@, at as int, 0x40));
    r
}

fn read_units_128(bytes: &[u8], at: usize) -> (r: [u16; 0x80])
    requires
        at + 0x100 <= bytes@.len() <= usize::MAX,
    ensures
        r@ == le_units(bytes@, at as int, 0x80),
{
    let mut r: [u16; 0x80] = [0u16; 0x80];
    let mut j: usize = 0;
    while j < 0x80
        invariant
            j <= 0x80,
            at + 0x100 <= bytes@.len() <= usize::MAX,
            forall|k: int| 0 <= k < j ==> r@[k] == le_u16(bytes@, at + 2 * k),
        decreases 0x80 - j,
    {
        r[j] = read_u16(bytes, at + 2 * j);
        j = j + 1;
    }
    assert(r@ =~= le_units(bytes@, at as int, 0x80));
    r
}

fn read_title(bytes: &[u8], at: usize) -> (r: SmdhTitle)
    requires
        at + 0x200 <= bytes@.len() <= usize::MAX,
    ensures
        r@ == title_at(bytes@, at as int),
{
    SmdhTitle {
        short: read_units_64(bytes, at),
        long: read_units_128(bytes, at + 0x80),
        publisher: read_units_64(bytes, at + 0x180),
    }
}

impl Smdh {
    /// The path of the archive that holds the blob of `id`: the two halves of
    /// the id, the medium, and a zero.
    pub fn archive_path_data(id: &Title) -> (data: [u32; 4])
        ensures
            data@ == seq![
                (id.spec_id() as int % 0x1_0000_0000) as u32,
                (id.spec_id() as int / 0x1_0000_0000) as u32,
                id.spec_media_type().spec_code(),
                0u32,
            ],
    {
        let data = [id.low_u32(), id.high_u32(), id.media_type().code(), 0x0];
        assert(data@ =~= seq![
            (id.spec_id() as int % 0x1_0000_0000) as u32,
            (id.spec_id() as int / 0x1_0000_0000) as u32,
            id.spec_media_type().spec_code(),
            0u32,
        ]);
        data
    }

    /// The path of the blob inside its archive.
    pub fn file_path_data() -> (data: [u32; 5])
        ensures
            data@ == seq![0u32, 0u32, 2u32, 0x6E6F6369u32, 0u32],
    {
        let data = [0x0, 0x0, 0x2, 0x6E6F6369, 0x0];
        assert(data@ =~= seq![0u32, 0u32, 2u32, 0x6E6F6369u32, 0u32]);
        data
    }

    /// Whether `blob` starts with the letters `SMDH`.
    pub fn has_magic(blob: &[u8; 0x36c0]) -> (r: bool)
        ensures
            r == has_magic(blob@),
    {
        blob[0] == 0x53 && blob[1] == 0x4d && blob[2] == 0x44 && blob[3] == 0x48
    }

    /// Decides how loading the metadata of a title ends.
    ///
    /// The three codes are the result codes of opening the file, of reading
    /// it and of closing it, and `blob` is what was read. The first failing
    /// code, in that order, is the error. Otherwise the blob, which then
    /// starts with the letters `SMDH`, is decoded field by field.
    pub fn load(open_code: i32, read_code: i32, close_code: i32, blob: &[u8; 0x36c0]) -> (r: Result<
        Smdh,
        Error,
    >)
        requires
            !is_failure(open_code) && !is_failure(read_code) && !is_failure(close_code)
                ==> has_magic(blob@),
        ensures
            is_failure(open_code) ==> r.is_err() && r.unwrap_err() == Error::Os(open_code),
            !is_failure(open_code) && is_failure(read_code) ==> r.is_err() && r.unwrap_err()
                == Error::Os(read_code),
            !is_failure(open_code) && !is_failure(read_code) && is_failure(close_code)
                ==> r.is_err() && r.unwrap_err() == Error::Os(close_code),
            !is_failure(open_code) && !is_failure(read_code) && !is_failure(close_code)
                ==> r.is_ok() && r.unwrap()@ == decode(blob@),
    {
        match ResultCode(open_code).into_result() {
            Err(e) => {
                return Err(e);
            },
            Ok(_) => (),
        }
        match ResultCode(read_code).into_result() {
            Err(e) => {
                return Err(e);
            },
            Ok(_) => (),
        }
        match ResultCode(close_code).into_result() {
            Err(e) => {
                return Err(e);
            },
            Ok(_) => (),
        }
        let bytes: &[u8] = blob.as_slice();
        let mut titles: [SmdhTitle; 16] = [read_title(bytes, TITLES_AT); 16];
        let mut t: usize = 1;
        while t < TITLE_COUNT
            invariant
                1 <= t <= TITLE_COUNT,
                bytes@.len() == SMDH_SIZE,
                forall|k: int|
                    0 <= k < t ==> (#[trigger] titles@[k])@ == title_at(
                        bytes@,
                        TITLES_AT as int + k * TITLE_SIZE as int,
                    ),
            decreases TITLE_COUNT - t,
        {
            titles[t] = read_title(bytes, TITLES_AT + t * TITLE_SIZE);
            t = t + 1;
        }
        let smdh = Smdh {
            version: read_u16(bytes, VERSION_AT),
            titles,
            age_ratings: read_age_ratings(bytes, AGE_RATINGS_AT),
            region_lock: RegionLock { bits: read_u32(bytes, REGION_LOCK_AT) },
            matchmaker_id: read_u32(bytes, MATCHMAKER_ID_AT),
            matchmaker_bit_id: read_u64(bytes, MATCHMAKER_BIT_ID_AT),
            flags: SmdhFlags { bits: read_u32(bytes, FLAGS_AT) },
            eula_version_major: bytes[EULA_VERSION_AT],
            eula_version_minor: bytes[EULA_VERSION_AT + 1],
            optimal_banner_anim_frame: read_u32(bytes, BANNER_FRAME_AT),
            cec_id: read_u32(bytes, CEC_ID_AT),
            small_icon: read_small_icon(bytes, SMALL_ICON_AT),
            large_icon: read_large_icon(bytes, LARGE_ICON_AT),
        };
        proof {
            assert(smdh@.titles =~= decode(blob@).titles);
        }
        Ok(smdh)
    }

    /// The short name of the title in the given language, decoded from
    /// UTF-16, each unpaired surrogate giving U+FFFD.
    pub fn short_name(&self, lang: Language) -> (name: String)
        ensures
            name@ == utf16_lossy(self@.titles[lang.spec_index() as int].short),
    {
        string_from_utf16_lossy(self.titles[lang.index()].short.as_slice())
    }

    /// The long name of the title in the given language, decoded as the short name is.
    pub fn long_name(&self, lang: Language) -> (name: String)
        ensures
            name@ == utf16_lossy(self@.titles[lang.spec_index() as int].long),
    {
        string_from_utf16_lossy(self.titles[lang.index()].long.as_slice())
    }

    /// The publisher of the title in the given language, decoded as the short name is.
    pub fn publisher(&self, lang: Language) -> (name: String)
        ensures
            name@ == utf16_lossy(self@.titles[lang.spec_index() as int].publisher),
    {
        string_from_utf16_lossy(self.titles[lang.index()].publisher.as_slice())
    }

    /// The version of the blob's format.
    pub fn version(&self) -> (version: u16)
        ensures
            version == self@.version,
    {
        self.version
    }

    /// The flags of the title.
    pub fn flags(&self) -> (flags: SmdhFlags)
        ensures
            flags.spec_bits() == self@.flags,
    {
        self.flags
    }

    /// The regions in which the title runs.
    pub fn region(&self) -> (region: RegionLock)
        ensures
            region.spec_bits() == self@.region_lock,
    {
        self.region_lock
    }
}

} // verus!
