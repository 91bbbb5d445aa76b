//! The application manager: the titles installed on the console.

use std::marker::PhantomData;
use vstd::prelude::*;

use crate::error::{is_failure, Error, ResultCode};
use crate::services::fs::FsMediaType;
use crate::text::{string_from_utf8_lossy, utf8_lossy};

verus! {

/// A set of title categories, one bit for each.
#[derive(Copy, Clone, Debug, PartialEq, Eq, Structural)]
pub struct TitleFlags {
    bits: u16,
}

impl TitleFlags {
    pub const NORMAL: u16 = 0x0;

    pub const DLP_CHILD: u16 = 0x1;

    pub const DEMO: u16 = 0x2;

    pub const CONTENTS: u16 = 0x3;

    pub const ADDON_CONTENTS: u16 = 0x4;

    pub const PATCH: u16 = 0x6;

    pub const CANNOT_EXECUTION: u16 = 0x8;

    pub const SYSTEM: u16 = 0x10;

    pub const REQUIRE_BATCH_UPDATE: u16 = 0x20;

    pub const NOT_REQUIRE_USER_APPROVAL: u16 = 0x40;

    pub const NOT_REQUIRE_RIGHT_FOR_MOUNT: u16 = 0x80;

    pub const CAN_SKIP_CONVERT_JUMP_ID: u16 = 0x100;

    pub const TWL: u16 = 0x8000;

    /// `CONTENTS | CANNOT_EXECUTION | SYSTEM`
    pub const SYSTEM_CONTENT: u16 = 0x1b;

    /// `SYSTEM_CONTENT | NOT_REQUIRE_RIGHT_FOR_MOUNT`
    pub const SHARED_CONTENT: u16 = 0x9b;

    /// `SHARED_CONTENT | NOT_REQUIRE_USER_APPROVAL`
    pub const AUTO_UPDATE_CONTENT: u16 = 0xdb;

    /// `NORMAL | SYSTEM | REQUIRE_BATCH_UPDATE`
    pub const APPLET: u16 = 0x30;

    /// `APPLET | CAN_SKIP_CONVERT_JUMP_ID`
    pub const BASE: u16 = 0x130;

    /// `BASE | CANNOT_EXECUTION`
    pub const FIRMWARE: u16 = 0x138;

    /// Every bit that belongs to some category.
    pub const ALL: u16 = 0x81ff;

    /// The bits of the set.
    pub closed spec fn spec_bits(self) -> u16 {
        self.bits
    }

    /// Every set holds defined bits only.
    pub open spec fn wf(self) -> bool {
        self.spec_bits() & !Self::ALL == 0
    }

    /// The set with exactly the given bits, unless one of them belongs to no category.
    pub fn from_bits(bits: u16) -> (r: Option<TitleFlags>)
        ensures
            r.is_some() <==> bits & !Self::ALL == 0,
            r matches Some(flags) ==> flags.spec_bits() == bits && flags.wf(),
    {
        if bits & !Self::ALL == 0 {
            Some(TitleFlags { bits })
        } else {
            None
        }
    }

    /// The bits of the set.
    #[verifier::when_used_as_spec(spec_bits)]
    pub fn bits(self) -> (bits: u16)
        ensures
            bits == self.spec_bits(),
    {
        self.bits
    }

    /// Whether every bit of `other` is in this set.
    pub fn contains(self, other: TitleFlags) -> (r: bool)
        ensures
            r == (self.spec_bits() & other.spec_bits() == other.spec_bits()),
    {
        self.bits & other.bits == other.bits
    }
}

/// `ALL` is the union of the single categories, and each named union is what its name says.
pub proof fn lemma_title_flag_unions()
    ensures
        TitleFlags::ALL == TitleFlags::NORMAL | TitleFlags::DLP_CHILD | TitleFlags::DEMO
            | TitleFlags::CONTENTS | TitleFlags::ADDON_CONTENTS | TitleFlags::PATCH
            | TitleFlags::CANNOT_EXECUTION | TitleFlags::SYSTEM | TitleFlags::REQUIRE_BATCH_UPDATE
            | TitleFlags::NOT_REQUIRE_USER_APPROVAL | TitleFlags::NOT_REQUIRE_RIGHT_FOR_MOUNT
            | TitleFlags::CAN_SKIP_CONVERT_JUMP_ID | TitleFlags::TWL,
        TitleFlags::SYSTEM_CONTENT == TitleFlags::CONTENTS | TitleFlags::CANNOT_EXECUTION
            | TitleFlags::SYSTEM,
        TitleFlags::SHARED_CONTENT == TitleFlags::SYSTEM_CONTENT
            | TitleFlags::NOT_REQUIRE_RIGHT_FOR_MOUNT,
        TitleFlags::AUTO_UPDATE_CONTENT == TitleFlags::SHARED_CONTENT
            | TitleFlags::NOT_REQUIRE_USER_APPROVAL,
        TitleFlags::APPLET == TitleFlags::NORMAL | TitleFlags::SYSTEM
            | TitleFlags::REQUIRE_BATCH_UPDATE,
        TitleFlags::BASE == TitleFlags::APPLET | TitleFlags::CAN_SKIP_CONVERT_JUMP_ID,
        TitleFlags::FIRMWARE == TitleFlags::BASE | TitleFlags::CANNOT_EXECUTION,
{
    assert(0x81ffu16 == 0x0u16 | 0x1u16 | 0x2u16 | 0x3u16 | 0x4u16 | 0x6u16 | 0x8u16 | 0x10u16
        | 0x20u16 | 0x40u16 | 0x80u16 | 0x100u16 | 0x8000u16) by (bit_vector);
    assert(0x1bu16 == 0x3u16 | 0x8u16 | 0x10u16) by (bit_vector);
    assert(0x9bu16 == 0x1bu16 | 0x80u16) by (bit_vector);
    assert(0xdbu16 == 0x9bu16 | 0x40u16) by (bit_vector);
    assert(0x30u16 == 0x0u16 | 0x10u16 | 0x20u16) by (bit_vector);
    assert(0x130u16 == 0x30u16 | 0x100u16) by (bit_vector);
    assert(0x138u16 == 0x130u16 | 0x8u16) by (bit_vector);
}

/// A title: a program or a set of data installed on some medium.
#[derive(Copy, Clone, Debug)]
pub struct Title<'a> {
    id: u64,
    mediatype: FsMediaType,
    _am: PhantomData<&'a Am>,
}

impl<'a> Title<'a> {
    /// The title's id.
    pub closed spec fn spec_id(&self) -> u64 {
        self.id
    }

    /// The medium that holds the title.
    pub closed spec fn spec_media_type(&self) -> FsMediaType {
        self.mediatype
    }

    /// The category bits of a title id: bits 32 to 47.
    pub open spec fn category_bits(id: u64) -> u16 {
        ((id as int / 0x1_0000_0000) % 0x1_0000) as u16
    }

    /// The title's id.
    #[verifier::when_used_as_spec(spec_id)]
    pub fn id(&self) -> (id: u64)
        ensures
            id == self.spec_id(),
    {
        self.id
    }

    /// The medium that holds the title.
    #[verifier::when_used_as_spec(spec_media_type)]
    pub fn media_type(&self) -> (mediatype: FsMediaType)
        ensures
            mediatype == self.spec_media_type(),
    {
        self.mediatype
    }

    /// The lower half of the id.
    pub fn low_u32(&self) -> (low: u32)
        ensures
            low == self.spec_id() as int % 0x1_0000_0000,
    {
        let id: u64 = self.id;
        assert((id & 0x0000_0000_ffff_ffff) == id % 0x1_0000_0000) by (bit_vector);
        (id & 0x0000_0000_ffff_ffff) as u32
    }

    /// The upper half of the id.
    pub fn high_u32(&self) -> (high: u32)
        ensures
            high == self.spec_id() as int / 0x1_0000_0000,
    {
        let id: u64 = self.id;
        assert(((id & 0xffff_ffff_0000_0000) >> 32) == id / 0x1_0000_0000) by (bit_vector);
        ((id & 0xffff_ffff_0000_0000) >> 32) as u32
    }

    /// The categories that the id names, unless it names a bit that belongs to none.
    pub fn content_category(&self) -> (r: Option<TitleFlags>)
        ensures
            r.is_some() <==> Self::category_bits(self.spec_id()) & !TitleFlags::ALL == 0,
            r matches Some(flags) ==> flags.spec_bits() == Self::category_bits(self.spec_id())
                && flags.wf(),
    {
        let id: u64 = self.id;
        assert(((id & 0x0000_ffff_0000_0000) >> 32) == (id / 0x1_0000_0000) % 0x1_0000)
            by (bit_vector);
        let flags_bits = ((id & 0x0000_ffff_0000_0000) >> 32) as u16;
        TitleFlags::from_bits(flags_bits)
    }

    /// Decides how asking for the title's product code ends.
    ///
    /// `code` is the result code of the request and `buf` the 16 bytes that
    /// the system filled in. A failing code is the error; otherwise the bytes
    /// are decoded as UTF-8, each malformed sequence giving U+FFFD.
    pub fn get_product_code(&self, code: i32, buf: &[u8; 16]) -> (r: Result<String, Error>)
        ensures
            is_failure(code) ==> r == Err::<String, Error>(Error::Os(code)),
            !is_failure(code) ==> r.is_ok() && r.unwrap()@ == utf8_lossy(buf@),
    {
        match ResultCode(code).into_result() {
            Err(e) => Err(e),
            Ok(_) => Ok(string_from_utf8_lossy(buf.as_slice())),
        }
    }
}

/// The application manager, initialised.
#[derive(Debug)]
pub struct Am(());

impl Am {
    /// Decides how initialising the service ends, from the result code of the request.
    pub fn init(code: i32) -> (r: Result<Am, Error>)
        ensures
            is_failure(code) ==> r.is_err() && r.unwrap_err() == Error::Os(code),
            !is_failure(code) ==> r.is_ok(),
    {
        match ResultCode(code).into_result() {
            Err(e) => Err(e),
            Ok(_) => Ok(Am(())),
        }
    }

    /// Decides how counting the titles of a medium ends, from the result
    /// code of the request and the count that the system filled in.
    pub fn get_title_count(&self, code: i32, count: u32) -> (r: Result<u32, Error>)
        ensures
            r == if is_failure(code) {
                Err::<u32, Error>(Error::Os(code))
            } else {
                Ok::<u32, Error>(count)
            },
    {
        match ResultCode(code).into_result() {
            Err(e) => Err(e),
            Ok(_) => Ok(count),
        }
    }

    /// Decides how listing the titles of a medium ends, from the result code
    /// of the request and the ids that the system filled in.
    ///
    /// On success the titles come in the order of the ids, each on `mediatype`.
    pub fn get_title_list<'a>(&'a self, mediatype: FsMediaType, code: i32, ids: &[u64]) -> (r:
        Result<Vec<Title<'a>>, Error>)
        ensures
            is_failure(code) ==> r.is_err() && r.unwrap_err() == Error::Os(code),
            !is_failure(code) ==> r.is_ok() && r.unwrap()@.len() == ids@.len() && forall|i: int|
                0 <= i < ids@.len() ==> (#[trigger] r.unwrap()@[i]).spec_id() == ids@[i]
                    && r.unwrap()@[i].spec_media_type() == mediatype,
    {
        match ResultCode(code).into_result() {
            Err(e) => {
                return Err(e);
            },
            Ok(_) => (),
        }
        let mut titles: Vec<Title<'a>> = Vec::new();
        let mut i: usize = 0;
        while i < ids.len()
            invariant
                i <= ids@.len(),
                titles@.len() == i,
                forall|j: int|
                    0 <= j < i ==> (#[trigger] titles@[j]).spec_id() == ids@[j]
                        && titles@[j].spec_media_type() == mediatype,
            decreases ids@.len() - i,
        {
            titles.push(Title { id: ids[i], mediatype, _am: PhantomData });
            i = i + 1;
        }
        Ok(titles)
    }
}

} // verus!
