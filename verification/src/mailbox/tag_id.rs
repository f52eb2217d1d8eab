//! Identifiers of the property-interface tags.
use vstd::prelude::*;
use crate::mailbox::Error;

verus! {

/// Tag identifiers of the VideoCore mailbox property interface.
#[derive(Debug, Copy, Clone, PartialEq, Eq, Structural)]
pub enum TagId {
    Last,
    SetCursorState,
    GetSerialNum,
    GetArmMem,
    GetVcMem,
    GetClockRate,
    GetTemperature,
    AllocBuffer,
    GetPitch,
    GetPhySize,
    SetPhySize,
    SetVirtSize,
    SetDepth,
    SetPixelOrder,
    SetVirtOffset,
}

/// The word that stands for a tag in a message.
pub open spec fn tag_word(t: TagId) -> u32 {
    match t {
        TagId::Last => 0x0000_0000,
        TagId::SetCursorState => 0x0000_8011,
        TagId::GetSerialNum => 0x0001_0004,
        TagId::GetArmMem => 0x0001_0005,
        TagId::GetVcMem => 0x0001_0006,
        TagId::GetClockRate => 0x0003_0002,
        TagId::GetTemperature => 0x0003_0006,
        TagId::AllocBuffer => 0x0004_0001,
        TagId::GetPitch => 0x0004_0008,
        TagId::GetPhySize => 0x0004_0003,
        TagId::SetPhySize => 0x0004_8003,
        TagId::SetVirtSize => 0x0004_8004,
        TagId::SetDepth => 0x0004_8005,
        TagId::SetPixelOrder => 0x0004_8006,
        TagId::SetVirtOffset => 0x0004_8009,
    }
}

/// The tag that a word stands for, if any.
pub open spec fn tag_of_word(v: u32) -> Option<TagId> {
    if v == 0x0000_0000 {
        Some(TagId::Last)
    } else if v == 0x0000_8011 {
        Some(TagId::SetCursorState)
    } else if v == 0x0001_0004 {
        Some(TagId::GetSerialNum)
    } else if v == 0x0001_0005 {
        Some(TagId::GetArmMem)
    } else if v == 0x0001_0006 {
        Some(TagId::GetVcMem)
    } else if v == 0x0003_0002 {
        Some(TagId::GetClockRate)
    } else if v == 0x0003_0006 {
        Some(TagId::GetTemperature)
    } else if v == 0x0004_0001 {
        Some(TagId::AllocBuffer)
    } else if v == 0x0004_0008 {
        Some(TagId::GetPitch)
    } else if v == 0x0004_0003 {
        Some(TagId::GetPhySize)
    } else if v == 0x0004_8003 {
        Some(TagId::SetPhySize)
    } else if v == 0x0004_8004 {
        Some(TagId::SetVirtSize)
    } else if v == 0x0004_8005 {
        Some(TagId::SetDepth)
    } else if v == 0x0004_8006 {
        Some(TagId::SetPixelOrder)
    } else if v == 0x0004_8009 {
        Some(TagId::SetVirtOffset)
    } else {
        None
    }
}

/// Decoding a word: the tag it stands for, or `UnkownTagId` with the word.
pub open spec fn decode_tag(v: u32) -> Result<TagId, Error> {
    match tag_of_word(v) {
        Some(t) => Ok(t),
        None => Err(Error::UnkownTagId(v)),
    }
}

impl vstd::std_specs::convert::FromSpecImpl<TagId> for u32 {
    open spec fn obeys_from_spec() -> bool {
        true
    }

    open spec fn from_spec(v: TagId) -> u32 {
        tag_word(v)
    }
}

impl From<TagId> for u32 {
    fn from(tag: TagId) -> (r: u32)
        ensures
            r == tag_word(tag),
    {
        match tag {
            TagId::Last => 0x0000_0000,
            TagId::SetCursorState => 0x0000_8011,
            TagId::GetSerialNum => 0x0001_0004,
            TagId::GetArmMem => 0x0001_0005,
            TagId::GetVcMem => 0x0001_0006,
            TagId::GetClockRate => 0x0003_0002,
            TagId::GetTemperature => 0x0003_0006,
            TagId::AllocBuffer => 0x0004_0001,
            TagId::GetPitch => 0x0004_0008,
            TagId::GetPhySize => 0x0004_0003,
            TagId::SetPhySize => 0x0004_8003,
            TagId::SetVirtSize => 0x0004_8004,
            TagId::SetDepth => 0x0004_8005,
            TagId::SetPixelOrder => 0x0004_8006,
            TagId::SetVirtOffset => 0x0004_8009,
        }
    }
}

impl vstd::std_specs::convert::TryFromSpecImpl<u32> for TagId {
    open spec fn obeys_try_from_spec() -> bool {
        true
    }

    open spec fn try_from_spec(v: u32) -> Result<TagId, Error> {
        decode_tag(v)
    }
}

impl TryFrom<u32> for TagId {
    type Error = Error;

    fn try_from(value: u32) -> (r: Result<TagId, Error>) {
        match value {
            0x0000_0000 => Ok(TagId::Last),
            0x0000_8011 => Ok(TagId::SetCursorState),
            0x0001_0004 => Ok(TagId::GetSerialNum),
            0x0001_0005 => Ok(TagId::GetArmMem),
            0x0001_0006 => Ok(TagId::GetVcMem),
            0x0003_0002 => Ok(TagId::GetClockRate),
            0x0003_0006 => Ok(TagId::GetTemperature),
            0x0004_0001 => Ok(TagId::AllocBuffer),
            0x0004_0008 => Ok(TagId::GetPitch),
            0x0004_0003 => Ok(TagId::GetPhySize),
            0x0004_8003 => Ok(TagId::SetPhySize),
            0x0004_8004 => Ok(TagId::SetVirtSize),
            0x0004_8005 => Ok(TagId::SetDepth),
            0x0004_8006 => Ok(TagId::SetPixelOrder),
            0x0004_8009 => Ok(TagId::SetVirtOffset),
            _ => Err(Error::UnkownTagId(value)),
        }
    }
}

/// Every tag is recovered from the word that stands for it, and a word that
/// decodes to a tag is that tag's word.
pub proof fn lemma_tag_word_roundtrip(t: TagId, v: u32)
    ensures
        decode_tag(tag_word(t)) == Ok::<TagId, Error>(t),
        decode_tag(v) is Ok ==> tag_word(decode_tag(v)->Ok_0) == v,
{
}

} // verus!
