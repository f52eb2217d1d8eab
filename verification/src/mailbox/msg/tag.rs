//! A tag view: identifier, request size, response size, then the value buffer.
use vstd::prelude::*;
use crate::mailbox::{Error, TagId};
use crate::mailbox::tag_id::{decode_tag, tag_word};
use crate::mailbox::msg::{words_from, write_words_from};

verus! {

/// tagId, buffer size in bytes, resp size is bytes, 3 words
pub const HEADER_LEN: usize = 3;

pub const HEADER_SIZE: usize = 12;

/// Responses should have bit 31 set in response length
pub const RESPONSE_BIT_MASK: u32 = 0x8000_0000;

/// The outcome of checking the length of a tag buffer `s`.
pub open spec fn tag_len_check(s: Seq<u32>) -> Result<(), Error> {
    if s.len() < 3 {
        Err(Error::Truncated)
    } else {
        Ok(())
    }
}

/// A tag view over a buffer of words.
#[derive(Debug)]
pub struct Tag {
    buffer: Vec<u32>,
}

impl View for Tag {
    type V = Seq<u32>;

    closed spec fn view(&self) -> Seq<u32> {
        self.buffer@
    }
}

impl Tag {
    pub fn new_unchecked(buffer: Vec<u32>) -> (r: Tag)
        ensures
            r@ == buffer@,
    {
        Tag { buffer }
    }

    pub fn new_checked(buffer: Vec<u32>) -> (r: Result<Tag, Error>)
        ensures
            match tag_len_check(buffer@) {
                Ok(_) => r is Ok && r->Ok_0@ == buffer@,
                Err(e) => r == Err::<Tag, Error>(e),
            },
    {
        let req = Self::new_unchecked(buffer);
        match req.check_len() {
            Ok(()) => Ok(req),
            Err(e) => Err(e),
        }
    }

    pub fn check_len(&self) -> (r: Result<(), Error>)
        ensures
            r == tag_len_check(self@),
    {
        if self.buffer.len() < HEADER_LEN {
            Err(Error::Truncated)
        } else {
            Ok(())
        }
    }

    pub fn into_inner(self) -> (r: Vec<u32>)
        ensures
            r@ == self@,
    {
        self.buffer
    }

    pub fn header_size() -> (r: usize)
        ensures
            r == HEADER_SIZE,
    {
        HEADER_SIZE
    }

    pub fn tag_id(&self) -> (r: Result<TagId, Error>)
        requires
            self@.len() >= 1,
        ensures
            r == decode_tag(self@[0]),
    {
        TagId::try_from(self.buffer[0])
    }

    /// Size in bytes
    pub fn request_size(&self) -> (r: usize)
        requires
            self@.len() >= 2,
        ensures
            r == self@[1],
    {
        self.buffer[1] as usize
    }

    /// Size in bytes, without the response bit
    pub fn response_size(&self) -> (r: usize)
        requires
            self@.len() >= 3,
        ensures
            r == self@[2] & 0x7fff_ffff,
    {
        assert(!RESPONSE_BIT_MASK == 0x7fff_ffffu32) by (bit_vector);
        (self.buffer[2] & !RESPONSE_BIT_MASK) as usize
    }

    /// The words after the tag header.
    pub fn payload(&self) -> (r: Vec<u32>)
        requires
            self@.len() >= HEADER_LEN,
        ensures
            r@ == self@.subrange(HEADER_LEN as int, self@.len() as int),
    {
        words_from(&self.buffer, HEADER_LEN)
    }

    pub fn set_tag_id(&mut self, tag_id: TagId)
        requires
            old(self)@.len() >= 1,
        ensures
            final(self)@ == old(self)@.update(0, tag_word(tag_id)),
    {
        self.buffer.set(0, u32::from(tag_id));
    }

    /// Size in bytes
    pub fn set_request_size(&mut self, size: usize)
        requires
            old(self)@.len() >= 2,
        ensures
            final(self)@ == old(self)@.update(1, size as u32),
    {
        self.buffer.set(1, size as u32);
    }

    /// Size in bytes; the response bit is set with it
    pub fn set_response_size(&mut self, size: usize)
        requires
            old(self)@.len() >= 3,
        ensures
            final(self)@ == old(self)@.update(2, (size as u32) | RESPONSE_BIT_MASK),
    {
        self.buffer.set(2, size as u32 | RESPONSE_BIT_MASK);
    }

    /// Overwrites the words after the tag header.
    pub fn set_payload(&mut self, payload: &Vec<u32>)
        requires
            old(self)@.len() == HEADER_LEN + payload@.len(),
        ensures
            final(self)@ == old(self)@.subrange(0, HEADER_LEN as int) + payload@,
    {
        write_words_from(&mut self.buffer, HEADER_LEN, payload);
    }
}

/// A response size set on a tag reads back as set (without the response
/// bit) whenever it is below 2^31; the response bit is then set in the word.
pub proof fn lemma_response_size_write_read(size: u32)
    requires
        size < 0x8000_0000,
    ensures
        (size | RESPONSE_BIT_MASK) & 0x7fff_ffff == size,
        (size | RESPONSE_BIT_MASK) & RESPONSE_BIT_MASK == RESPONSE_BIT_MASK,
{
    assert((size | 0x8000_0000u32) & 0x7fff_ffffu32 == size) by (bit_vector)
        requires
            size < 0x8000_0000u32,
    ;
    assert((size | 0x8000_0000u32) & 0x8000_0000u32 == 0x8000_0000u32) by (bit_vector);
}

impl AsRef<[u32]> for Tag {
    fn as_ref(&self) -> (r: &[u32])
        ensures
            r@ == self@,
    {
        self.buffer.as_slice()
    }
}

} // verus!
