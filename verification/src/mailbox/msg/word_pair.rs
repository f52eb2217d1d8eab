//! Property messages of one tag whose value buffer is two words: the
//! request writes at most the first word, the response fills both.
//!
//! GetTemperature, GetArmMem, GetVcMem and GetSerialNum share this layout
//! (message header, tag header, two value words, end tag).
use vstd::prelude::*;
use crate::mailbox::{Error, TagId};
use crate::mailbox::tag_id::{decode_tag, tag_word};
use crate::mailbox::msg::{
    code_of_word, Msg, ReqRespCode, Tag, LAST_TAG_SIZE, RESPONSE_SUCCESS_CODE,
};

verus! {

/// Length in words of the value buffer.
pub const VALUE_LEN: usize = 2;

/// Size in bytes of the value buffer.
pub const VALUE_SIZE: usize = 8;

/// Size in bytes of a whole message: header, tag header, value buffer and
/// end tag.
pub const MSG_SIZE: u32 = 32;

/// What parsing a response buffer `s` for `tag` gives: the two value words,
/// or the first check that the buffer fails.
pub open spec fn pair_parse(s: Seq<u32>, tag: TagId) -> Result<(u32, u32), Error> {
    if s[0] != MSG_SIZE {
        Err(Error::Malformed)
    } else if code_of_word(s[1]) != ReqRespCode::ResponseSuccess {
        Err(Error::Malformed)
    } else if s.len() < 5 {
        Err(Error::Truncated)
    } else if decode_tag(s[2]) is Err {
        Err(Error::UnkownTagId(s[2]))
    } else if decode_tag(s[2])->Ok_0 != tag {
        Err(Error::Malformed)
    } else if s[4] & 0x7fff_ffff != VALUE_SIZE {
        Err(Error::Malformed)
    } else if s.len() < 7 {
        Err(Error::Truncated)
    } else {
        Ok((s[5], s[6]))
    }
}

/// The buffers on which parsing a response reads only words that exist.
pub open spec fn pair_parse_defined(s: Seq<u32>) -> bool {
    &&& s.len() >= 1
    &&& s[0] == MSG_SIZE ==> s.len() >= 2
}

/// The buffer after emitting a request for `tag` into `s`: message header,
/// tag header, the first value word where the request has one and, where the
/// buffer holds it, the end tag; the other value words keep their words.
pub open spec fn pair_request(s: Seq<u32>, tag: TagId, first: Option<u32>) -> Seq<u32> {
    let h = s.update(0, MSG_SIZE).update(1, 0).update(2, tag_word(tag)).update(
        3,
        VALUE_SIZE as u32,
    ).update(4, 0x8000_0008);
    let t = match first {
        Some(w) => h.update(5, w),
        None => h,
    };
    if s.len() < 7 {
        t
    } else {
        t.update(7, 0)
    }
}

/// The result of emitting a request into a buffer of `len` words.
pub open spec fn pair_emit_result(len: nat) -> Result<(), Error> {
    if len < 36 {
        Err(Error::Truncated)
    } else {
        Ok(())
    }
}

/// Parses a response for `tag` (see [pair_parse]).
pub fn parse_pair(msg: &Msg, tag_id: TagId) -> (r: Result<(u32, u32), Error>)
    requires
        pair_parse_defined(msg@),
    ensures
        r == pair_parse(msg@, tag_id),
{
    if msg.buffer_size() != (Msg::header_size() + Tag::header_size() + VALUE_SIZE
        + LAST_TAG_SIZE) {
        return Err(Error::Malformed);
    }
    if msg.reqresp_code() != ReqRespCode::ResponseSuccess {
        return Err(Error::Malformed);
    }
    let tag = match Tag::new_checked(msg.payload()) {
        Ok(t) => t,
        Err(e) => return Err(e),
    };
    assert(tag@ =~= msg@.subrange(2, msg@.len() as int));
    assert(tag@[0] == msg@[2]);
    let found = match tag.tag_id() {
        Ok(t) => t,
        Err(e) => return Err(e),
    };
    if found != tag_id {
        return Err(Error::Malformed);
    }
    if tag.response_size() != VALUE_SIZE {
        return Err(Error::Malformed);
    }
    assert(tag@[2] == msg@[4]);
    let words = tag.payload();
    assert(words@ =~= msg@.subrange(5, msg@.len() as int));
    if words.len() < VALUE_LEN {
        return Err(Error::Truncated);
    }
    Ok((words[0], words[1]))
}

/// Emits a request for `tag`, writing `first` into the first value word
/// where it is given (see [pair_request]).
pub fn emit_pair(msg: &mut Msg, tag_id: TagId, first: Option<u32>) -> (r: Result<(), Error>)
    requires
        old(msg)@.len() >= 6,
        old(msg)@.len() != 7,
    ensures
        final(msg)@ == pair_request(old(msg)@, tag_id, first),
        r == pair_emit_result(old(msg)@.len()),
{
    let ghost s = msg@;
    msg.set_buffer_size(Msg::header_size() + Tag::header_size() + VALUE_SIZE + LAST_TAG_SIZE);
    msg.set_reqresp_code(ReqRespCode::Request);
    let mut tag = Tag::new_unchecked(msg.payload());
    tag.set_tag_id(tag_id);
    tag.set_request_size(VALUE_SIZE);
    tag.set_response_size(VALUE_SIZE);
    assert((8u32 | 0x8000_0000u32) == 0x8000_0008u32) by (bit_vector);
    let mut words = tag.payload();
    match first {
        Some(w) => words.set(0, w),
        None => {},
    }
    let value_len = words.len();
    tag.set_payload(&words);
    msg.set_payload(&tag.into_inner());
    let ghost h = s.update(0, MSG_SIZE).update(1, 0).update(2, tag_word(tag_id)).update(
        3,
        VALUE_SIZE as u32,
    ).update(4, 0x8000_0008);
    let ghost t = match first {
        Some(w) => h.update(5, w),
        None => h,
    };
    assert(msg@ =~= t);
    if value_len < VALUE_LEN {
        assert(msg@ =~= pair_request(s, tag_id, first));
        return Err(Error::Truncated);
    }
    let fill = msg.fill_last_tag();
    assert(msg@ =~= pair_request(s, tag_id, first));
    match msg.check_len() {
        Ok(()) => Ok(()),
        Err(e) => Err(e),
    }
}

/// A request for `tag` emitted into a full buffer and answered by the
/// firmware with the success code and two value words parses back to those
/// words.
pub proof fn lemma_pair_request_answered(
    s: Seq<u32>,
    tag: TagId,
    first: Option<u32>,
    a: u32,
    b: u32,
)
    requires
        s.len() >= 36,
    ensures
        ({
            let t = pair_request(s, tag, first).update(1, RESPONSE_SUCCESS_CODE).update(
                5,
                a,
            ).update(6, b);
            &&& pair_parse_defined(t)
            &&& pair_parse(t, tag) == Ok::<(u32, u32), Error>((a, b))
        }),
{
    let t = pair_request(s, tag, first).update(1, RESPONSE_SUCCESS_CODE).update(5, a).update(
        6,
        b,
    );
    assert(t[4] == 0x8000_0008u32);
    assert(0x8000_0008u32 & 0x7fff_ffffu32 == 8u32) by (bit_vector);
    assert(t[2] == tag_word(tag));
    crate::mailbox::tag_id::lemma_tag_word_roundtrip(tag, t[2]);
}

} // verus!
