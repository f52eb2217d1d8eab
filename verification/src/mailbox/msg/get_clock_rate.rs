//! The GetClockRate message: request a clock's rate by its identifier.
use vstd::prelude::*;
use crate::clocks::{clock_id_canonical, clock_of_word, clock_word, ClockId};
use crate::mailbox::{Error, TagId};
use crate::mailbox::tag_id::{decode_tag, tag_word};
use crate::mailbox::msg::{
    code_of_word, Msg, MsgEmitter, ReqRespCode, Tag, LAST_TAG_SIZE, RESPONSE_SUCCESS_CODE,
};
use crate::time::Hertz;

verus! {

const TAG: TagId = TagId::GetClockRate;

pub const REQ_LEN: usize = 2;

pub const REQ_SIZE: usize = 8;

pub const RESP_LEN: usize = 2;

pub const RESP_SIZE: usize = 8;

/// Size in bytes of a whole GetClockRate message: header, tag header,
/// value buffer and end tag.
pub const MSG_SIZE: u32 = 32;

/// Request value buffer: the clock identifier.
#[derive(Debug)]
pub struct Req {
    buffer: Vec<u32>,
}

impl View for Req {
    type V = Seq<u32>;

    closed spec fn view(&self) -> Seq<u32> {
        self.buffer@
    }
}

impl Req {
    pub fn new_unchecked(buffer: Vec<u32>) -> (r: Req)
        ensures
            r@ == buffer@,
    {
        Req { buffer }
    }

    pub fn new_checked(buffer: Vec<u32>) -> (r: Result<Req, Error>)
        ensures
            buffer@.len() < REQ_LEN ==> r == Err::<Req, Error>(Error::Truncated),
            buffer@.len() >= REQ_LEN ==> r is Ok && r->Ok_0@ == buffer@,
    {
        let req = Self::new_unchecked(buffer);
        match req.check_len() {
            Ok(()) => Ok(req),
            Err(e) => Err(e),
        }
    }

    pub fn check_len(&self) -> (r: Result<(), Error>)
        ensures
            self@.len() < REQ_LEN ==> r == Err::<(), Error>(Error::Truncated),
            self@.len() >= REQ_LEN ==> r == Ok::<(), Error>(()),
    {
        if self.buffer.len() < REQ_LEN {
            Err(Error::Truncated)
        } else {
            Ok(())
        }
    }

    pub fn into_inner(self) -> (r: Vec<u32>)
        ensures
            r@ == self@,
    {
        self.buffer
    }

    pub fn clock_id(&self) -> (r: ClockId)
        requires
            self@.len() >= 1,
        ensures
            r == clock_of_word(self@[0]),
    {
        ClockId::from(self.buffer[0])
    }

    pub fn set_clock_id(&mut self, id: ClockId)
        requires
            old(self)@.len() >= 1,
        ensures
            final(self)@ == old(self)@.update(0, clock_word(id)),
    {
        self.buffer.set(0, u32::from(id));
    }
}

/// Response value buffer: the clock identifier and its rate in Hertz.
#[derive(Debug)]
pub struct Resp {
    buffer: Vec<u32>,
}

impl View for Resp {
    type V = Seq<u32>;

    closed spec fn view(&self) -> Seq<u32> {
        self.buffer@
    }
}

impl Resp {
    pub fn new_unchecked(buffer: Vec<u32>) -> (r: Resp)
        ensures
            r@ == buffer@,
    {
        Resp { buffer }
    }

    pub fn new_checked(buffer: Vec<u32>) -> (r: Result<Resp, Error>)
        ensures
            buffer@.len() < RESP_LEN ==> r == Err::<Resp, Error>(Error::Truncated),
            buffer@.len() >= RESP_LEN ==> r is Ok && r->Ok_0@ == buffer@,
    {
        let resp = Self::new_unchecked(buffer);
        match resp.check_len() {
            Ok(()) => Ok(resp),
            Err(e) => Err(e),
        }
    }

    pub fn check_len(&self) -> (r: Result<(), Error>)
        ensures
            self@.len() < RESP_LEN ==> r == Err::<(), Error>(Error::Truncated),
            self@.len() >= RESP_LEN ==> r == Ok::<(), Error>(()),
    {
        if self.buffer.len() < RESP_LEN {
            Err(Error::Truncated)
        } else {
            Ok(())
        }
    }

    pub fn into_inner(self) -> (r: Vec<u32>)
        ensures
            r@ == self@,
    {
        self.buffer
    }

    pub fn clock_id(&self) -> (r: ClockId)
        requires
            self@.len() >= 1,
        ensures
            r == clock_of_word(self@[0]),
    {
        ClockId::from(self.buffer[0])
    }

    pub fn rate(&self) -> (r: Hertz)
        requires
            self@.len() >= 2,
        ensures
            r == Hertz(self@[1]),
    {
        Hertz(self.buffer[1])
    }
}

/// A high-level representation of a GetClockRate command/response
#[derive(Debug, PartialEq, Eq, Structural, Clone, Copy)]
pub struct Repr {
    /// Clock identifier
    clock_id: ClockId,
    /// Clock rate in Hertz
    rate: Hertz,
}

impl View for Repr {
    type V = (ClockId, Hertz);

    closed spec fn view(&self) -> (ClockId, Hertz) {
        (self.clock_id, self.rate)
    }
}

/// A default GetClockRate request
impl Default for Repr {
    fn default() -> (r: Repr)
        ensures
            r@ == (ClockId::Unkown(0), Hertz(0)),
    {
        Repr { clock_id: ClockId::Unkown(0), rate: Hertz(0) }
    }
}

/// What parsing a GetClockRate response buffer `s` gives: the clock and its
/// rate, or the first check that the buffer fails.
pub open spec fn clock_rate_parse(s: Seq<u32>) -> Result<(ClockId, Hertz), Error> {
    if s[0] != MSG_SIZE {
        Err(Error::Malformed)
    } else if code_of_word(s[1]) != ReqRespCode::ResponseSuccess {
        Err(Error::Malformed)
    } else if s.len() < 5 {
        Err(Error::Truncated)
    } else if decode_tag(s[2]) is Err {
        Err(Error::UnkownTagId(s[2]))
    } else if decode_tag(s[2])->Ok_0 != TagId::GetClockRate {
        Err(Error::Malformed)
    } else if s[4] & 0x7fff_ffff != RESP_SIZE {
        Err(Error::Malformed)
    } else if s.len() < 7 {
        Err(Error::Truncated)
    } else {
        Ok((clock_of_word(s[5]), Hertz(s[6])))
    }
}

/// The buffers on which parsing a GetClockRate response reads only words
/// that exist.
pub open spec fn clock_rate_parse_defined(s: Seq<u32>) -> bool {
    &&& s.len() >= 1
    &&& s[0] == MSG_SIZE ==> s.len() >= 2
}

/// The buffer after emitting a GetClockRate request for `id` into `s`:
/// message header, tag header, the clock word and, where the buffer holds
/// it, the end tag; the rate slot keeps its word.
pub open spec fn clock_rate_request(s: Seq<u32>, id: ClockId) -> Seq<u32> {
    let t = s.update(0, MSG_SIZE).update(1, 0).update(2, tag_word(TagId::GetClockRate)).update(
        3,
        REQ_SIZE as u32,
    ).update(4, 0x8000_0008).update(5, clock_word(id));
    if s.len() < 7 {
        t
    } else {
        t.update(7, 0)
    }
}

/// The result of emitting a GetClockRate request into a buffer of `len` words.
pub open spec fn clock_rate_emit_result(len: nat) -> Result<(), Error> {
    if len < 36 {
        Err(Error::Truncated)
    } else {
        Ok(())
    }
}

impl Repr {
    pub fn new(clock_id: ClockId) -> (r: Self)
        ensures
            r@ == (clock_id, Hertz(0)),
    {
        Repr { clock_id, rate: Hertz(0) }
    }

    pub fn clock_id(&self) -> (r: ClockId)
        ensures
            r == self@.0,
    {
        self.clock_id
    }

    pub fn rate(&self) -> (r: Hertz)
        ensures
            r == self@.1,
    {
        self.rate
    }

    pub fn parse_response(msg: &Msg) -> (r: Result<Repr, Error>)
        requires
            clock_rate_parse_defined(msg@),
        ensures
            match clock_rate_parse(msg@) {
                Ok(v) => r is Ok && r->Ok_0@ == v,
                Err(e) => r == Err::<Repr, Error>(e),
            },
    {
        if msg.buffer_size() != (Msg::header_size() + Tag::header_size() + RESP_SIZE
            + LAST_TAG_SIZE) {
            return Err(Error::Malformed);
        }
        if msg.reqresp_code() != ReqRespCode::ResponseSuccess {
            return Err(Error::Malformed);
        }
        let tag = match Tag::new_checked(msg.payload()) {
            Ok(t) => t,
            Err(e) => return Err(e),
        };
        assert(tag@ =~= msg@.subrange(2, msg@.len() as int));
        assert(tag@[0] == msg@[2]);
        let tag_id = match tag.tag_id() {
            Ok(t) => t,
            Err(e) => return Err(e),
        };
        if tag_id != TagId::GetClockRate {
            return Err(Error::Malformed);
        }
        if tag.response_size() != RESP_SIZE {
            return Err(Error::Malformed);
        }
        assert(tag@[2] == msg@[4]);
        let words = tag.payload();
        assert(words@ =~= msg@.subrange(5, msg@.len() as int));
        let resp = match Resp::new_checked(words) {
            Ok(r) => r,
            Err(e) => return Err(e),
        };
        assert(resp@[0] == msg@[5] && resp@[1] == msg@[6]);
        Ok(Repr { clock_id: resp.clock_id(), rate: resp.rate() })
    }

    /// Return the size of a packet that will be emitted from this high-level
    /// representation
    pub fn buffer_size(&self) -> (r: usize)
        ensures
            r == RESP_SIZE,
    {
        // Request and response are the same size/shape
        RESP_SIZE
    }

    pub fn emit_request(&self, msg: &mut Msg) -> (r: Result<(), Error>)
        requires
            old(msg)@.len() >= 6,
            old(msg)@.len() != 7,
        ensures
            final(msg)@ == clock_rate_request(old(msg)@, self@.0),
            r == clock_rate_emit_result(old(msg)@.len()),
    {
        let ghost s = msg@;
        msg.set_buffer_size(Msg::header_size() + Tag::header_size() + REQ_SIZE + LAST_TAG_SIZE);
        msg.set_reqresp_code(ReqRespCode::Request);
        let mut tag = Tag::new_unchecked(msg.payload());
        tag.set_tag_id(TAG);
        tag.set_request_size(REQ_SIZE);
        tag.set_response_size(RESP_SIZE);
        assert((8u32 | 0x8000_0000u32) == 0x8000_0008u32) by (bit_vector);
        let tag_ok = tag.check_len();
        assert(tag_ok is Ok);
        let mut req = Req::new_unchecked(tag.payload());
        req.set_clock_id(self.clock_id());
        let req_ok = req.check_len();
        tag.set_payload(&req.into_inner());
        msg.set_payload(&tag.into_inner());
        let ghost t = s.update(0, MSG_SIZE).update(1, 0).update(2, tag_word(TagId::GetClockRate)).update(
            3,
            REQ_SIZE as u32,
        ).update(4, 0x8000_0008).update(5, clock_word(self@.0));
        assert(msg@ =~= t);
        if req_ok.is_err() {
            assert(msg@ =~= clock_rate_request(s, self@.0));
            return Err(Error::Truncated);
        }
        let fill = msg.fill_last_tag();
        assert(msg@ =~= clock_rate_request(s, self@.0));
        match msg.check_len() {
            Ok(()) => Ok(()),
            Err(e) => Err(e),
        }
    }
}

impl MsgEmitter for Repr {
    open spec fn emitted_size(&self) -> nat {
        MSG_SIZE as nat
    }

    open spec fn emit_allowed(&self, len: nat) -> bool {
        len >= 6 && len != 7
    }

    open spec fn emitted(&self, s: Seq<u32>) -> Seq<u32> {
        clock_rate_request(s, self@.0)
    }

    open spec fn emit_outcome(&self, s: Seq<u32>) -> Result<(), Error> {
        clock_rate_emit_result(s.len())
    }

    fn msg_size(&self) -> (r: usize) {
        Msg::header_size() + Tag::header_size() + RESP_SIZE + LAST_TAG_SIZE
    }

    fn emit_msg(&self, msg: &mut Msg) -> (r: Result<(), Error>) {
        self.emit_request(msg)
    }
}

/// A GetClockRate request, answered by the firmware with the success code and
/// a rate in the rate slot, parses back to the requested clock (its canonical
/// form) and that rate.
pub proof fn lemma_clock_rate_request_answered(s: Seq<u32>, id: ClockId, rate: u32)
    requires
        s.len() >= 36,
    ensures
        ({
            let t = clock_rate_request(s, id).update(1, RESPONSE_SUCCESS_CODE).update(6, rate);
            &&& clock_rate_parse_defined(t)
            &&& clock_rate_parse(t) == Ok::<(ClockId, Hertz), Error>(
                (clock_of_word(clock_word(id)), Hertz(rate)),
            )
            &&& clock_id_canonical(id) ==> clock_rate_parse(t) == Ok::<(ClockId, Hertz), Error>(
                (id, Hertz(rate)),
            )
        }),
{
    let t = clock_rate_request(s, id).update(1, RESPONSE_SUCCESS_CODE).update(6, rate);
    assert(t[4] == 0x8000_0008u32);
    assert(0x8000_0008u32 & 0x7fff_ffffu32 == 8u32) by (bit_vector);
    assert(t[2] == tag_word(TagId::GetClockRate));
}

impl AsRef<[u32]> for Req {
    fn as_ref(&self) -> (r: &[u32])
        ensures
            r@ == self@,
    {
        self.buffer.as_slice()
    }
}

impl AsRef<[u32]> for Resp {
    fn as_ref(&self) -> (r: &[u32])
        ensures
            r@ == self@,
    {
        self.buffer.as_slice()
    }
}

} // verus!
