//! VideoCore Mailbox messages and utilities
use vstd::prelude::*;
use crate::mailbox::{Error, TagId};
use crate::fmt::{decimal, push_decimal};
use crate::mailbox::tag_id::{decode_tag, tag_word};
use crate::mailbox::msg::alloc_framebuffer::{
    fb_emit_result, fb_parse_defined, fb_parse_outcome, fb_request, response_fields,
};
use crate::mailbox::msg::get_clock_rate::{
    clock_rate_emit_result, clock_rate_parse, clock_rate_parse_defined, clock_rate_request,
};
use crate::mailbox::msg::get_serial_num::serial_of;
use crate::mailbox::msg::word_pair::{pair_emit_result, pair_parse, pair_request};

pub mod alloc_framebuffer;
pub mod get_arm_mem;
pub mod get_clock_rate;
pub mod get_serial_num;
pub mod get_temp;
pub mod get_vc_mem;
pub mod tag;
pub mod word_pair;

pub use crate::mailbox::msg::alloc_framebuffer::{
    PixelOrder, Repr as AllocFramebufferRepr, Req as AllocFramebufferReq,
    Resp as AllocFramebufferResp,
};
pub use crate::mailbox::msg::get_arm_mem::{
    Repr as GetArmMemRepr, Req as GetArmMemReq, Resp as GetArmMemResp,
};
pub use crate::mailbox::msg::get_clock_rate::{
    Repr as GetClockRateRepr, Req as GetClockRateReq, Resp as GetClockRateResp,
};
pub use crate::mailbox::msg::get_serial_num::{
    Repr as GetSerialNumRepr, Req as GetSerialNumReq, Resp as GetSerialNumResp,
};
pub use crate::mailbox::msg::get_temp::{Repr as GetTempRepr, Req as GetTempReq, Resp as GetTempResp};
pub use crate::mailbox::msg::get_vc_mem::{
    Repr as GetVcMemRepr, Req as GetVcMemReq, Resp as GetVcMemResp,
};
pub use crate::mailbox::msg::tag::Tag;

verus! {

/// Length of a message buffer, in words.
pub const BUFFER_LEN: usize = 36;

/// Size of a message buffer, in bytes.
pub const BUFFER_SIZE: usize = 144;

/// Size of the end tag, in bytes.
pub const LAST_TAG_SIZE: usize = 4;

/// First word is total size, second word is req/resp code
pub const HEADER_LEN: usize = 2;

pub const HEADER_SIZE: usize = 8;

pub const REQUEST_CODE: u32 = 0;

pub const RESPONSE_SUCCESS_CODE: u32 = 0x8000_0000;

pub const RESPONSE_ERROR_CODE: u32 = 0x8000_0001;

/// Request/response code word of a message.
#[derive(Debug, Clone, Copy, PartialEq, Eq, Structural, PartialOrd, Ord, Hash)]
pub enum ReqRespCode {
    Request,
    ResponseSuccess,
    ResponseError,
    Unknown(u32),
}

/// The code that a word stands for.
pub open spec fn code_of_word(w: u32) -> ReqRespCode {
    if w == REQUEST_CODE {
        ReqRespCode::Request
    } else if w == RESPONSE_SUCCESS_CODE {
        ReqRespCode::ResponseSuccess
    } else if w == RESPONSE_ERROR_CODE {
        ReqRespCode::ResponseError
    } else {
        ReqRespCode::Unknown(w)
    }
}

/// The word that stands for a code.
pub open spec fn code_word(c: ReqRespCode) -> u32 {
    match c {
        ReqRespCode::Request => REQUEST_CODE,
        ReqRespCode::ResponseSuccess => RESPONSE_SUCCESS_CODE,
        ReqRespCode::ResponseError => RESPONSE_ERROR_CODE,
        ReqRespCode::Unknown(c) => c,
    }
}

/// Decoding the word of a code gives the code back exactly when it is in
/// canonical form (`Unknown` never carries one of the three known words);
/// encoding the decoding of a word gives the word back.
pub proof fn lemma_code_word_roundtrip(c: ReqRespCode, w: u32)
    ensures
        code_of_word(code_word(c)) == c <==> !(c matches ReqRespCode::Unknown(v) && (v
            == REQUEST_CODE || v == RESPONSE_SUCCESS_CODE || v == RESPONSE_ERROR_CODE)),
        code_word(code_of_word(w)) == w,
{
}

/// The words of `v` from index `start` on.
pub(crate) fn words_from(v: &Vec<u32>, start: usize) -> (r: Vec<u32>)
    requires
        start <= v.len(),
    ensures
        r@ == v@.subrange(start as int, v@.len() as int),
{
    let mut r: Vec<u32> = Vec::new();
    let mut i = start;
    while i < v.len()
        invariant
            start <= i <= v.len(),
            r@ == v@.subrange(start as int, i as int),
        decreases v.len() - i,
    {
        r.push(v[i]);
        i = i + 1;
        assert(r@ =~= v@.subrange(start as int, i as int));
    }
    r
}

/// Overwrites the words of `v` from index `start` on with `src`.
pub(crate) fn write_words_from(v: &mut Vec<u32>, start: usize, src: &Vec<u32>)
    requires
        start + src.len() == old(v).len(),
    ensures
        final(v)@ == old(v)@.subrange(0, start as int) + src@,
{
    let ghost orig = v@;
    let mut i: usize = 0;
    while i < src.len()
        invariant
            start + src.len() == v.len(),
            orig.len() == v.len(),
            i <= src.len(),
            forall|k: int| 0 <= k < start ==> v@[k] == orig[k],
            forall|k: int| start <= k < start + i ==> v@[k] == src@[k - start],
        decreases src.len() - i,
    {
        v.set(start + i, src[i]);
        i = i + 1;
    }
    assert(v@ =~= orig.subrange(0, start as int) + src@);
}

/// The outcome of checking the length of a message buffer `s`.
pub open spec fn msg_len_check(s: Seq<u32>) -> Result<(), Error> {
    if s.len() < BUFFER_LEN {
        Err(Error::Truncated)
    } else if s.len() * 4 < s[0] {
        Err(Error::Malformed)
    } else {
        Ok(())
    }
}

/// A message view over a buffer of words: the total size in bytes, the
/// request/response code, then the tags.
#[derive(Debug)]
pub struct Msg {
    buffer: Vec<u32>,
}

impl View for Msg {
    type V = Seq<u32>;

    closed spec fn view(&self) -> Seq<u32> {
        self.buffer@
    }
}

impl Msg {
    pub fn new_unchecked(buffer: Vec<u32>) -> (r: Msg)
        ensures
            r@ == buffer@,
    {
        Msg { buffer }
    }

    pub fn new_checked(buffer: Vec<u32>) -> (r: Result<Msg, Error>)
        ensures
            match msg_len_check(buffer@) {
                Ok(_) => r is Ok && r->Ok_0@ == buffer@,
                Err(e) => r == Err::<Msg, Error>(e),
            },
    {
        let packet = Self::new_unchecked(buffer);
        match packet.check_len() {
            Ok(()) => Ok(packet),
            Err(e) => Err(e),
        }
    }

    pub fn check_len(&self) -> (r: Result<(), Error>)
        ensures
            r == msg_len_check(self@),
    {
        let len = self.buffer.len();
        if len < BUFFER_LEN {
            Err(Error::Truncated)
        } else if (len as u64) < (self.buffer[0] as u64 + 3) / 4 {
            Err(Error::Malformed)
        } else {
            Ok(())
        }
    }

    pub fn into_inner(self) -> (r: Vec<u32>)
        ensures
            r@ == self@,
    {
        self.buffer
    }

    pub fn header_size() -> (r: usize)
        ensures
            r == HEADER_SIZE,
    {
        HEADER_SIZE
    }

    /// Size in bytes
    pub fn buffer_size(&self) -> (r: usize)
        requires
            self@.len() >= 1,
        ensures
            r == self@[0],
    {
        self.buffer[0] as usize
    }

    pub fn reqresp_code(&self) -> (r: ReqRespCode)
        requires
            self@.len() >= 2,
        ensures
            r == code_of_word(self@[1]),
    {
        let code = self.buffer[1];
        if code == REQUEST_CODE {
            ReqRespCode::Request
        } else if code == RESPONSE_SUCCESS_CODE {
            ReqRespCode::ResponseSuccess
        } else if code == RESPONSE_ERROR_CODE {
            ReqRespCode::ResponseError
        } else {
            ReqRespCode::Unknown(code)
        }
    }

    /// The words after the header.
    pub fn payload(&self) -> (r: Vec<u32>)
        requires
            self@.len() >= HEADER_LEN,
        ensures
            r@ == self@.subrange(HEADER_LEN as int, self@.len() as int),
    {
        words_from(&self.buffer, HEADER_LEN)
    }

    pub fn set_buffer_size(&mut self, size: usize)
        requires
            old(self)@.len() >= 1,
        ensures
            final(self)@ == old(self)@.update(0, size as u32),
    {
        self.buffer.set(0, size as u32);
    }

    pub fn set_reqresp_code(&mut self, code: ReqRespCode)
        requires
            old(self)@.len() >= 2,
        ensures
            final(self)@ == old(self)@.update(1, code_word(code)),
    {
        let w = match code {
            ReqRespCode::Request => REQUEST_CODE,
            ReqRespCode::ResponseSuccess => RESPONSE_SUCCESS_CODE,
            ReqRespCode::ResponseError => RESPONSE_ERROR_CODE,
            ReqRespCode::Unknown(c) => c,
        };
        self.buffer.set(1, w);
    }

    /// Overwrites the words after the header.
    pub fn set_payload(&mut self, payload: &Vec<u32>)
        requires
            old(self)@.len() == HEADER_LEN + payload@.len(),
        ensures
            final(self)@ == old(self)@.subrange(0, HEADER_LEN as int) + payload@,
    {
        write_words_from(&mut self.buffer, HEADER_LEN, payload);
    }

    /// Writes the end tag in the last word that the message size covers.
    pub fn fill_last_tag(&mut self) -> (r: Result<(), Error>)
        requires
            old(self)@.len() >= 1,
            old(self)@[0] % 4 == 0 ==> 1 <= old(self)@[0] / 4 <= old(self)@.len(),
        ensures
            old(self)@[0] % 4 != 0 ==> r == Err::<(), Error>(Error::MessageWordAlign)
                && final(self)@ == old(self)@,
            old(self)@[0] % 4 == 0 ==> r == Ok::<(), Error>(()) && final(self)@ == old(
                self,
            )@.update(old(self)@[0] / 4 - 1, 0),
    {
        let size_bytes = self.buffer[0];
        if (size_bytes % 4) != 0 {
            Err(Error::MessageWordAlign)
        } else {
            let size_words = size_bytes as usize / 4;
            self.buffer.set(size_words - 1, u32::from(TagId::Last));
            Ok(())
        }
    }
}

/// Something that writes a request message into a buffer.
pub trait MsgEmitter {
    /// Size in bytes of the message that is emitted.
    spec fn emitted_size(&self) -> nat;

    /// Whether emitting into a buffer of `len` words reads and writes only
    /// words that exist.
    spec fn emit_allowed(&self, len: nat) -> bool;

    /// The buffer after emitting into `s`.
    spec fn emitted(&self, s: Seq<u32>) -> Seq<u32>;

    /// What emitting into `s` returns.
    spec fn emit_outcome(&self, s: Seq<u32>) -> Result<(), Error>;

    /// Return the size of a message that will be emitted from this high-level
    /// representation
    fn msg_size(&self) -> (r: usize)
        ensures
            r == self.emitted_size(),
    ;

    fn emit_msg(&self, msg: &mut Msg) -> (r: Result<(), Error>)
        requires
            self.emit_allowed(old(msg)@.len()),
        ensures
            final(msg)@ == self.emitted(old(msg)@),
            r == self.emit_outcome(old(msg)@),
    ;
}

/// A request message of one of the kinds this crate builds.
#[derive(Debug, PartialEq, Eq, Structural, Clone, Copy)]
pub enum ReqMsg {
    GetTemp(GetTempRepr),
    GetArmMem(GetArmMemRepr),
    GetVcMem(GetVcMemRepr),
    GetClockRate(GetClockRateRepr),
    GetSerialNum(GetSerialNumRepr),
    AllocFramebuffer(AllocFramebufferRepr),
}

/// A parsed response message.
#[derive(Debug, PartialEq, Eq, Structural, Clone, Copy)]
pub enum RespMsg {
    GetTemp(GetTempRepr),
    GetArmMem(GetArmMemRepr),
    GetVcMem(GetVcMemRepr),
    GetClockRate(GetClockRateRepr),
    GetSerialNum(GetSerialNumRepr),
    AllocFramebuffer(AllocFramebufferRepr),
}

/// The buffers on which parsing a response message reads and slices only
/// within the buffer.
pub open spec fn resp_msg_parse_defined(s: Seq<u32>) -> bool {
    &&& s.len() >= 2
    &&& (s.len() >= 5 && decode_tag(s[2]) == Ok::<TagId, Error>(TagId::SetPhySize))
        ==> fb_parse_defined(s)
}

/// What parsing the response message `s` returns.
pub open spec fn resp_msg_parse_ok(s: Seq<u32>, r: Result<RespMsg, Error>) -> bool {
    if s.len() < 5 {
        r == Err::<RespMsg, Error>(Error::Truncated)
    } else {
        match decode_tag(s[2]) {
            Err(e) => r == Err::<RespMsg, Error>(e),
            Ok(TagId::GetTemperature) => match pair_parse(s, TagId::GetTemperature) {
                Ok(v) => r matches Ok(RespMsg::GetTemp(x)) && x@ == v,
                Err(e) => r == Err::<RespMsg, Error>(e),
            },
            Ok(TagId::GetArmMem) => match pair_parse(s, TagId::GetArmMem) {
                Ok(v) => r matches Ok(RespMsg::GetArmMem(x)) && x@ == v,
                Err(e) => r == Err::<RespMsg, Error>(e),
            },
            Ok(TagId::GetVcMem) => match pair_parse(s, TagId::GetVcMem) {
                Ok(v) => r matches Ok(RespMsg::GetVcMem(x)) && x@ == v,
                Err(e) => r == Err::<RespMsg, Error>(e),
            },
            Ok(TagId::GetClockRate) => match clock_rate_parse(s) {
                Ok(v) => r matches Ok(RespMsg::GetClockRate(x)) && x@ == v,
                Err(e) => r == Err::<RespMsg, Error>(e),
            },
            Ok(TagId::GetSerialNum) => match pair_parse(s, TagId::GetSerialNum) {
                Ok((lo, hi)) => r matches Ok(RespMsg::GetSerialNum(x)) && x@ == serial_of(lo, hi),
                Err(e) => r == Err::<RespMsg, Error>(e),
            },
            Ok(TagId::SetPhySize) => match fb_parse_outcome(s) {
                Ok(_) => r matches Ok(RespMsg::AllocFramebuffer(x)) && x@ == response_fields(
                    s.subrange(5, s.len() as int),
                ),
                Err(e) => r == Err::<RespMsg, Error>(e),
            },
            Ok(t) => r == Err::<RespMsg, Error>(Error::UnkownTagId(tag_word(t))),
        }
    }
}

impl RespMsg {
    /// Parses a response message by the identifier of its first tag.
    pub fn try_from(m: &Msg) -> (r: Result<RespMsg, Error>)
        requires
            resp_msg_parse_defined(m@),
        ensures
            resp_msg_parse_ok(m@, r),
    {
        let tag = match Tag::new_checked(m.payload()) {
            Ok(t) => t,
            Err(e) => return Err(e),
        };
        assert(tag@[0] == m@[2]);
        let tag_id = match tag.tag_id() {
            Ok(t) => t,
            Err(e) => return Err(e),
        };
        match tag_id {
            TagId::GetTemperature => match GetTempRepr::parse_response(m) {
                Ok(repr) => Ok(RespMsg::GetTemp(repr)),
                Err(e) => Err(e),
            },
            TagId::GetArmMem => match GetArmMemRepr::parse_response(m) {
                Ok(repr) => Ok(RespMsg::GetArmMem(repr)),
                Err(e) => Err(e),
            },
            TagId::GetVcMem => match GetVcMemRepr::parse_response(m) {
                Ok(repr) => Ok(RespMsg::GetVcMem(repr)),
                Err(e) => Err(e),
            },
            TagId::GetSerialNum => match GetSerialNumRepr::parse_response(m) {
                Ok(repr) => Ok(RespMsg::GetSerialNum(repr)),
                Err(e) => Err(e),
            },
            TagId::GetClockRate => match GetClockRateRepr::parse_response(m) {
                Ok(repr) => Ok(RespMsg::GetClockRate(repr)),
                Err(e) => Err(e),
            },
            // The framebuffer response is recognised by its first tag
            TagId::SetPhySize => match AllocFramebufferRepr::parse_response(m) {
                Ok(repr) => Ok(RespMsg::AllocFramebuffer(repr)),
                Err(e) => Err(e),
            },
            _ => Err(Error::UnkownTagId(u32::from(tag_id))),
        }
    }
}

impl MsgEmitter for ReqMsg {
    open spec fn emitted_size(&self) -> nat {
        match self {
            ReqMsg::AllocFramebuffer(_) => alloc_framebuffer::MSG_SIZE as nat,
            ReqMsg::GetClockRate(_) => get_clock_rate::MSG_SIZE as nat,
            _ => word_pair::MSG_SIZE as nat,
        }
    }

    open spec fn emit_allowed(&self, len: nat) -> bool {
        match self {
            ReqMsg::AllocFramebuffer(_) => len >= 35,
            _ => len >= 6 && len != 7,
        }
    }

    open spec fn emitted(&self, s: Seq<u32>) -> Seq<u32> {
        match self {
            ReqMsg::GetTemp(repr) => pair_request(s, TagId::GetTemperature, Some(repr@.0)),
            ReqMsg::GetArmMem(_) => pair_request(s, TagId::GetArmMem, None),
            ReqMsg::GetVcMem(_) => pair_request(s, TagId::GetVcMem, None),
            ReqMsg::GetClockRate(repr) => clock_rate_request(s, repr@.0),
            ReqMsg::GetSerialNum(_) => pair_request(s, TagId::GetSerialNum, None),
            ReqMsg::AllocFramebuffer(repr) => fb_request(s, repr@),
        }
    }

    open spec fn emit_outcome(&self, s: Seq<u32>) -> Result<(), Error> {
        match self {
            ReqMsg::GetClockRate(_) => clock_rate_emit_result(s.len()),
            ReqMsg::AllocFramebuffer(_) => fb_emit_result(s.len()),
            _ => pair_emit_result(s.len()),
        }
    }

    fn msg_size(&self) -> (r: usize) {
        match self {
            ReqMsg::AllocFramebuffer(_) => alloc_framebuffer::MSG_SIZE as usize,
            ReqMsg::GetClockRate(_) => get_clock_rate::MSG_SIZE as usize,
            _ => word_pair::MSG_SIZE as usize,
        }
    }

    fn emit_msg(&self, msg: &mut Msg) -> (r: Result<(), Error>) {
        match self {
            ReqMsg::GetTemp(repr) => repr.emit_request(msg),
            ReqMsg::GetArmMem(repr) => repr.emit_request(msg),
            ReqMsg::GetVcMem(repr) => repr.emit_request(msg),
            ReqMsg::GetClockRate(repr) => repr.emit_request(msg),
            ReqMsg::GetSerialNum(repr) => repr.emit_request(msg),
            ReqMsg::AllocFramebuffer(repr) => repr.emit_request(msg),
        }
    }
}

/// The debug text of a request/response code.
pub open spec fn code_text(c: ReqRespCode) -> Seq<char> {
    match c {
        ReqRespCode::Request => "Request"@,
        ReqRespCode::ResponseSuccess => "ResponseSuccess"@,
        ReqRespCode::ResponseError => "ResponseError"@,
        ReqRespCode::Unknown(v) => "Unknown("@ + decimal(v as nat) + ")"@,
    }
}

fn push_str(s: &mut String, t: &str)
    ensures
        final(s)@ == old(s)@ + t@,
{
    s.append(t);
}

impl Msg {
    /// The text `Mbox Msg { Size <bytes> Code <code> }`.
    pub fn to_string(&self) -> (r: String)
        requires
            self@.len() >= 2,
        ensures
            r@ == "Mbox Msg { Size "@ + decimal(self@[0] as nat) + " Code "@ + code_text(
                code_of_word(self@[1]),
            ) + " }"@,
    {
        let mut s = String::new();
        push_str(&mut s, "Mbox Msg { Size ");
        push_decimal(&mut s, self.buffer_size() as u64);
        push_str(&mut s, " Code ");
        let ghost before = s@;
        match self.reqresp_code() {
            ReqRespCode::Request => push_str(&mut s, "Request"),
            ReqRespCode::ResponseSuccess => push_str(&mut s, "ResponseSuccess"),
            ReqRespCode::ResponseError => push_str(&mut s, "ResponseError"),
            ReqRespCode::Unknown(v) => {
                push_str(&mut s, "Unknown(");
                push_decimal(&mut s, v as u64);
                push_str(&mut s, ")");
                assert(s@ =~= before + ("Unknown("@ + decimal(v as nat) + ")"@));
            },
        }
        push_str(&mut s, " }");
        s
    }
}

impl AsRef<[u32]> for Msg {
    fn as_ref(&self) -> (r: &[u32])
        ensures
            r@ == self@,
    {
        self.buffer.as_slice()
    }
}

} // verus!
