//! VideoCore mailbox: message buffers and the property interface.
use vstd::prelude::*;

pub mod msg;
pub mod tag_id;

pub use crate::mailbox::tag_id::TagId;
pub use crate::mailbox::msg::{
    code_of_word, code_word, resp_msg_parse_defined, resp_msg_parse_ok, AllocFramebufferRepr,
    AllocFramebufferReq, AllocFramebufferResp, GetArmMemRepr, GetArmMemReq, GetArmMemResp,
    GetClockRateRepr, GetClockRateReq, GetClockRateResp, GetSerialNumRepr, GetSerialNumReq,
    GetSerialNumResp, GetTempRepr, GetTempReq, GetTempResp, GetVcMemRepr, GetVcMemReq,
    GetVcMemResp, Msg, MsgEmitter, PixelOrder, ReqMsg, ReqRespCode, RespMsg, Tag, BUFFER_LEN,
    BUFFER_SIZE, LAST_TAG_SIZE, REQUEST_CODE, RESPONSE_ERROR_CODE, RESPONSE_SUCCESS_CODE,
};

verus! {

/// Mailbox errors
#[derive(Debug, Copy, Clone, PartialEq, Eq, Structural)]
pub enum Error {
    UnkownTagId(u32),
    Truncated,
    MessageWordAlign,
    Malformed,
    /// The response buffer has error bit(s) set
    BadRequest,
    /// Status word was not recognized
    BadStatusWord,
    /// Unknown error
    Unknown,
}

/// Mailbox channels
#[derive(Debug, Copy, Clone, PartialEq, Eq, Structural)]
pub enum Channel {
    /// Property channel
    Prop,
}

/// The number that identifies a channel.
pub open spec fn channel_number(c: Channel) -> u32 {
    match c {
        Channel::Prop => 8,
    }
}

impl vstd::std_specs::convert::FromSpecImpl<Channel> for u32 {
    open spec fn obeys_from_spec() -> bool {
        true
    }

    open spec fn from_spec(v: Channel) -> u32 {
        channel_number(v)
    }
}

impl From<Channel> for u32 {
    fn from(c: Channel) -> (r: u32)
        ensures
            r == channel_number(c),
    {
        match c {
            Channel::Prop => 8,
        }
    }
}

/// The message buffer handed to the VideoCore. Its address must be 16-byte
/// aligned (the low four bits of the mailbox word carry the channel).
pub struct MailboxBuffer(pub [u32; BUFFER_LEN]);

impl MailboxBuffer {
    pub fn new() -> (r: Self)
        ensures
            r.0@ == Seq::new(BUFFER_LEN as nat, |i: int| 0u32),
    {
        MailboxBuffer([0; BUFFER_LEN])
    }

    /// The words of the buffer, to frame a message over.
    pub fn to_vec(&self) -> (r: Vec<u32>)
        ensures
            r@ == self.0@,
    {
        let mut v: Vec<u32> = Vec::new();
        let mut i: usize = 0;
        while i < BUFFER_LEN
            invariant
                i <= BUFFER_LEN,
                v@ == self.0@.subrange(0, i as int),
            decreases BUFFER_LEN - i,
        {
            v.push(self.0[i]);
            i = i + 1;
            assert(v@ =~= self.0@.subrange(0, i as int));
        }
        assert(v@ =~= self.0@);
        v
    }

    /// Copies the words of a message back into the buffer.
    pub fn copy_from(&mut self, words: &Vec<u32>)
        requires
            words@.len() == BUFFER_LEN,
        ensures
            final(self).0@ == words@,
    {
        let mut i: usize = 0;
        while i < BUFFER_LEN
            invariant
                i <= BUFFER_LEN,
                words@.len() == BUFFER_LEN,
                self.0@.len() == BUFFER_LEN,
                forall|k: int| 0 <= k < i ==> self.0@[k] == words@[k],
            decreases BUFFER_LEN - i,
        {
            self.0[i] = words[i];
            i = i + 1;
        }
        assert(self.0@ =~= words@);
    }
}

/// The word written to the mailbox to send the message at `buffer_paddr` on
/// `channel`: the address with its low four bits replaced by the channel.
pub fn mailbox_write_word(buffer_paddr: u32, channel: Channel) -> (r: u32)
    ensures
        r == (buffer_paddr & !0xFu32) | (channel_number(channel) & 0xF),
{
    (buffer_paddr & !0xF) | (u32::from(channel) & 0xF)
}

/// Whether a word read from the mailbox answers the message at
/// `buffer_paddr` sent on `channel`.
pub fn is_response_for(resp_word: u32, channel: Channel, buffer_paddr: u32) -> (r: bool)
    ensures
        r == ((resp_word & 0xF) == channel_number(channel) && (resp_word & !0xFu32)
            == buffer_paddr),
{
    ((resp_word & 0xF) == u32::from(channel)) && ((resp_word & !0xF) == buffer_paddr)
}

/// What a call returns once the VideoCore has answered in `msg`: the parsed
/// response on success, `BadRequest` when the answer carries the error code,
/// `BadStatusWord` for any other code.
pub fn response_result(msg: &Msg) -> (r: Result<RespMsg, Error>)
    requires
        msg@.len() >= 2,
        code_of_word(msg@[1]) == ReqRespCode::ResponseSuccess ==> resp_msg_parse_defined(msg@),
    ensures
        code_of_word(msg@[1]) == ReqRespCode::ResponseSuccess ==> resp_msg_parse_ok(msg@, r),
        code_of_word(msg@[1]) == ReqRespCode::ResponseError ==> r == Err::<RespMsg, Error>(
            Error::BadRequest,
        ),
        code_of_word(msg@[1]) != ReqRespCode::ResponseSuccess && code_of_word(msg@[1])
            != ReqRespCode::ResponseError ==> r == Err::<RespMsg, Error>(Error::BadStatusWord),
{
    match msg.reqresp_code() {
        ReqRespCode::ResponseSuccess => RespMsg::try_from(msg),
        ReqRespCode::ResponseError => Err(Error::BadRequest),
        _ => Err(Error::BadStatusWord),
    }
}

/// The mailbox recognises the answer to a message by the word it was sent
/// with: that word is taken as the answer on its channel exactly when the
/// buffer address is 16-byte aligned; on a misaligned buffer no word is.
pub proof fn lemma_write_word_recognised(buffer_paddr: u32, channel: Channel, resp_word: u32)
    ensures
        ((resp_word & 0xF) == channel_number(channel) && (resp_word & !0xFu32) == buffer_paddr)
            ==> buffer_paddr % 16 == 0,
        ({
            let w = (buffer_paddr & !0xFu32) | (channel_number(channel) & 0xF);
            ((w & 0xF) == channel_number(channel) && (w & !0xFu32) == buffer_paddr) <==> buffer_paddr
                % 16 == 0
        }),
{
    let c = channel_number(channel);
    assert(c == 8);
    assert(((resp_word & 0xF) == c && (resp_word & !0xFu32) == buffer_paddr) ==> buffer_paddr % 16
        == 0) by (bit_vector);
    let w = (buffer_paddr & !0xFu32) | (c & 0xF);
    assert(((w & 0xF) == c && (w & !0xFu32) == buffer_paddr) <==> buffer_paddr % 16 == 0)
        by (bit_vector)
        requires
            c == 8,
            w == (buffer_paddr & !0xFu32) | (c & 0xF),
    ;
}

} // verus!
