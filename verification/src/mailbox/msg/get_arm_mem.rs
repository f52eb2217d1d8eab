//! The GetArmMem message: the base address and size of the memory split off for the ARM cores.
use vstd::prelude::*;
use crate::mailbox::{Error, TagId};
use crate::mailbox::msg::{Msg, MsgEmitter, Tag, LAST_TAG_SIZE};
use crate::mailbox::msg::word_pair::{
    emit_pair, pair_emit_result, pair_parse, pair_parse_defined, pair_request, parse_pair, MSG_SIZE,
};

verus! {

const TAG: TagId = TagId::GetArmMem;

/// Size in bytes of the response value buffer.
pub const RESP_SIZE: usize = 8;

/// Request value buffer: the request carries no value.
#[derive(Debug)]
pub struct Req {
    buffer: Vec<u32>,
}

impl View for Req {
    type V = Seq<u32>;

    closed spec fn view(&self) -> Seq<u32> {
        self.buffer@
    }
}

impl Req {
    pub fn new_unchecked(buffer: Vec<u32>) -> (r: Req)
        ensures
            r@ == buffer@,
    {
        Req { buffer }
    }

    pub fn new_checked(buffer: Vec<u32>) -> (r: Result<Req, Error>)
        ensures
            buffer@.len() < 2 ==> r == Err::<Req, Error>(Error::Truncated),
            buffer@.len() >= 2 ==> r is Ok && r->Ok_0@ == buffer@,
    {
        let v = Self::new_unchecked(buffer);
        match v.check_len() {
            Ok(()) => Ok(v),
            Err(e) => Err(e),
        }
    }

    pub fn check_len(&self) -> (r: Result<(), Error>)
        ensures
            self@.len() < 2 ==> r == Err::<(), Error>(Error::Truncated),
            self@.len() >= 2 ==> r == Ok::<(), Error>(()),
    {
        if self.buffer.len() < 2 {
            Err(Error::Truncated)
        } else {
            Ok(())
        }
    }

    pub fn into_inner(self) -> (r: Vec<u32>)
        ensures
            r@ == self@,
    {
        self.buffer
    }
}

impl AsRef<[u32]> for Req {
    fn as_ref(&self) -> (r: &[u32])
        ensures
            r@ == self@,
    {
        self.buffer.as_slice()
    }
}

/// Response value buffer: the base address and the size in bytes of the
/// memory split off for the ARM cores.
#[derive(Debug)]
pub struct Resp {
    buffer: Vec<u32>,
}

impl View for Resp {
    type V = Seq<u32>;

    closed spec fn view(&self) -> Seq<u32> {
        self.buffer@
    }
}

impl Resp {
    pub fn new_unchecked(buffer: Vec<u32>) -> (r: Resp)
        ensures
            r@ == buffer@,
    {
        Resp { buffer }
    }

    pub fn new_checked(buffer: Vec<u32>) -> (r: Result<Resp, Error>)
        ensures
            buffer@.len() < 2 ==> r == Err::<Resp, Error>(Error::Truncated),
            buffer@.len() >= 2 ==> r is Ok && r->Ok_0@ == buffer@,
    {
        let v = Self::new_unchecked(buffer);
        match v.check_len() {
            Ok(()) => Ok(v),
            Err(e) => Err(e),
        }
    }

    pub fn check_len(&self) -> (r: Result<(), Error>)
        ensures
            self@.len() < 2 ==> r == Err::<(), Error>(Error::Truncated),
            self@.len() >= 2 ==> r == Ok::<(), Error>(()),
    {
        if self.buffer.len() < 2 {
            Err(Error::Truncated)
        } else {
            Ok(())
        }
    }

    pub fn into_inner(self) -> (r: Vec<u32>)
        ensures
            r@ == self@,
    {
        self.buffer
    }

    /// Base address
    pub fn base(&self) -> (r: u32)
        requires
            self@.len() >= 1,
        ensures
            r == self@[0],
    {
        self.buffer[0]
    }

    /// Size in bytes
    pub fn size(&self) -> (r: u32)
        requires
            self@.len() >= 2,
        ensures
            r == self@[1],
    {
        self.buffer[1]
    }
}

impl AsRef<[u32]> for Resp {
    fn as_ref(&self) -> (r: &[u32])
        ensures
            r@ == self@,
    {
        self.buffer.as_slice()
    }
}

/// A high-level representation of a GetArmMem command/response
#[derive(Debug, PartialEq, Eq, Structural, Clone, Copy)]
pub struct Repr {
    /// Base address
    base: u32,
    /// Size in bytes
    size: u32,
}

impl View for Repr {
    type V = (u32, u32);

    closed spec fn view(&self) -> (u32, u32) {
        (self.base, self.size)
    }
}

/// A default GetArmMem request
impl Default for Repr {
    fn default() -> (r: Repr)
        ensures
            r@ == (0u32, 0u32),
    {
        Repr { base: 0, size: 0 }
    }
}

impl Repr {
    pub fn new() -> (r: Self)
        ensures
            r@ == (0u32, 0u32),
    {
        Repr { base: 0, size: 0 }
    }

    /// Base address
    pub fn base(&self) -> (r: u32)
        ensures
            r == self@.0,
    {
        self.base
    }

    /// Size in bytes
    pub fn size(&self) -> (r: u32)
        ensures
            r == self@.1,
    {
        self.size
    }

    pub fn parse_response(msg: &Msg) -> (r: Result<Repr, Error>)
        requires
            pair_parse_defined(msg@),
        ensures
            match pair_parse(msg@, TagId::GetArmMem) {
                Ok(v) => r is Ok && r->Ok_0@ == v,
                Err(e) => r == Err::<Repr, Error>(e),
            },
    {
        match parse_pair(msg, TAG) {
            Ok((base, size)) => Ok(Repr { base, size }),
            Err(e) => Err(e),
        }
    }

    /// Return the size of a packet that will be emitted from this high-level
    /// representation
    pub fn buffer_size(&self) -> (r: usize)
        ensures
            r == RESP_SIZE,
    {
        // Request and response are the same size/shape
        RESP_SIZE
    }

    pub fn emit_request(&self, msg: &mut Msg) -> (r: Result<(), Error>)
        requires
            old(msg)@.len() >= 6,
            old(msg)@.len() != 7,
        ensures
            final(msg)@ == pair_request(old(msg)@, TagId::GetArmMem, None::<u32>),
            r == pair_emit_result(old(msg)@.len()),
    {
        emit_pair(msg, TAG, None)
    }
}

impl MsgEmitter for Repr {
    open spec fn emitted_size(&self) -> nat {
        MSG_SIZE as nat
    }

    open spec fn emit_allowed(&self, len: nat) -> bool {
        len >= 6 && len != 7
    }

    open spec fn emitted(&self, s: Seq<u32>) -> Seq<u32> {
        pair_request(s, TagId::GetArmMem, None::<u32>)
    }

    open spec fn emit_outcome(&self, s: Seq<u32>) -> Result<(), Error> {
        pair_emit_result(s.len())
    }

    fn msg_size(&self) -> (r: usize) {
        Msg::header_size() + Tag::header_size() + RESP_SIZE + LAST_TAG_SIZE
    }

    fn emit_msg(&self, msg: &mut Msg) -> (r: Result<(), Error>) {
        self.emit_request(msg)
    }
}

} // verus!
