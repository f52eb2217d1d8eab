//! The framebuffer allocation message. Its first tag's value buffer holds
//! the other tags: physical size, virtual size, virtual offset, depth, pixel
//! order, buffer allocation and pitch.
use vstd::prelude::*;
use crate::cache::{bus_address_bits, cpu_address_bits};
use crate::mailbox::{Error, TagId};
use crate::mailbox::tag_id::{decode_tag, tag_word};
use crate::mailbox::msg::{
    code_of_word, words_from, Msg, MsgEmitter, ReqRespCode, Tag, LAST_TAG_SIZE,
    RESPONSE_SUCCESS_CODE,
};

verus! {

pub const REQ_LEN: usize = 29;

pub const REQ_SIZE: usize = 116;

pub const RESP_LEN: usize = 29;

pub const RESP_SIZE: usize = 116;

/// Size in bytes of a whole framebuffer message: header, tag header, value
/// buffer and end tag.
pub const MSG_SIZE: u32 = 140;

pub const DEFAULT_ALIGN: usize = 4096;

/// Request value buffer (the tags after the physical size are inside it).
#[derive(Debug)]
pub struct Req {
    buffer: Vec<u32>,
}

impl View for Req {
    type V = Seq<u32>;

    closed spec fn view(&self) -> Seq<u32> {
        self.buffer@
    }
}

impl Req {
    pub fn new_unchecked(buffer: Vec<u32>) -> (r: Req)
        ensures
            r@ == buffer@,
    {
        Req { buffer }
    }

    pub fn new_checked(buffer: Vec<u32>) -> (r: Result<Req, Error>)
        ensures
            buffer@.len() < REQ_LEN ==> r == Err::<Req, Error>(Error::Truncated),
            buffer@.len() >= REQ_LEN ==> r is Ok && r->Ok_0@ == buffer@,
    {
        let req = Self::new_unchecked(buffer);
        match req.check_len() {
            Ok(()) => Ok(req),
            Err(e) => Err(e),
        }
    }

    pub fn check_len(&self) -> (r: Result<(), Error>)
        ensures
            self@.len() < REQ_LEN ==> r == Err::<(), Error>(Error::Truncated),
            self@.len() >= REQ_LEN ==> r == Ok::<(), Error>(()),
    {
        if self.buffer.len() < REQ_LEN {
            Err(Error::Truncated)
        } else {
            Ok(())
        }
    }

    pub fn into_inner(self) -> (r: Vec<u32>)
        ensures
            r@ == self@,
    {
        self.buffer
    }

    pub fn phy_width(&self) -> (r: u32)
        requires
            self@.len() > 0,
        ensures
            r == self@[0],
    {
        self.buffer[0]
    }

    pub fn phy_height(&self) -> (r: u32)
        requires
            self@.len() > 1,
        ensures
            r == self@[1],
    {
        self.buffer[1]
    }

    pub fn virt_width(&self) -> (r: u32)
        requires
            self@.len() > 5,
        ensures
            r == self@[5],
    {
        self.buffer[5]
    }

    pub fn virt_height(&self) -> (r: u32)
        requires
            self@.len() > 6,
        ensures
            r == self@[6],
    {
        self.buffer[6]
    }

    pub fn x_offset(&self) -> (r: u32)
        requires
            self@.len() > 10,
        ensures
            r == self@[10],
    {
        self.buffer[10]
    }

    pub fn y_offset(&self) -> (r: u32)
        requires
            self@.len() > 11,
        ensures
            r == self@[11],
    {
        self.buffer[11]
    }

    pub fn depth(&self) -> (r: u32)
        requires
            self@.len() > 15,
        ensures
            r == self@[15],
    {
        self.buffer[15]
    }

    pub fn pixel_order(&self) -> (r: PixelOrder)
        requires
            self@.len() > 19,
        ensures
            r == pixel_order_of_word(self@[19]),
    {
        PixelOrder::from(self.buffer[19])
    }

    pub fn buffer_alignment(&self) -> (r: u32)
        requires
            self@.len() > 23,
        ensures
            r == self@[23],
    {
        self.buffer[23]
    }

    pub fn pitch(&self) -> (r: u32)
        requires
            self@.len() > 28,
        ensures
            r == self@[28],
    {
        self.buffer[28]
    }

    pub fn set_phy_size(&mut self, width: u32, height: u32)
        requires
            old(self)@.len() > 1,
        ensures
            final(self)@ == old(self)@.update(0, width).update(1, height),
    {
        self.buffer.set(0, width);
        self.buffer.set(1, height);
    }

    pub fn set_virt_size(&mut self, width: u32, height: u32)
        requires
            old(self)@.len() > 6,
        ensures
            final(self)@ == old(self)@.update(2, tag_word(TagId::SetVirtSize)).update(3, 8).update(
                4,
                8,
            ).update(5, width).update(6, height),
    {
        self.buffer.set(2, u32::from(TagId::SetVirtSize));
        self.buffer.set(3, 8);
        self.buffer.set(4, 8);
        self.buffer.set(5, width);
        self.buffer.set(6, height);
    }

    pub fn set_virt_offset(&mut self, x: u32, y: u32)
        requires
            old(self)@.len() > 11,
        ensures
            final(self)@ == old(self)@.update(7, tag_word(TagId::SetVirtOffset)).update(
                8,
                8,
            ).update(9, 8).update(10, x).update(11, y),
    {
        self.buffer.set(7, u32::from(TagId::SetVirtOffset));
        self.buffer.set(8, 8);
        self.buffer.set(9, 8);
        self.buffer.set(10, x);
        self.buffer.set(11, y);
    }

    pub fn set_depth(&mut self, depth: u32)
        requires
            old(self)@.len() > 15,
        ensures
            final(self)@ == old(self)@.update(12, tag_word(TagId::SetDepth)).update(13, 4).update(
                14,
                4,
            ).update(15, depth),
    {
        self.buffer.set(12, u32::from(TagId::SetDepth));
        self.buffer.set(13, 4);
        self.buffer.set(14, 4);
        self.buffer.set(15, depth);
    }

    pub fn set_pixel_order(&mut self, po: PixelOrder)
        requires
            old(self)@.len() > 19,
        ensures
            final(self)@ == old(self)@.update(16, tag_word(TagId::SetPixelOrder)).update(
                17,
                4,
            ).update(18, 4).update(19, pixel_order_word(po)),
    {
        self.buffer.set(16, u32::from(TagId::SetPixelOrder));
        self.buffer.set(17, 4);
        self.buffer.set(18, 4);
        self.buffer.set(19, u32::from(po));
    }

    pub fn set_alloc_buffer(&mut self, align: u32)
        requires
            old(self)@.len() > 24,
        ensures
            final(self)@ == old(self)@.update(20, tag_word(TagId::AllocBuffer)).update(
                21,
                8,
            ).update(22, 8).update(23, align).update(24, 0),
    {
        self.buffer.set(20, u32::from(TagId::AllocBuffer));
        self.buffer.set(21, 8);
        self.buffer.set(22, 8);
        self.buffer.set(23, align);
        self.buffer.set(24, 0);
    }

    pub fn set_get_pitch(&mut self)
        requires
            old(self)@.len() > 28,
        ensures
            final(self)@ == old(self)@.update(25, tag_word(TagId::GetPitch)).update(26, 4).update(
                27,
                4,
            ).update(28, 0),
    {
        self.buffer.set(25, u32::from(TagId::GetPitch));
        self.buffer.set(26, 4);
        self.buffer.set(27, 4);
        self.buffer.set(28, 0);
    }
}

/// Response value buffer.
#[derive(Debug)]
pub struct Resp {
    buffer: Vec<u32>,
}

impl View for Resp {
    type V = Seq<u32>;

    closed spec fn view(&self) -> Seq<u32> {
        self.buffer@
    }
}

impl Resp {
    pub fn new_unchecked(buffer: Vec<u32>) -> (r: Resp)
        ensures
            r@ == buffer@,
    {
        Resp { buffer }
    }

    pub fn new_checked(buffer: Vec<u32>) -> (r: Result<Resp, Error>)
        ensures
            buffer@.len() < RESP_LEN ==> r == Err::<Resp, Error>(Error::Truncated),
            buffer@.len() >= RESP_LEN ==> r is Ok && r->Ok_0@ == buffer@,
    {
        let resp = Self::new_unchecked(buffer);
        match resp.check_len() {
            Ok(()) => Ok(resp),
            Err(e) => Err(e),
        }
    }

    pub fn check_len(&self) -> (r: Result<(), Error>)
        ensures
            self@.len() < RESP_LEN ==> r == Err::<(), Error>(Error::Truncated),
            self@.len() >= RESP_LEN ==> r == Ok::<(), Error>(()),
    {
        if self.buffer.len() < RESP_LEN {
            Err(Error::Truncated)
        } else {
            Ok(())
        }
    }

    pub fn into_inner(self) -> (r: Vec<u32>)
        ensures
            r@ == self@,
    {
        self.buffer
    }

    pub fn phy_width(&self) -> (r: u32)
        requires
            self@.len() > 0,
        ensures
            r == self@[0],
    {
        self.buffer[0]
    }

    pub fn phy_height(&self) -> (r: u32)
        requires
            self@.len() > 1,
        ensures
            r == self@[1],
    {
        self.buffer[1]
    }

    pub fn virt_width(&self) -> (r: u32)
        requires
            self@.len() > 5,
        ensures
            r == self@[5],
    {
        self.buffer[5]
    }

    pub fn virt_height(&self) -> (r: u32)
        requires
            self@.len() > 6,
        ensures
            r == self@[6],
    {
        self.buffer[6]
    }

    pub fn x_offset(&self) -> (r: u32)
        requires
            self@.len() > 10,
        ensures
            r == self@[10],
    {
        self.buffer[10]
    }

    pub fn y_offset(&self) -> (r: u32)
        requires
            self@.len() > 11,
        ensures
            r == self@[11],
    {
        self.buffer[11]
    }

    pub fn depth(&self) -> (r: u32)
        requires
            self@.len() > 15,
        ensures
            r == self@[15],
    {
        self.buffer[15]
    }

    pub fn pixel_order(&self) -> (r: PixelOrder)
        requires
            self@.len() > 19,
        ensures
            r == pixel_order_of_word(self@[19]),
    {
        PixelOrder::from(self.buffer[19])
    }

    pub fn buffer_address(&self) -> (r: u32)
        requires
            self@.len() > 23,
        ensures
            r == self@[23],
    {
        self.buffer[23]
    }

    pub fn buffer_size(&self) -> (r: u32)
        requires
            self@.len() > 24,
        ensures
            r == self@[24],
    {
        self.buffer[24]
    }

    pub fn pitch(&self) -> (r: u32)
        requires
            self@.len() > 28,
        ensures
            r == self@[28],
    {
        self.buffer[28]
    }
}

/// Pixel order of a framebuffer.
#[derive(Debug, PartialEq, Eq, Structural, Clone, Copy)]
pub enum PixelOrder {
    BGR,
    RGB,
    Unknown(u32),
}

/// The word that stands for a pixel order.
pub open spec fn pixel_order_word(po: PixelOrder) -> u32 {
    match po {
        PixelOrder::BGR => 0,
        PixelOrder::RGB => 1,
        PixelOrder::Unknown(v) => v,
    }
}

/// The pixel order that a word stands for.
pub open spec fn pixel_order_of_word(v: u32) -> PixelOrder {
    if v == 0 {
        PixelOrder::BGR
    } else if v == 1 {
        PixelOrder::RGB
    } else {
        PixelOrder::Unknown(v)
    }
}

/// A pixel order in its canonical form: `Unknown` never carries the word of
/// a known order.
pub open spec fn pixel_order_canonical(po: PixelOrder) -> bool {
    match po {
        PixelOrder::Unknown(v) => v > 1,
        _ => true,
    }
}

impl vstd::std_specs::convert::FromSpecImpl<PixelOrder> for u32 {
    open spec fn obeys_from_spec() -> bool {
        true
    }

    open spec fn from_spec(v: PixelOrder) -> u32 {
        pixel_order_word(v)
    }
}

impl From<PixelOrder> for u32 {
    fn from(po: PixelOrder) -> (r: u32)
        ensures
            r == pixel_order_word(po),
    {
        match po {
            PixelOrder::BGR => 0,
            PixelOrder::RGB => 1,
            PixelOrder::Unknown(v) => v,
        }
    }
}

impl vstd::std_specs::convert::FromSpecImpl<u32> for PixelOrder {
    open spec fn obeys_from_spec() -> bool {
        true
    }

    open spec fn from_spec(v: u32) -> PixelOrder {
        pixel_order_of_word(v)
    }
}

impl From<u32> for PixelOrder {
    fn from(val: u32) -> (r: PixelOrder) {
        match val {
            0 => PixelOrder::BGR,
            1 => PixelOrder::RGB,
            _ => PixelOrder::Unknown(val),
        }
    }
}

/// Decoding the word of a pixel order gives it back exactly when it is
/// canonical; encoding the decoding of a word gives the word back.
pub proof fn lemma_pixel_order_roundtrip(po: PixelOrder, v: u32)
    ensures
        pixel_order_of_word(pixel_order_word(po)) == po <==> pixel_order_canonical(po),
        pixel_order_word(pixel_order_of_word(v)) == v,
        pixel_order_canonical(pixel_order_of_word(v)),
{
}

/// A high-level representation of a AllocFramebuffer command/response
#[derive(Debug, PartialEq, Eq, Structural, Clone, Copy)]
pub struct Repr {
    pub phy_width: usize,
    pub phy_height: usize,
    pub virt_width: usize,
    pub virt_height: usize,
    pub x_offset: usize,
    pub y_offset: usize,
    pub depth: usize,
    pub pixel_order: PixelOrder,
    pub buffer_align: usize,
    /// Bus address of the allocated buffer, from the response
    pub buffer_address: u32,
    /// Size of the allocated buffer in bytes, from the response
    pub buffer_size: u32,
    /// Bytes per line, from the response
    pub pitch: u32,
}

/// The values a [Repr] holds, each field by its name.
#[derive(Debug, PartialEq, Eq, Structural, Clone, Copy)]
pub struct FramebufferFields {
    pub phy_width: usize,
    pub phy_height: usize,
    pub virt_width: usize,
    pub virt_height: usize,
    pub x_offset: usize,
    pub y_offset: usize,
    pub depth: usize,
    pub pixel_order: PixelOrder,
    pub buffer_align: usize,
    pub buffer_address: u32,
    pub buffer_size: u32,
    pub pitch: u32,
}

impl View for Repr {
    type V = FramebufferFields;

    open spec fn view(&self) -> FramebufferFields {
        FramebufferFields {
            phy_width: self.phy_width,
            phy_height: self.phy_height,
            virt_width: self.virt_width,
            virt_height: self.virt_height,
            x_offset: self.x_offset,
            y_offset: self.y_offset,
            depth: self.depth,
            pixel_order: self.pixel_order,
            buffer_align: self.buffer_align,
            buffer_address: self.buffer_address,
            buffer_size: self.buffer_size,
            pitch: self.pitch,
        }
    }
}

/// The values of a default framebuffer request.
pub open spec fn default_fields() -> FramebufferFields {
    FramebufferFields {
        phy_width: 800,
        phy_height: 480,
        virt_width: 800,
        virt_height: 480,
        x_offset: 0,
        y_offset: 0,
        depth: 32,
        pixel_order: PixelOrder::RGB,
        buffer_align: DEFAULT_ALIGN,
        buffer_address: 0,
        buffer_size: 0,
        pitch: 0,
    }
}

/// The values that a response value buffer `w` holds.
pub open spec fn response_fields(w: Seq<u32>) -> FramebufferFields {
    FramebufferFields {
        phy_width: w[0] as usize,
        phy_height: w[1] as usize,
        virt_width: w[5] as usize,
        virt_height: w[6] as usize,
        x_offset: w[10] as usize,
        y_offset: w[11] as usize,
        depth: w[15] as usize,
        pixel_order: pixel_order_of_word(w[19]),
        buffer_align: DEFAULT_ALIGN,
        buffer_address: w[23],
        buffer_size: w[24],
        pitch: w[28],
    }
}

/// A default Framebuffer request
impl Default for Repr {
    fn default() -> (r: Repr)
        ensures
            r@ == default_fields(),
    {
        Repr {
            phy_width: 800,
            phy_height: 480,
            virt_width: 800,
            virt_height: 480,
            x_offset: 0,
            y_offset: 0,
            depth: 32,
            pixel_order: PixelOrder::RGB,
            buffer_align: DEFAULT_ALIGN,
            buffer_address: 0,
            buffer_size: 0,
            pitch: 0,
        }
    }
}

/// Outcome of checking one tag of a framebuffer response.
#[derive(Debug, Clone, Copy, PartialEq, Eq, Structural)]
pub enum TagCheck {
    /// The tag is the expected one.
    Pass,
    /// The check failed with this error.
    Fail(Error),
    /// The tag would start past the end of the payload.
    OutOfRange,
}

/// Checking that payload `p` holds tag `t` at word offset `off`.
pub open spec fn tag_check_at(p: Seq<u32>, off: int, t: TagId) -> TagCheck {
    if off > p.len() {
        TagCheck::OutOfRange
    } else if p.len() - off < 3 {
        TagCheck::Fail(Error::Truncated)
    } else {
        match decode_tag(p[off]) {
            Ok(found) => if found == t {
                TagCheck::Pass
            } else {
                TagCheck::Fail(Error::Malformed)
            },
            Err(e) => TagCheck::Fail(e),
        }
    }
}

/// Checking, in order, the seven tags of a framebuffer response payload `p`;
/// the first check that does not pass decides.
pub open spec fn fb_tags_check(p: Seq<u32>) -> TagCheck {
    let c0 = tag_check_at(p, 0, TagId::SetPhySize);
    let c1 = tag_check_at(p, 5, TagId::SetVirtSize);
    let c2 = tag_check_at(p, 10, TagId::SetVirtOffset);
    let c3 = tag_check_at(p, 15, TagId::SetDepth);
    let c4 = tag_check_at(p, 19, TagId::SetPixelOrder);
    let c5 = tag_check_at(p, 23, TagId::AllocBuffer);
    let c6 = tag_check_at(p, 28, TagId::GetPitch);
    if c0 != TagCheck::Pass {
        c0
    } else if c1 != TagCheck::Pass {
        c1
    } else if c2 != TagCheck::Pass {
        c2
    } else if c3 != TagCheck::Pass {
        c3
    } else if c4 != TagCheck::Pass {
        c4
    } else if c5 != TagCheck::Pass {
        c5
    } else {
        c6
    }
}

/// The buffers on which parsing a framebuffer response reads and slices
/// only within the buffer.
pub open spec fn fb_parse_defined(s: Seq<u32>) -> bool {
    &&& s.len() >= 1
    &&& s[0] == MSG_SIZE ==> s.len() >= 2
    &&& (s[0] == MSG_SIZE && code_of_word(s[1]) == ReqRespCode::ResponseSuccess) ==> fb_tags_check(
        s.subrange(2, s.len() as int),
    ) != TagCheck::OutOfRange
}

/// What parsing a framebuffer response `s` returns when it fails, or
/// `Ok(())` when it succeeds.
pub open spec fn fb_parse_outcome(s: Seq<u32>) -> Result<(), Error> {
    if s[0] != MSG_SIZE {
        Err(Error::Malformed)
    } else if code_of_word(s[1]) != ReqRespCode::ResponseSuccess {
        Err(Error::Malformed)
    } else {
        match fb_tags_check(s.subrange(2, s.len() as int)) {
            TagCheck::Fail(e) => Err(e),
            _ => if s.len() < 34 {
                Err(Error::Truncated)
            } else {
                Ok(())
            },
        }
    }
}

impl Repr {
    pub fn new() -> (r: Self)
        ensures
            r@ == default_fields(),
    {
        Self::default()
    }

    /// The CPU address of the allocated buffer (the bus alias bits cleared).
    pub fn alloc_buffer_address(&self) -> (r: u32)
        ensures
            r == self@.buffer_address & cpu_address_bits::MASK,
    {
        self.buffer_address & cpu_address_bits::MASK
    }

    /// The bus address of the allocated buffer, in the coherent L2 alias.
    pub fn alloc_buffer_bus_address(&self) -> (r: u32)
        ensures
            r == self@.buffer_address | bus_address_bits::ALIAS_4_L2_COHERENT,
    {
        self.buffer_address | bus_address_bits::ALIAS_4_L2_COHERENT
    }

    pub fn alloc_buffer_size(&self) -> (r: usize)
        ensures
            r == self@.buffer_size,
    {
        self.buffer_size as usize
    }

    pub fn pitch(&self) -> (r: usize)
        ensures
            r == self@.pitch,
    {
        self.pitch as usize
    }
}

/// Checks that payload `p` holds tag `expected` at word offset `off`.
fn check_tag_at(p: &Vec<u32>, off: usize, expected: TagId) -> (r: Result<(), Error>)
    requires
        tag_check_at(p@, off as int, expected) != TagCheck::OutOfRange,
    ensures
        tag_check_at(p@, off as int, expected) == TagCheck::Pass ==> r == Ok::<(), Error>(()),
        tag_check_at(p@, off as int, expected) matches TagCheck::Fail(e) ==> r == Err::<
            (),
            Error,
        >(e),
{
    let tag = match Tag::new_checked(words_from(p, off)) {
        Ok(t) => t,
        Err(e) => return Err(e),
    };
    assert(tag@[0] == p@[off as int]);
    let found = match tag.tag_id() {
        Ok(t) => t,
        Err(e) => return Err(e),
    };
    if found != expected {
        return Err(Error::Malformed);
    }
    Ok(())
}

/// The first 35 words of a buffer after emitting the framebuffer request for
/// `r`: message header, the physical-size tag whose value buffer holds the
/// other six tags, and the end tag. Sizes and offsets are written as `u32`.
pub open spec fn fb_request_words(f: FramebufferFields) -> Seq<u32> {
    seq![
        MSG_SIZE, 0,
        tag_word(TagId::SetPhySize), 8, 0x8000_0008,
        f.phy_width as u32, f.phy_height as u32,
        tag_word(TagId::SetVirtSize), 8, 8, f.virt_width as u32, f.virt_height as u32,
        tag_word(TagId::SetVirtOffset), 8, 8, f.x_offset as u32, f.y_offset as u32,
        tag_word(TagId::SetDepth), 4, 4, f.depth as u32,
        tag_word(TagId::SetPixelOrder), 4, 4, pixel_order_word(f.pixel_order),
        tag_word(TagId::AllocBuffer), 8, 8, DEFAULT_ALIGN as u32, 0,
        tag_word(TagId::GetPitch), 4, 4, 0,
        0
    ]
}

/// The buffer after emitting the framebuffer request for `r` into `s`.
pub open spec fn fb_request(s: Seq<u32>, f: FramebufferFields) -> Seq<u32> {
    fb_request_words(f) + s.subrange(35, s.len() as int)
}

/// The result of emitting a framebuffer request into a buffer of `len` words.
pub open spec fn fb_emit_result(len: nat) -> Result<(), Error> {
    if len < 36 {
        Err(Error::Truncated)
    } else {
        Ok(())
    }
}

impl Repr {
    pub fn parse_response(msg: &Msg) -> (r: Result<Repr, Error>)
        requires
            fb_parse_defined(msg@),
        ensures
            match fb_parse_outcome(msg@) {
                Ok(_) => r is Ok && r->Ok_0@ == response_fields(msg@.subrange(5, msg@.len() as int)),
                Err(e) => r == Err::<Repr, Error>(e),
            },
    {
        if msg.buffer_size() != (Msg::header_size() + Tag::header_size() + RESP_SIZE
            + LAST_TAG_SIZE) {
            return Err(Error::Malformed);
        }
        if msg.reqresp_code() != ReqRespCode::ResponseSuccess {
            return Err(Error::Malformed);
        }
        let payload = msg.payload();
        let ghost p = payload@;
        // Check for the expected TagId's at their offsets
        match check_tag_at(&payload, 0, TagId::SetPhySize) {
            Ok(()) => {},
            Err(e) => return Err(e),
        }
        match check_tag_at(&payload, 5, TagId::SetVirtSize) {
            Ok(()) => {},
            Err(e) => return Err(e),
        }
        match check_tag_at(&payload, 10, TagId::SetVirtOffset) {
            Ok(()) => {},
            Err(e) => return Err(e),
        }
        match check_tag_at(&payload, 15, TagId::SetDepth) {
            Ok(()) => {},
            Err(e) => return Err(e),
        }
        match check_tag_at(&payload, 19, TagId::SetPixelOrder) {
            Ok(()) => {},
            Err(e) => return Err(e),
        }
        match check_tag_at(&payload, 23, TagId::AllocBuffer) {
            Ok(()) => {},
            Err(e) => return Err(e),
        }
        match check_tag_at(&payload, 28, TagId::GetPitch) {
            Ok(()) => {},
            Err(e) => return Err(e),
        }
        let tag = match Tag::new_checked(payload) {
            Ok(t) => t,
            Err(e) => return Err(e),
        };
        let words = tag.payload();
        assert(words@ =~= msg@.subrange(5, msg@.len() as int));
        let resp = match Resp::new_checked(words) {
            Ok(r) => r,
            Err(e) => return Err(e),
        };
        Ok(Repr {
            phy_width: resp.phy_width() as usize,
            phy_height: resp.phy_height() as usize,
            virt_width: resp.virt_width() as usize,
            virt_height: resp.virt_height() as usize,
            x_offset: resp.x_offset() as usize,
            y_offset: resp.y_offset() as usize,
            depth: resp.depth() as usize,
            pixel_order: resp.pixel_order(),
            buffer_align: DEFAULT_ALIGN,
            buffer_address: resp.buffer_address(),
            buffer_size: resp.buffer_size(),
            pitch: resp.pitch(),
        })
    }

    /// Return the size of a packet that will be emitted from this high-level
    /// representation
    pub fn buffer_size(&self) -> (r: usize)
        ensures
            r == RESP_SIZE,
    {
        // Request and response are the same size/shape
        RESP_SIZE
    }

    pub fn emit_request(&self, msg: &mut Msg) -> (r: Result<(), Error>)
        requires
            old(msg)@.len() >= 35,
        ensures
            final(msg)@ == fb_request(old(msg)@, self@),
            r == fb_emit_result(old(msg)@.len()),
    {
        let ghost s = msg@;
        msg.set_buffer_size(Msg::header_size() + Tag::header_size() + REQ_SIZE + LAST_TAG_SIZE);
        msg.set_reqresp_code(ReqRespCode::Request);
        let mut tag = Tag::new_unchecked(msg.payload());
        // Setup the first tag here, its payload is the other tags
        tag.set_tag_id(TagId::SetPhySize);
        tag.set_request_size(8);
        tag.set_response_size(8);
        assert((8u32 | 0x8000_0000u32) == 0x8000_0008u32) by (bit_vector);
        let tag_ok = tag.check_len();
        assert(tag_ok is Ok);
        let mut req = Req::new_unchecked(tag.payload());
        req.set_phy_size(self.phy_width as u32, self.phy_height as u32);
        req.set_virt_size(self.virt_width as u32, self.virt_height as u32);
        req.set_virt_offset(self.x_offset as u32, self.y_offset as u32);
        req.set_depth(self.depth as u32);
        req.set_pixel_order(self.pixel_order);
        req.set_alloc_buffer(DEFAULT_ALIGN as u32);
        req.set_get_pitch();
        let req_ok = req.check_len();
        assert(req_ok is Ok);
        tag.set_payload(&req.into_inner());
        msg.set_payload(&tag.into_inner());
        let fill = msg.fill_last_tag();
        assert(msg@ =~= fb_request(s, self@));
        match msg.check_len() {
            Ok(()) => Ok(()),
            Err(e) => Err(e),
        }
    }
}

impl MsgEmitter for Repr {
    open spec fn emitted_size(&self) -> nat {
        MSG_SIZE as nat
    }

    open spec fn emit_allowed(&self, len: nat) -> bool {
        len >= 35
    }

    open spec fn emitted(&self, s: Seq<u32>) -> Seq<u32> {
        fb_request(s, self@)
    }

    open spec fn emit_outcome(&self, s: Seq<u32>) -> Result<(), Error> {
        fb_emit_result(s.len())
    }

    fn msg_size(&self) -> (r: usize) {
        Msg::header_size() + Tag::header_size() + RESP_SIZE + LAST_TAG_SIZE
    }

    fn emit_msg(&self, msg: &mut Msg) -> (r: Result<(), Error>) {
        self.emit_request(msg)
    }
}

/// A response buffer whose size word, success code and seven tag
/// identifiers sit where the request put them parses, whatever the firmware
/// wrote into the value slots, and gives the words of those slots.
pub proof fn lemma_fb_response_parses(t: Seq<u32>)
    requires
        t.len() >= 34,
        t[0] == MSG_SIZE,
        t[1] == RESPONSE_SUCCESS_CODE,
        t[2] == tag_word(TagId::SetPhySize),
        t[7] == tag_word(TagId::SetVirtSize),
        t[12] == tag_word(TagId::SetVirtOffset),
        t[17] == tag_word(TagId::SetDepth),
        t[21] == tag_word(TagId::SetPixelOrder),
        t[25] == tag_word(TagId::AllocBuffer),
        t[30] == tag_word(TagId::GetPitch),
    ensures
        fb_parse_defined(t),
        fb_parse_outcome(t) == Ok::<(), Error>(()),
{
    let p = t.subrange(2, t.len() as int);
    assert(p[0] == t[2] && p[5] == t[7] && p[10] == t[12] && p[15] == t[17]);
    assert(p[19] == t[21] && p[23] == t[25] && p[28] == t[30]);
    assert(fb_tags_check(p) == TagCheck::Pass);
}

/// A framebuffer request for `f`, answered with the success code and nothing
/// else changed, parses back to the request's values as they were written
/// (each size and offset as a `u32`), with the alignment the request asked
/// for in the address slot and zero size and pitch. Where every value fits
/// in a `u32` and the pixel order is canonical, the sizes, offsets, depth and
/// pixel order come back unchanged.
pub proof fn lemma_fb_request_answered(s: Seq<u32>, f: FramebufferFields)
    requires
        s.len() >= 36,
    ensures
        ({
            let t = fb_request(s, f).update(1, RESPONSE_SUCCESS_CODE);
            let g = response_fields(t.subrange(5, t.len() as int));
            &&& fb_parse_defined(t)
            &&& fb_parse_outcome(t) == Ok::<(), Error>(())
            &&& g.phy_width == f.phy_width as u32
            &&& g.phy_height == f.phy_height as u32
            &&& g.virt_width == f.virt_width as u32
            &&& g.virt_height == f.virt_height as u32
            &&& g.x_offset == f.x_offset as u32
            &&& g.y_offset == f.y_offset as u32
            &&& g.depth == f.depth as u32
            &&& g.pixel_order == pixel_order_of_word(pixel_order_word(f.pixel_order))
            &&& g.buffer_align == DEFAULT_ALIGN
            &&& g.buffer_address == DEFAULT_ALIGN
            &&& g.buffer_size == 0
            &&& g.pitch == 0
            &&& (f.phy_width <= u32::MAX && f.phy_height <= u32::MAX && f.virt_width <= u32::MAX
                && f.virt_height <= u32::MAX && f.x_offset <= u32::MAX && f.y_offset <= u32::MAX
                && f.depth <= u32::MAX && pixel_order_canonical(f.pixel_order)) ==> (
            g.phy_width == f.phy_width && g.phy_height == f.phy_height && g.virt_width
                == f.virt_width && g.virt_height == f.virt_height && g.x_offset == f.x_offset
                && g.y_offset == f.y_offset && g.depth == f.depth && g.pixel_order
                == f.pixel_order)
        }),
{
    let t = fb_request(s, f).update(1, RESPONSE_SUCCESS_CODE);
    lemma_fb_response_parses(t);
}

impl AsRef<[u32]> for Req {
    fn as_ref(&self) -> (r: &[u32])
        ensures
            r@ == self@,
    {
        self.buffer.as_slice()
    }
}

impl AsRef<[u32]> for Resp {
    fn as_ref(&self) -> (r: &[u32])
        ensures
            r@ == self@,
    {
        self.buffer.as_slice()
    }
}

} // verus!
