//! DMA control block
use vstd::prelude::*;
use crate::bits::{
    bit, field, lemma_bit_write_read, u32_bit, u32_bit_range, u32_set_bit, u32_set_bit_range, with_bit, with_field,
};
use crate::cache::bus_address_bits;
use crate::fmt::{hex, push_hex};

verus! {

pub const CONTROL_BLOCK_SIZE: usize = 32;

pub const TRANSFER_LENGTH_MAX: u32 = 0x3FFF_FFFF;

pub const TRANSFER_LENGTH_MAX_LITE: u32 = 0xFFFF;

/// Length of a transfer: a byte count, or a 2D transfer of `y` rows of `x`
/// bytes.
#[derive(Debug, Copy, Clone, PartialEq, Eq, Structural)]
pub enum TransferLength {
    ModeLinear(u32),
    Mode2D(u16, u16),
}

/// Width of the reads or writes of a transfer.
#[derive(Debug, Copy, Clone, PartialEq, Eq, Structural)]
pub enum TransferWidth {
    Bits32,
    Bits128,
}

impl vstd::std_specs::convert::FromSpecImpl<TransferWidth> for bool {
    open spec fn obeys_from_spec() -> bool {
        true
    }

    /// The width bit: set for 128-bit transfers.
    open spec fn from_spec(w: TransferWidth) -> bool {
        w == TransferWidth::Bits128
    }
}

impl From<TransferWidth> for bool {
    fn from(w: TransferWidth) -> (r: bool)
        ensures
            r == (w == TransferWidth::Bits128),
    {
        match w {
            TransferWidth::Bits32 => false,
            TransferWidth::Bits128 => true,
        }
    }
}

/// Transfer information word of a control block.
#[derive(Debug, Copy, Clone, PartialEq, Eq, Structural)]
pub struct TxfrInfoWord(pub u32);

impl TxfrInfoWord {
    /// Interrupt enable
    pub fn int_en(&self) -> (r: bool)
        ensures
            r == bit(self.0, 0),
    {
        u32_bit(self.0, 0)
    }

    /// Interrupt enable (set)
    pub fn set_int_en(&mut self, value: bool)
        ensures
            final(self).0 == with_bit(old(self).0, 0, value),
    {
        self.0 = u32_set_bit(self.0, 0, value);
    }

    /// 2D mode
    pub fn td_mode(&self) -> (r: bool)
        ensures
            r == bit(self.0, 1),
    {
        u32_bit(self.0, 1)
    }

    /// 2D mode (set)
    pub fn set_td_mode(&mut self, value: bool)
        ensures
            final(self).0 == with_bit(old(self).0, 1, value),
    {
        self.0 = u32_set_bit(self.0, 1, value);
    }

    /// Wait for write response
    pub fn wait_resp(&self) -> (r: bool)
        ensures
            r == bit(self.0, 3),
    {
        u32_bit(self.0, 3)
    }

    /// Wait for write response (set)
    pub fn set_wait_resp(&mut self, value: bool)
        ensures
            final(self).0 == with_bit(old(self).0, 3, value),
    {
        self.0 = u32_set_bit(self.0, 3, value);
    }

    /// Destination address increment
    pub fn dest_inc(&self) -> (r: bool)
        ensures
            r == bit(self.0, 4),
    {
        u32_bit(self.0, 4)
    }

    /// Destination address increment (set)
    pub fn set_dest_inc(&mut self, value: bool)
        ensures
            final(self).0 == with_bit(old(self).0, 4, value),
    {
        self.0 = u32_set_bit(self.0, 4, value);
    }

    /// Destination transfer width: clear for 32-bit, set for 128-bit writes
    pub fn dest_width(&self) -> (r: bool)
        ensures
            r == bit(self.0, 5),
    {
        u32_bit(self.0, 5)
    }

    /// Destination transfer width: clear for 32-bit, set for 128-bit writes (set)
    pub fn set_dest_width(&mut self, value: bool)
        ensures
            final(self).0 == with_bit(old(self).0, 5, value),
    {
        self.0 = u32_set_bit(self.0, 5, value);
    }

    /// Control destination writes with DREQ
    pub fn dest_dreq(&self) -> (r: bool)
        ensures
            r == bit(self.0, 6),
    {
        u32_bit(self.0, 6)
    }

    /// Control destination writes with DREQ (set)
    pub fn set_dest_dreq(&mut self, value: bool)
        ensures
            final(self).0 == with_bit(old(self).0, 6, value),
    {
        self.0 = u32_set_bit(self.0, 6, value);
    }

    /// Ignore destination writes
    pub fn dest_ignore(&self) -> (r: bool)
        ensures
            r == bit(self.0, 7),
    {
        u32_bit(self.0, 7)
    }

    /// Ignore destination writes (set)
    pub fn set_dest_ignore(&mut self, value: bool)
        ensures
            final(self).0 == with_bit(old(self).0, 7, value),
    {
        self.0 = u32_set_bit(self.0, 7, value);
    }

    /// Source address increment
    pub fn src_inc(&self) -> (r: bool)
        ensures
            r == bit(self.0, 8),
    {
        u32_bit(self.0, 8)
    }

    /// Source address increment (set)
    pub fn set_src_inc(&mut self, value: bool)
        ensures
            final(self).0 == with_bit(old(self).0, 8, value),
    {
        self.0 = u32_set_bit(self.0, 8, value);
    }

    /// Source transfer width: clear for 32-bit, set for 128-bit reads
    pub fn src_width(&self) -> (r: bool)
        ensures
            r == bit(self.0, 9),
    {
        u32_bit(self.0, 9)
    }

    /// Source transfer width: clear for 32-bit, set for 128-bit reads (set)
    pub fn set_src_width(&mut self, value: bool)
        ensures
            final(self).0 == with_bit(old(self).0, 9, value),
    {
        self.0 = u32_set_bit(self.0, 9, value);
    }

    /// Control source reads with DREQ
    pub fn src_dreq(&self) -> (r: bool)
        ensures
            r == bit(self.0, 10),
    {
        u32_bit(self.0, 10)
    }

    /// Control source reads with DREQ (set)
    pub fn set_src_dreq(&mut self, value: bool)
        ensures
            final(self).0 == with_bit(old(self).0, 10, value),
    {
        self.0 = u32_set_bit(self.0, 10, value);
    }

    /// Ignore source reads
    pub fn src_ignore(&self) -> (r: bool)
        ensures
            r == bit(self.0, 11),
    {
        u32_bit(self.0, 11)
    }

    /// Ignore source reads (set)
    pub fn set_src_ignore(&mut self, value: bool)
        ensures
            final(self).0 == with_bit(old(self).0, 11, value),
    {
        self.0 = u32_set_bit(self.0, 11, value);
    }

    /// Burst transfer length; zero gives a single transfer
    pub fn burst_len(&self) -> (r: u32)
        ensures
            r == field(self.0, 15, 12),
    {
        u32_bit_range(self.0, 15, 12)
    }

    /// Burst transfer length; zero gives a single transfer (set)
    pub fn set_burst_len(&mut self, value: u32)
        ensures
            final(self).0 == with_field(old(self).0, 15, 12, value),
    {
        self.0 = u32_set_bit_range(self.0, 15, 12, value);
    }

    /// Peripheral mapping
    pub fn periph_map(&self) -> (r: u32)
        ensures
            r == field(self.0, 20, 16),
    {
        u32_bit_range(self.0, 20, 16)
    }

    /// Peripheral mapping (set)
    pub fn set_periph_map(&mut self, value: u32)
        ensures
            final(self).0 == with_field(old(self).0, 20, 16, value),
    {
        self.0 = u32_set_bit_range(self.0, 20, 16, value);
    }

    /// Add wait cycles
    pub fn waits(&self) -> (r: u32)
        ensures
            r == field(self.0, 25, 21),
    {
        u32_bit_range(self.0, 25, 21)
    }

    /// Add wait cycles (set)
    pub fn set_waits(&mut self, value: u32)
        ensures
            final(self).0 == with_field(old(self).0, 25, 21, value),
    {
        self.0 = u32_set_bit_range(self.0, 25, 21, value);
    }

    /// Don't do wide writes as a 2 beat burst
    pub fn no_wide_bursts(&self) -> (r: bool)
        ensures
            r == bit(self.0, 26),
    {
        u32_bit(self.0, 26)
    }

    /// Don't do wide writes as a 2 beat burst (set)
    pub fn set_no_wide_bursts(&mut self, value: bool)
        ensures
            final(self).0 == with_bit(old(self).0, 26, value),
    {
        self.0 = u32_set_bit(self.0, 26, value);
    }
}

/// Transfer length word of a control block.
#[derive(Debug, Copy, Clone, PartialEq, Eq, Structural)]
pub struct TxfrLenWord(pub u32);

impl TxfrLenWord {
    /// Transfer length in bytes
    pub fn xlen(&self) -> (r: u32)
        ensures
            r == field(self.0, 15, 0),
    {
        u32_bit_range(self.0, 15, 0)
    }

    /// Transfer length in bytes (set)
    pub fn set_xlen(&mut self, value: u32)
        ensures
            final(self).0 == with_field(old(self).0, 15, 0, value),
    {
        self.0 = u32_set_bit_range(self.0, 15, 0, value);
    }

    /// Y transfer length in 2D mode (how many xlen transfers); the top bits of the length in linear mode
    pub fn ylen(&self) -> (r: u32)
        ensures
            r == field(self.0, 29, 16),
    {
        u32_bit_range(self.0, 29, 16)
    }

    /// Y transfer length in 2D mode (how many xlen transfers); the top bits of the length in linear mode (set)
    pub fn set_ylen(&mut self, value: u32)
        ensures
            final(self).0 == with_field(old(self).0, 29, 16, value),
    {
        self.0 = u32_set_bit_range(self.0, 29, 16, value);
    }
}

/// 2D stride word of a control block.
#[derive(Debug, Copy, Clone, PartialEq, Eq, Structural)]
pub struct StrideWord(pub u32);

impl StrideWord {
    /// Source stride (2D mode)
    pub fn src_stride(&self) -> (r: u32)
        ensures
            r == field(self.0, 15, 0),
    {
        u32_bit_range(self.0, 15, 0)
    }

    /// Source stride (2D mode) (set)
    pub fn set_src_stride(&mut self, value: u32)
        ensures
            final(self).0 == with_field(old(self).0, 15, 0, value),
    {
        self.0 = u32_set_bit_range(self.0, 15, 0, value);
    }

    /// Destination stride (2D mode)
    pub fn dest_stride(&self) -> (r: u32)
        ensures
            r == field(self.0, 31, 16),
    {
        u32_bit_range(self.0, 31, 16)
    }

    /// Destination stride (2D mode) (set)
    pub fn set_dest_stride(&mut self, value: u32)
        ensures
            final(self).0 == with_field(old(self).0, 31, 16, value),
    {
        self.0 = u32_set_bit_range(self.0, 31, 16, value);
    }
}

/// The words of a control block.
#[derive(Debug, Copy, Clone, PartialEq, Eq, Structural)]
pub struct ControlBlockWords {
    pub info: u32,
    pub src: u32,
    pub dest: u32,
    pub length: u32,
    pub stride: u32,
    pub next: u32,
    pub reserved_0: u32,
    pub reserved_1: u32,
}

/// 8 words (256 bits or 32 bytes) in length and must start at a 256-bit aligned
/// address
#[derive(Debug)]
pub struct ControlBlock {
    /// Transfer info
    pub info: TxfrInfoWord,
    /// Source address
    pub src: u32,
    /// Destination address
    pub dest: u32,
    /// Transfer length
    pub length: TxfrLenWord,
    /// 2D stride
    pub stride: StrideWord,
    /// Next control block address
    pub next: u32,
    /// Reserved, written as zero
    pub _reserved_0: u32,
    /// Reserved, written as zero
    pub _reserved_1: u32,
}

impl View for ControlBlock {
    type V = ControlBlockWords;

    closed spec fn view(&self) -> ControlBlockWords {
        ControlBlockWords {
            info: self.info.0,
            src: self.src,
            dest: self.dest,
            length: self.length.0,
            stride: self.stride.0,
            next: self.next,
            reserved_0: self._reserved_0,
            reserved_1: self._reserved_1,
        }
    }
}

/// The view of a control block holds its fields' words.
pub proof fn lemma_control_block_view(cb: &ControlBlock)
    ensures
        cb@.info == cb.info.0,
        cb@.src == cb.src,
        cb@.dest == cb.dest,
        cb@.length == cb.length.0,
        cb@.stride == cb.stride.0,
        cb@.next == cb.next,
{
}

/// A control block with every word zero.
pub open spec fn zero_words() -> ControlBlockWords {
    ControlBlockWords {
        info: 0,
        src: 0,
        dest: 0,
        length: 0,
        stride: 0,
        next: 0,
        reserved_0: 0,
        reserved_1: 0,
    }
}

/// The length word and info word after setting the transfer length `l`.
pub open spec fn length_words(info: u32, length: u32, l: TransferLength) -> (u32, u32) {
    match l {
        TransferLength::ModeLinear(n) => (info, n),
        TransferLength::Mode2D(x, y) => (
            with_bit(info, 1, true),
            with_field(with_field(length, 15, 0, x as u32), 29, 16, y as u32),
        ),
    }
}

/// The width that a width bit stands for.
pub open spec fn width_of_bit(b: bool) -> TransferWidth {
    if b {
        TransferWidth::Bits128
    } else {
        TransferWidth::Bits32
    }
}

impl Default for ControlBlock {
    fn default() -> (r: Self)
        ensures
            r@ == zero_words(),
    {
        ControlBlock::new()
    }
}

impl ControlBlock {
    pub fn new() -> (r: Self)
        ensures
            r@ == zero_words(),
    {
        ControlBlock {
            info: TxfrInfoWord(0),
            src: 0,
            dest: 0,
            length: TxfrLenWord(0),
            stride: StrideWord(0),
            next: 0,
            _reserved_0: 0,
            _reserved_1: 0,
        }
    }

    pub fn init(&mut self)
        ensures
            final(self)@ == zero_words(),
    {
        self.info = TxfrInfoWord(0);
        self.src = 0;
        self.dest = 0;
        self.length = TxfrLenWord(0);
        self.stride = StrideWord(0);
        self.next = 0;
        self._reserved_0 = 0;
        self._reserved_1 = 0;
    }

    /// NOTE: the physical addresses will be translated to a bus address for
    /// the DMA engine
    pub fn set_src(&mut self, src: u32)
        ensures
            final(self)@ == (ControlBlockWords {
                src: src | bus_address_bits::ALIAS_4_L2_COHERENT,
                ..old(self)@
            }),
    {
        self.src = src | bus_address_bits::ALIAS_4_L2_COHERENT;
    }

    /// NOTE: the physical addresses will be translated to a bus address for
    /// the DMA engine
    pub fn set_dest(&mut self, dest: u32)
        ensures
            final(self)@ == (ControlBlockWords {
                dest: dest | bus_address_bits::ALIAS_4_L2_COHERENT,
                ..old(self)@
            }),
    {
        self.dest = dest | bus_address_bits::ALIAS_4_L2_COHERENT;
    }

    pub fn set_length(&mut self, length: TransferLength)
        ensures
            ({
                let (info, len) = length_words(old(self)@.info, old(self)@.length, length);
                final(self)@ == (ControlBlockWords { info: info, length: len, ..old(self)@ })
            }),
    {
        match length {
            TransferLength::ModeLinear(l) => self.length.0 = l,
            TransferLength::Mode2D(x, y) => {
                self.length.set_xlen(x as u32);
                self.length.set_ylen(y as u32);
                self.info.set_td_mode(true);
            },
        }
    }

    pub fn src_width(&self) -> (r: TransferWidth)
        ensures
            r == width_of_bit(bit(self@.info, 9)),
    {
        if self.info.src_width() == false {
            TransferWidth::Bits32
        } else {
            TransferWidth::Bits128
        }
    }

    pub fn set_src_width(&mut self, width: TransferWidth)
        ensures
            final(self)@ == (ControlBlockWords {
                info: with_bit(old(self)@.info, 9, width == TransferWidth::Bits128),
                ..old(self)@
            }),
    {
        self.info.set_src_width(bool::from(width));
    }

    pub fn dest_width(&self) -> (r: TransferWidth)
        ensures
            r == width_of_bit(bit(self@.info, 5)),
    {
        if self.info.dest_width() == false {
            TransferWidth::Bits32
        } else {
            TransferWidth::Bits128
        }
    }

    pub fn set_dest_width(&mut self, width: TransferWidth)
        ensures
            final(self)@ == (ControlBlockWords {
                info: with_bit(old(self)@.info, 5, width == TransferWidth::Bits128),
                ..old(self)@
            }),
    {
        self.info.set_dest_width(bool::from(width));
    }

    pub fn set_next(&mut self, next_dcb_paddr: u32)
        ensures
            final(self)@ == (ControlBlockWords {
                next: next_dcb_paddr | bus_address_bits::ALIAS_4_L2_COHERENT,
                ..old(self)@
            }),
    {
        self.next = next_dcb_paddr | bus_address_bits::ALIAS_4_L2_COHERENT;
    }
}

/// The width read back from a control block is the width last set, for the
/// source and for the destination alike; setting one leaves the other.
pub proof fn lemma_width_write_read(info: u32, w: TransferWidth)
    ensures
        width_of_bit(bit(with_bit(info, 9, w == TransferWidth::Bits128), 9)) == w,
        width_of_bit(bit(with_bit(info, 5, w == TransferWidth::Bits128), 5)) == w,
        bit(with_bit(info, 9, w == TransferWidth::Bits128), 5) == bit(info, 5),
        bit(with_bit(info, 5, w == TransferWidth::Bits128), 9) == bit(info, 9),
{
    lemma_bit_write_read(info, 9, w == TransferWidth::Bits128);
    lemma_bit_write_read(info, 5, w == TransferWidth::Bits128);
}

/// After setting a 2D transfer length, the X length reads back as given, the
/// Y length reads back cut to its 14 bits, and 2D mode is on; a linear length
/// is the whole length word.
pub proof fn lemma_length_write_read(info: u32, length: u32, l: TransferLength)
    ensures
        ({
            let (i, w) = length_words(info, length, l);
            match l {
                TransferLength::ModeLinear(n) => w == n && i == info,
                TransferLength::Mode2D(x, y) => {
                    &&& field(w, 15, 0) == x as u32
                    &&& field(w, 29, 16) == (y as u32) & 0x3fff
                    &&& bit(i, 1)
                },
            }
        }),
{
    match l {
        TransferLength::ModeLinear(n) => {},
        TransferLength::Mode2D(x, y) => {
            let x32 = x as u32;
            let y32 = y as u32;
            assert(x32 <= 0xffff);
            assert(field(with_field(with_field(length, 15, 0, x32), 29, 16, y32), 15, 0) == x32)
                by (bit_vector)
                requires
                    x32 <= 0xffff,
            ;
            assert(field(with_field(with_field(length, 15, 0, x32), 29, 16, y32), 29, 16) == y32
                & 0x3fff) by (bit_vector);
            lemma_bit_write_read(info, 1, true);
        },
    }
}

fn push_str(s: &mut String, t: &str)
    ensures
        final(s)@ == old(s)@ + t@,
{
    s.append(t);
}

impl ControlBlock {
    /// The text `DCB { info: 0x.., src: 0x.., dest: 0x.., length: 0x..,
    /// stride: 0x.., next: 0x.. }`, each word in upper-case hexadecimal.
    pub fn to_string(&self) -> (r: String)
        ensures
            r@ == "DCB { info: 0x"@ + hex(self@.info as nat) + ", src: 0x"@ + hex(self@.src as nat)
                + ", dest: 0x"@ + hex(self@.dest as nat) + ", length: 0x"@ + hex(
                self@.length as nat,
            ) + ", stride: 0x"@ + hex(self@.stride as nat) + ", next: 0x"@ + hex(
                self@.next as nat,
            ) + " }"@,
    {
        let mut s = String::new();
        push_str(&mut s, "DCB { info: 0x");
        push_hex(&mut s, self.info.0 as u64);
        push_str(&mut s, ", src: 0x");
        push_hex(&mut s, self.src as u64);
        push_str(&mut s, ", dest: 0x");
        push_hex(&mut s, self.dest as u64);
        push_str(&mut s, ", length: 0x");
        push_hex(&mut s, self.length.0 as u64);
        push_str(&mut s, ", stride: 0x");
        push_hex(&mut s, self.stride.0 as u64);
        push_str(&mut s, ", next: 0x");
        push_hex(&mut s, self.next as u64);
        push_str(&mut s, " }");
        s
    }
}

} // verus!
