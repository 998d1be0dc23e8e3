use vstd::prelude::*;

use crate::color::Rgb;

verus! {

/// High time of a 0 bit, in nanoseconds.
pub const T0H_NS: u32 = 350;

/// Low time of a 0 bit, in nanoseconds.
pub const T0L_NS: u32 = 800;

/// High time of a 1 bit, in nanoseconds.
pub const T1H_NS: u32 = 700;

/// Low time of a 1 bit, in nanoseconds.
pub const T1L_NS: u32 = 600;

/// Number of pulse pairs in a frame: one per bit of a 24-bit colour.
pub const FRAME_SLOTS: usize = 24;

/// One bit on the data line: the line is held high for `high_ns` nanoseconds
/// and then low for `low_ns` nanoseconds.
#[derive(Clone, Copy, Debug, PartialEq, Eq, Structural)]
pub struct PulsePair {
    pub high_ns: u32,
    pub low_ns: u32,
}

impl PulsePair {
    /// The pulse pair that stands for a bit.
    pub open spec fn of_bit(bit: bool) -> PulsePair {
        if bit {
            PulsePair { high_ns: 700, low_ns: 600 }
        } else {
            PulsePair { high_ns: 350, low_ns: 800 }
        }
    }

    /// The pair is that of a 1 bit or that of a 0 bit.
    pub open spec fn is_canonical(self) -> bool {
        self == Self::of_bit(true) || self == Self::of_bit(false)
    }

    /// The pulse pair that stands for a bit.
    pub fn for_bit(bit: bool) -> (pair: PulsePair)
        ensures
            pair == Self::of_bit(bit),
    {
        if bit {
            PulsePair { high_ns: T1H_NS, low_ns: T1L_NS }
        } else {
            PulsePair { high_ns: T0H_NS, low_ns: T0L_NS }
        }
    }
}

/// The 24-bit word of a colour: red in bits 23 to 16, green in bits 15 to 8,
/// blue in bits 7 to 0.
pub open spec fn packed(r: u8, g: u8, b: u8) -> u32 {
    ((r as u32) << 16) | ((g as u32) << 8) | (b as u32)
}

/// Whether a bit of a word is set; position 0 is the least significant.
pub open spec fn bit_set(word: u32, position: u32) -> bool {
    word & (1u32 << position) != 0
}

/// Whether a bit of a channel is set; position 0 is the least significant.
pub open spec fn channel_bit(value: u8, position: u32) -> bool {
    (value >> position) & 1 == 1
}

/// The frame of a colour: slot `i` holds the pulse pair of bit `23 - i` of the
/// packed colour, so the most significant bit comes first.
pub open spec fn frame_of(rgb: Rgb) -> Seq<PulsePair> {
    Seq::new(24, |i: int| PulsePair::of_bit(bit_set(packed(rgb.r, rgb.g, rgb.b), (23 - i) as u32)))
}

/// The pulse train for one colour: 24 pulse pairs, most significant bit first.
///
/// A frame is made for one change of colour and handed to the transmitter; it
/// cannot be copied.
#[derive(Debug, PartialEq, Eq)]
pub struct PulseFrame {
    slots: [PulsePair; 24],
}

impl View for PulseFrame {
    type V = Seq<PulsePair>;

    closed spec fn view(&self) -> Seq<PulsePair> {
        self.slots@
    }
}

impl PulseFrame {
    #[verifier::type_invariant]
    spec fn slots_canonical(self) -> bool {
        forall|i: int| 0 <= i < 24 ==> (#[trigger] self.slots@[i]).is_canonical()
    }

    /// The pulse pair in a slot, or `None` past the last slot.
    pub fn slot(&self, index: usize) -> (pair: Option<PulsePair>)
        ensures
            self@.len() == 24,
            index < 24 ==> pair == Some(self@[index as int]) && self@[index as int].is_canonical(),
            index >= 24 ==> pair is None,
    {
        proof {
            use_type_invariant(self);
        }
        if index < FRAME_SLOTS {
            Some(self.slots[index])
        } else {
            None
        }
    }
}

/// Encodes a colour as the frame that a transmitter clocks out.
///
/// Every colour has a frame, and the frame depends on the colour alone.
pub fn encode_frame(rgb: Rgb) -> (frame: PulseFrame)
    ensures
        frame@ == frame_of(rgb),
        forall|i: int| 0 <= i < 24 ==> (#[trigger] frame@[i]).is_canonical(),
{
    let word: u32 = ((rgb.r as u32) << 16) | ((rgb.g as u32) << 8) | (rgb.b as u32);
    let mut slots: [PulsePair; 24] = [PulsePair::for_bit(false); 24];
    let mut position: u32 = 24;
    while position > 0
        invariant
            position <= 24,
            word == packed(rgb.r, rgb.g, rgb.b),
            forall|i: int| 0 <= i < 24 ==> (#[trigger] slots@[i]).is_canonical(),
            forall|i: int| 0 <= i < 24 - position ==> slots@[i] == frame_of(rgb)[i],
        decreases position,
    {
        position = position - 1;
        let bit: bool = word & (1u32 << position) != 0;
        let index: usize = (23 - position) as usize;
        slots[index] = PulsePair::for_bit(bit);
    }
    PulseFrame { slots }
}

/// Each slot of a frame holds the pair of a 1 bit or that of a 0 bit, whatever
/// the colour.
pub proof fn lemma_frame_canonical(rgb: Rgb)
    ensures
        frame_of(rgb).len() == 24,
        forall|i: int| 0 <= i < 24 ==> (#[trigger] frame_of(rgb)[i]).is_canonical(),
{
}

/// The first eight slots carry the red channel, the next eight the green and
/// the last eight the blue, each from its top bit down: slot 0 is bit 7 of
/// red and slot 23 is bit 0 of blue.
pub proof fn lemma_slot_carries_channel_bit(rgb: Rgb, i: int)
    requires
        0 <= i < 8,
    ensures
        frame_of(rgb)[i] == PulsePair::of_bit(channel_bit(rgb.r, (7 - i) as u32)),
        frame_of(rgb)[8 + i] == PulsePair::of_bit(channel_bit(rgb.g, (7 - i) as u32)),
        frame_of(rgb)[16 + i] == PulsePair::of_bit(channel_bit(rgb.b, (7 - i) as u32)),
{
    let r = rgb.r;
    let g = rgb.g;
    let b = rgb.b;
    let k = (7 - i) as u32;
    assert(bit_set(packed(r, g, b), (16 + k) as u32) == channel_bit(r, k)) by (bit_vector)
        requires
            k < 8,
    ;
    assert(bit_set(packed(r, g, b), (8 + k) as u32) == channel_bit(g, k)) by (bit_vector)
        requires
            k < 8,
    ;
    assert(bit_set(packed(r, g, b), k) == channel_bit(b, k)) by (bit_vector)
        requires
            k < 8,
    ;
}

/// The frame of black is 24 times the pair of a 0 bit.
pub proof fn lemma_black_frame()
    ensures
        frame_of(Rgb { r: 0, g: 0, b: 0 }) == Seq::new(24, |i: int| PulsePair::of_bit(false)),
{
    let black = Rgb { r: 0, g: 0, b: 0 };
    assert forall|i: int| 0 <= i < 24 implies #[trigger] frame_of(black)[i] == PulsePair::of_bit(
        false,
    ) by {
        let position = (23 - i) as u32;
        assert(!bit_set(packed(0, 0, 0), position)) by (bit_vector)
            requires
                position < 24,
        ;
    }
}

/// Two frames of the same colour agree in every slot.
pub proof fn lemma_frame_determined_by_color(first: PulseFrame, second: PulseFrame, rgb: Rgb)
    requires
        first@ == frame_of(rgb),
        second@ == frame_of(rgb),
    ensures
        first@ == second@,
{
}

} // verus!
