//! Option values.
//!
//! Colour channels and the other continuous quantities are held as signed
//! integers, called channels. The library only copies, compares and clamps
//! them, so any encoding whose integer order is the order of the quantities
//! will do. For hosts that work with IEEE-754 single-precision numbers,
//! [`channel_from_bits`] turns a bit pattern into such an integer and
//! [`channel_to_bits`] turns it back.

use vstd::prelude::*;

verus! {

/// The current data of one option: which choice is selected, which boxes are
/// ticked, or the channels of a colour.
#[derive(Clone, Copy, Debug, Eq)]
pub enum Value {
    /// The position of the selected choice.
    SingleFiles(u32),
    /// One bit for each choice; a set bit means the choice is ticked.
    MultiFiles(u32),
    /// Red, green and blue.
    Rgb([i32; 3]),
    /// Red, green, blue and alpha.
    Rgba([i32; 4]),
    Grayscale(i32),
    Opacity(i32),
    Mask(i32),
    /// The position of the selected path.
    Path(u32),
}

impl PartialEq for Value {
    /// Two values are equal when they are of the same variant and hold the
    /// same data.
    fn eq(&self, other: &Self) -> (r: bool) {
        match (*self, *other) {
            (Value::SingleFiles(a), Value::SingleFiles(b)) => a == b,
            (Value::MultiFiles(a), Value::MultiFiles(b)) => a == b,
            (Value::Rgb(a), Value::Rgb(b)) => {
                let r = a[0] == b[0] && a[1] == b[1] && a[2] == b[2];
                assert(r == (a == b)) by {
                    assert(r ==> a =~= b);
                }
                r
            },
            (Value::Rgba(a), Value::Rgba(b)) => {
                let r = a[0] == b[0] && a[1] == b[1] && a[2] == b[2] && a[3] == b[3];
                assert(r == (a == b)) by {
                    assert(r ==> a =~= b);
                }
                r
            },
            (Value::Grayscale(a), Value::Grayscale(b)) => a == b,
            (Value::Opacity(a), Value::Opacity(b)) => a == b,
            (Value::Mask(a), Value::Mask(b)) => a == b,
            (Value::Path(a), Value::Path(b)) => a == b,
            _ => false,
        }
    }
}

impl vstd::std_specs::cmp::PartialEqSpecImpl for Value {
    open spec fn obeys_eq_spec() -> bool {
        true
    }

    open spec fn eq_spec(&self, other: &Self) -> bool {
        *self == *other
    }
}

/// The channel that stands for a single-precision bit pattern.
///
/// Patterns with a clear sign bit keep their value. Patterns with the sign
/// bit set are mirrored below zero, the larger magnitude further down. The
/// integer order of two channels is then the order of the two numbers
/// (with negative zero just below positive zero).
pub open spec fn channel_of_bits(bits: u32) -> int {
    if bits < 0x8000_0000 {
        bits as int
    } else {
        -(bits - 0x8000_0000) - 1
    }
}

/// The bit pattern that a channel stands for.
pub open spec fn bits_of_channel(channel: i32) -> int {
    if channel >= 0 {
        channel as int
    } else {
        0x8000_0000 - channel - 1
    }
}

/// Turns a single-precision bit pattern into a channel.
pub fn channel_from_bits(bits: u32) -> (channel: i32)
    ensures
        channel == channel_of_bits(bits),
        bits_of_channel(channel) == bits,
{
    if bits < 0x8000_0000 {
        bits as i32
    } else {
        let magnitude: u32 = bits - 0x8000_0000;
        -(magnitude as i32) - 1
    }
}

/// Turns a channel back into the bit pattern it stands for.
pub fn channel_to_bits(channel: i32) -> (bits: u32)
    ensures
        bits == bits_of_channel(channel),
        channel_of_bits(bits) == channel,
{
    if channel >= 0 {
        channel as u32
    } else {
        let magnitude: u32 = (-(channel + 1)) as u32;
        magnitude + 0x8000_0000
    }
}

/// Among patterns of one sign, the channel follows the magnitude: upwards
/// for a clear sign bit, downwards for a set one; and every channel of a
/// set sign bit lies below every channel of a clear one.
pub proof fn lemma_channel_order(a: u32, b: u32)
    ensures
        a < 0x8000_0000 && b < 0x8000_0000 ==> (a < b <==> channel_of_bits(a) < channel_of_bits(
            b,
        )),
        a >= 0x8000_0000 && b >= 0x8000_0000 ==> (a < b <==> channel_of_bits(a) > channel_of_bits(
            b,
        )),
        a >= 0x8000_0000 && b < 0x8000_0000 ==> channel_of_bits(a) < channel_of_bits(b),
{
}

} // verus!
