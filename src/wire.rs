//! What the controller receives: the steps a transport performs.

use vstd::prelude::*;

verus! {

/// One unit of work for the transport that owns the bus.
///
/// Consecutive [`Step::Data`] bytes form one parameter transfer and
/// consecutive [`Step::Pixel`] words one pixel transfer on the data
/// channel. A transport performs the steps in order and abandons the rest
/// at the first failure.
#[derive(Debug, Clone, Copy, PartialEq, Eq, Structural)]
pub enum Step {
    /// One opcode byte on the command channel.
    Command(u8),
    /// One parameter byte on the data channel.
    Data(u8),
    /// One pixel word on the data channel, most significant byte first.
    Pixel(u16),
    /// A pause of the given number of milliseconds.
    DelayMs(u32),
}

/// One unit of work on the reset line.
#[derive(Debug, Clone, Copy, PartialEq, Eq, Structural)]
pub enum ResetStep {
    /// Drive the reset line high.
    SetHigh,
    /// Drive the reset line low.
    SetLow,
    /// A pause of the given number of milliseconds.
    DelayMs(u32),
}

/// Parameter bytes as data-channel steps.
pub open spec fn data_steps(bytes: Seq<u8>) -> Seq<Step> {
    bytes.map_values(|b: u8| Step::Data(b))
}

/// Pixel words as data-channel steps.
pub open spec fn pixel_steps(words: Seq<u16>) -> Seq<Step> {
    words.map_values(|w: u16| Step::Pixel(w))
}

/// Appends one pixel step for each of `words[start..end]`.
pub fn push_pixels(out: &mut Vec<Step>, words: &Vec<u16>, start: usize, end: usize)
    requires
        start <= end <= words@.len(),
    ensures
        final(out)@ == old(out)@ + pixel_steps(words@.subrange(start as int, end as int)),
{
    let ghost before = out@;
    for k in start..end
        invariant
            start <= end <= words@.len(),
            out@ == before + pixel_steps(words@.subrange(start as int, k as int)),
    {
        out.push(Step::Pixel(words[k]));
        assert(words@.subrange(start as int, k + 1) =~= words@.subrange(
            start as int,
            k as int,
        ).push(words@[k as int]));
        assert(pixel_steps(words@.subrange(start as int, k + 1)) =~= pixel_steps(
            words@.subrange(start as int, k as int),
        ).push(Step::Pixel(words@[k as int])));
    }
}

} // verus!
