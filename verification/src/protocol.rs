//! Audio and text modality descriptors exchanged when a conversation is set up.

use vstd::prelude::*;

verus! {

/// The nanoseconds in one second.
pub const NANOS_PER_SEC: u32 = 1_000_000_000;

/// `numerator / denominator` rounded to the nearest whole number; where two
/// are equally near, the even one.
pub open spec fn rounded_quotient(numerator: nat, denominator: nat) -> nat
    recommends
        denominator > 0,
{
    let quotient = numerator / denominator;
    let remainder = numerator % denominator;
    if 2 * remainder > denominator || (2 * remainder == denominator && quotient % 2 == 1) {
        quotient + 1
    } else {
        quotient
    }
}

/// The rounded quotient is off by half of one at most.
pub proof fn lemma_rounded_quotient_is_nearest(numerator: nat, denominator: nat)
    requires
        denominator > 0,
    ensures
        2 * (rounded_quotient(numerator, denominator) * denominator - numerator) <= denominator,
        2 * (numerator - rounded_quotient(numerator, denominator) * denominator) <= denominator,
{
    let quotient = numerator / denominator;
    let remainder = numerator % denominator;
    assert(numerator == quotient * denominator + remainder && remainder < denominator)
        by (nonlinear_arith)
        requires
            denominator > 0,
            quotient == numerator / denominator,
            remainder == numerator % denominator,
    ;
    assert((quotient + 1) * denominator == quotient * denominator + denominator)
        by (nonlinear_arith);
}

/// A span of time: whole seconds and the nanoseconds beyond them.
#[derive(Debug, Copy, Clone, PartialEq, Eq, Structural)]
pub struct AudioDuration {
    pub secs: u64,
    pub subsec_nanos: u32,
}

impl AudioDuration {
    /// The whole span in nanoseconds.
    pub open spec fn as_nanos(self) -> nat {
        (self.secs * NANOS_PER_SEC + self.subsec_nanos) as nat
    }
}

/// The shape of an interleaved audio stream.
#[derive(Debug, Copy, Clone, PartialEq, Eq, Hash, Structural)]
pub struct AudioFormat {
    pub channels: u16,
    pub sample_rate: u32,
}

impl AudioFormat {
    /// The format of `channels` interleaved channels at `sample_rate` samples
    /// a second for each of them.
    pub fn new(channels: u16, sample_rate: u32) -> (format: Self)
        ensures
            format.channels == channels,
            format.sample_rate == sample_rate,
    {
        Self { channels, sample_rate }
    }

    /// The time that `no_samples` interleaved samples take to play, in
    /// nanoseconds. Samples that do not fill a frame of all channels are
    /// left out.
    pub open spec fn duration_nanos(self, no_samples: nat) -> nat {
        rounded_quotient(
            (no_samples / self.channels as nat) * NANOS_PER_SEC as nat,
            self.sample_rate as nat,
        )
    }

    /// The time that `no_samples` interleaved samples take to play, to the
    /// nearest nanosecond.
    pub fn duration(&self, no_samples: usize) -> (length: AudioDuration)
        requires
            self.channels > 0,
            self.sample_rate > 0,
        ensures
            length.subsec_nanos < NANOS_PER_SEC,
            length.as_nanos() == self.duration_nanos(no_samples as nat),
    {
        let mono_sample_count: usize = no_samples / (self.channels as usize);
        let scaled: u128 = (mono_sample_count as u128) * (NANOS_PER_SEC as u128);
        let rate: u128 = self.sample_rate as u128;
        let quotient: u128 = scaled / rate;
        let remainder: u128 = scaled % rate;
        let nanos: u128 = if 2 * remainder > rate || (2 * remainder == rate && quotient % 2 == 1) {
            quotient + 1
        } else {
            quotient
        };
        assert(nanos <= scaled) by (nonlinear_arith)
            requires
                rate > 0,
                quotient == scaled / rate,
                remainder == scaled % rate,
                nanos == quotient || (nanos == quotient + 1 && 2 * remainder >= rate),
        ;
        let secs: u128 = nanos / (NANOS_PER_SEC as u128);
        let subsec_nanos: u128 = nanos % (NANOS_PER_SEC as u128);
        assert(secs <= mono_sample_count) by (nonlinear_arith)
            requires
                nanos <= mono_sample_count * 1_000_000_000,
                secs == nanos / 1_000_000_000,
        ;
        AudioDuration { secs: secs as u64, subsec_nanos: subsec_nanos as u32 }
    }
}

/// What a conversation accepts as input.
#[derive(Debug, Copy, Clone)]
pub enum InputModality {
    Audio { format: AudioFormat },
    Text,
}

impl InputModality {
    /// Audio can be received only by an audio input of exactly the same format.
    pub fn can_receive_audio(&self, input_format: AudioFormat) -> (accepted: bool)
        ensures
            accepted == (*self == (InputModality::Audio { format: input_format })),
    {
        match self {
            InputModality::Audio { format } => *format == input_format,
            InputModality::Text => false,
        }
    }
}

/// What a conversation produces as output.
#[derive(Debug, Clone, PartialEq, Eq)]
pub enum OutputModality {
    Audio { format: AudioFormat },
    Text,
    InterimText,
}

} // verus!
