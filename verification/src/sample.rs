use vstd::prelude::*;

verus! {

/// One interleaved PCM sample.
///
/// The engine transports samples between the decoder and the output device
/// without ever interpreting their numeric value, so a sample is carried as
/// the raw bit pattern of the 32-bit value the decoder produced. Amplitude
/// work (normalization gain) is floating-point arithmetic and happens in the
/// unverified layer around the engine.
#[derive(Clone, Copy, PartialEq, Eq, Structural, Debug)]
pub struct Sample {
    pub bits: u32,
}

/// True of the silent sample, which channel mapping writes into output
/// channels that no source channel feeds.
pub open spec fn is_silence(s: Sample) -> bool {
    s.bits == 0
}

/// The silent sample.
pub fn silence() -> (s: Sample)
    ensures
        is_silence(s),
{
    Sample { bits: 0 }
}

} // verus!
