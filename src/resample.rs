//! Conversion of an audio unit to the engine's mono sample rate.

use vstd::prelude::*;
use crate::audio::{AudioUnit, PipelineError, MAX_RATE, downmix, downmix_samples};

verus! {

/// The rate, in hertz, that the speech engine requires.
pub const ENGINE_RATE: u32 = 16000;

/// What fon's stream resampler makes of mono samples at `from_hz` when
/// converted to `to_hz`.
pub uninterp spec fn fon_resampled(samples: Seq<i16>, from_hz: u32, to_hz: u32) -> Seq<i16>;

/// `a / b` rounded up.
pub open spec fn ceil_div(a: int, b: int) -> int {
    (a + b - 1) / b
}

/// The down-mix of interleaved samples with `c` channels, as 16-bit samples.
pub open spec fn mono_of(s: Seq<i16>, c: nat) -> Seq<i16> {
    Seq::new(downmix(s, c).len(), |f: int| downmix(s, c)[f] as i16)
}

/// A mono buffer of samples at a sample rate.
pub struct ResampledBuffer {
    pub samples: Vec<i16>,
    pub sample_rate: u32,
}

/// Relies on fon's `Audio::with_audio`: a mono buffer at `to_hz` whose length
/// is the input's scaled by `to_hz / from_hz`, rounded up (fon computes it in
/// `f64`, which is exact while the product stays below 2^52). fon panics on a
/// rate of zero, and its filter setup multiplies rates in `u32`, so both
/// rates are kept within `1..=MAX_RATE`. `with_i16_buffer` and
/// `as_i16_slice` only move the samples in and out.
#[verifier::external_body]
fn fon_resample_mono(samples: &Vec<i16>, from_hz: u32, to_hz: u32) -> (r: ResampledBuffer)
    requires
        0 < from_hz <= MAX_RATE,
        0 < to_hz <= MAX_RATE,
    ensures
        r.samples@ == fon_resampled(samples@, from_hz, to_hz),
        r.sample_rate == to_hz,
        samples@.len() * to_hz < 0x10_0000_0000_0000 ==> r.samples@.len() == ceil_div(
            samples@.len() * to_hz,
            from_hz as int,
        ),
{
    let input = fon::Audio::<fon::chan::Ch16, 1>::with_i16_buffer(from_hz, samples.as_slice());
    let mut output = fon::Audio::<fon::chan::Ch16, 1>::with_audio(to_hz, &input);
    let sample_rate = output.sample_rate().get();
    ResampledBuffer { samples: output.as_i16_slice().to_vec(), sample_rate }
}

/// Accepts a buffer rate only when it is the rate the engine requires.
pub fn check_rate(observed: u32, required: u32) -> (r: Result<(), PipelineError>)
    ensures
        r is Ok <==> observed == required,
        r is Err ==> r == Err::<(), PipelineError>(PipelineError::RateMismatch),
{
    if observed == required {
        Ok(())
    } else {
        Err(PipelineError::RateMismatch)
    }
}

/// Converts audio units to mono at a fixed target rate.
pub struct Resampler {
    pub target_rate: u32,
}

impl Resampler {
    pub open spec fn wf(&self) -> bool {
        0 < self.target_rate <= MAX_RATE
    }

    /// A resampler for the speech engine's rate.
    pub fn for_engine() -> (r: Resampler)
        ensures
            r.wf(),
            r.target_rate == ENGINE_RATE,
    {
        Resampler { target_rate: ENGINE_RATE }
    }

    /// A resampler to `target_rate`, which must be a supported rate.
    pub fn with_target(target_rate: u32) -> (r: Result<Resampler, PipelineError>)
        ensures
            r is Ok <==> 0 < target_rate <= MAX_RATE,
            r is Ok ==> r->Ok_0.target_rate == target_rate && r->Ok_0.wf(),
            r is Err ==> r == Err::<Resampler, PipelineError>(PipelineError::UnsupportedRate),
    {
        if target_rate == 0 || target_rate > MAX_RATE {
            Err(PipelineError::UnsupportedRate)
        } else {
            Ok(Resampler { target_rate })
        }
    }

    /// Down-mixes a valid unit to mono, then resamples it from the unit's
    /// rate to the target rate. Invalid units are rejected, and so is the
    /// converted buffer when its rate is not the one the engine requires.
    pub fn resample(&self, unit: &AudioUnit) -> (r: Result<ResampledBuffer, PipelineError>)
        requires
            self.wf(),
        ensures
            r is Ok <==> unit.valid() && self.target_rate == ENGINE_RATE,
            r is Err ==> r == Err::<ResampledBuffer, PipelineError>(
                resample_error(unit, self.target_rate),
            ),
            r is Ok ==> r->Ok_0.sample_rate == ENGINE_RATE && resampled_from(
                r->Ok_0,
                unit,
                self.target_rate,
            ),
    {
        match unit.validate() {
            Err(e) => Err(e),
            Ok(()) => {
                let mono = downmix_samples(&unit.samples, unit.channels);
                let out = fon_resample_mono(&mono, unit.sample_rate, self.target_rate);
                match check_rate(out.sample_rate, ENGINE_RATE) {
                    Err(e) => Err(e),
                    Ok(()) => {
                        assert(mono@ =~= mono_of(unit.samples@, unit.channels as nat));
                        Ok(out)
                    },
                }
            },
        }
    }
}

/// Why resampling `unit` to `target_rate` fails, when it does: a unit
/// without whole frames, then an unsupported unit rate, then a converted
/// rate other than the engine's.
pub open spec fn resample_error(unit: &AudioUnit, target_rate: u32) -> PipelineError {
    if !unit.frames_whole() {
        PipelineError::ChannelMismatch
    } else if !unit.rate_supported() {
        PipelineError::UnsupportedRate
    } else {
        PipelineError::RateMismatch
    }
}

/// `buf` is what resampling `unit` to `target_rate` gives: fon's conversion of
/// the unit's down-mix, at the target rate, of the length that rate implies.
pub open spec fn resampled_from(buf: ResampledBuffer, unit: &AudioUnit, target_rate: u32) -> bool {
    let frames = unit.samples@.len() / (unit.channels as nat);
    &&& buf.sample_rate == target_rate
    &&& buf.samples@ == fon_resampled(
        mono_of(unit.samples@, unit.channels as nat),
        unit.sample_rate,
        target_rate,
    )
    &&& frames * target_rate < 0x10_0000_0000_0000 ==> buf.samples@.len() == ceil_div(
        frames * target_rate,
        unit.sample_rate as int,
    )
}

} // verus!
