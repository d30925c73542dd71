//! Audio units as the voice transport delivers them, and the down-mix rule.

use vstd::prelude::*;

verus! {

/// Highest sample rate, in hertz, that the pipeline accepts.
pub const MAX_RATE: u32 = 192000;

/// Failures of the pipeline. All but `ModelUnavailable` concern one unit only.
#[derive(Clone, Copy, Debug, PartialEq, Eq, Structural)]
pub enum PipelineError {
    /// The channel count is zero, or the sample count is not a multiple of it.
    ChannelMismatch,
    /// The sample rate is zero or above `MAX_RATE`.
    UnsupportedRate,
    /// The resampled buffer does not carry the engine's rate.
    RateMismatch,
    /// The speech model could not be loaded; the engine is never usable.
    ModelUnavailable,
    /// The engine failed on one buffer.
    InferenceFailure,
}

/// One packet of interleaved signed 16-bit PCM, with its channel count and rate.
pub struct AudioUnit {
    pub samples: Vec<i16>,
    pub channels: u32,
    pub sample_rate: u32,
}

/// Sum of the first `k` channel samples of frame `f` of an interleaved sequence.
pub open spec fn frame_sum(s: Seq<i16>, c: nat, f: int, k: nat) -> int
    decreases k,
{
    if k == 0 {
        0
    } else {
        frame_sum(s, c, f, (k - 1) as nat) + s[f * c + k - 1] as int
    }
}

/// The mono sample of frame `f`: the mean of its channels, rounded down.
pub open spec fn mix_frame(s: Seq<i16>, c: nat, f: int) -> int {
    frame_sum(s, c, f, c) / (c as int)
}

/// The down-mix of an interleaved sequence with `c` channels: one sample per frame.
pub open spec fn downmix(s: Seq<i16>, c: nat) -> Seq<int> {
    Seq::new(s.len() / c, |f: int| mix_frame(s, c, f))
}

impl AudioUnit {
    /// The samples split into whole frames of `channels` samples each.
    pub open spec fn frames_whole(&self) -> bool {
        self.channels > 0 && self.samples@.len() % (self.channels as nat) == 0
    }

    pub open spec fn rate_supported(&self) -> bool {
        0 < self.sample_rate <= MAX_RATE
    }

    pub open spec fn valid(&self) -> bool {
        self.frames_whole() && self.rate_supported()
    }

    pub fn new(samples: Vec<i16>, channels: u32, sample_rate: u32) -> (r: AudioUnit)
        ensures
            r.samples@ == samples@,
            r.channels == channels,
            r.sample_rate == sample_rate,
    {
        AudioUnit { samples, channels, sample_rate }
    }

    /// Accepts a unit whose samples form whole frames at a supported rate.
    pub fn validate(&self) -> (r: Result<(), PipelineError>)
        ensures
            r is Ok <==> self.valid(),
            !self.frames_whole() ==> r == Err::<(), PipelineError>(PipelineError::ChannelMismatch),
            self.frames_whole() && !self.rate_supported() ==> r == Err::<(), PipelineError>(
                PipelineError::UnsupportedRate,
            ),
    {
        if self.channels == 0 || self.samples.len() % (self.channels as usize) != 0 {
            Err(PipelineError::ChannelMismatch)
        } else if self.sample_rate == 0 || self.sample_rate > MAX_RATE {
            Err(PipelineError::UnsupportedRate)
        } else {
            Ok(())
        }
    }
}

proof fn lemma_frame_sum_bounds(s: Seq<i16>, c: nat, f: int, k: nat)
    requires
        0 <= f,
        (f + 1) * c <= s.len(),
        k <= c,
    ensures
        -32768 * k <= frame_sum(s, c, f, k) <= 32767 * k,
    decreases k,
{
    if k > 0 {
        assert(f * c + k - 1 < (f + 1) * c) by (nonlinear_arith)
            requires k <= c, k > 0;
        lemma_frame_sum_bounds(s, c, f, (k - 1) as nat);
    }
}

proof fn lemma_frame_sum_constant(s: Seq<i16>, c: nat, f: int, k: nat)
    requires
        k <= c,
        forall|j: int| 0 <= j < c ==> #[trigger] s[f * c + j] == s[f * c],
    ensures
        frame_sum(s, c, f, k) == k * (s[f * c] as int),
    decreases k,
{
    if k > 0 {
        lemma_frame_sum_constant(s, c, f, (k - 1) as nat);
        let v = s[f * c] as int;
        assert(s[f * c + (k - 1)] == s[f * c]);
        assert(frame_sum(s, c, f, k) == frame_sum(s, c, f, (k - 1) as nat) + v);
        let km = (k - 1) as nat;
        assert(frame_sum(s, c, f, km) == km * v);
        assert(k * v == km * v + v) by (nonlinear_arith)
            requires km == k - 1;
    } else {
        assert(k * (s[f * c] as int) == 0) by (nonlinear_arith)
            requires k == 0;
    }
}

/// Down-mixing channels that all carry the same sample sequence yields that
/// sequence: each frame's mono sample is the sample its channels share.
pub proof fn lemma_downmix_identical_channels(s: Seq<i16>, c: nat)
    requires
        c > 0,
        s.len() % c == 0,
        forall|f: int, j: int|
            0 <= f < s.len() / c && 0 <= j < c ==> #[trigger] s[f * c + j] == s[f * c],
    ensures
        downmix(s, c) == Seq::new(s.len() / c, |f: int| s[f * c] as int),
{
    assert forall|f: int| 0 <= f < s.len() / c implies mix_frame(s, c, f) == s[f * c] as int by {
        assert forall|j: int| 0 <= j < c implies #[trigger] s[f * c + j] == s[f * c] by {
            assert(s[f * c + j] == s[f * c]);
        }
        lemma_frame_sum_constant(s, c, f, c);
        let v = s[f * c] as int;
        let ci = c as int;
        assert((ci * v) / ci == v) by (nonlinear_arith)
            requires ci > 0;
    }
    assert(downmix(s, c) =~= Seq::new(s.len() / c, |f: int| s[f * c] as int));
}

/// Down-mixes interleaved samples to one channel: each frame becomes the mean
/// of its channel samples, rounded down.
pub fn downmix_samples(samples: &Vec<i16>, channels: u32) -> (r: Vec<i16>)
    requires
        channels > 0,
        samples@.len() % (channels as nat) == 0,
    ensures
        r@.len() == downmix(samples@, channels as nat).len(),
        forall|f: int| 0 <= f < r@.len() ==> r@[f] as int == downmix(samples@, channels as nat)[f],
{
    let c = channels as usize;
    let n: usize = samples.len();
    let frames = n / c;
    let ghost s = samples@;
    let ghost cn = channels as nat;
    assert(frames * c == s.len()) by (nonlinear_arith)
        requires frames == s.len() / (c as nat), s.len() % (c as nat) == 0, c > 0;
    let mut out: Vec<i16> = Vec::with_capacity(frames);
    let mut f: usize = 0;
    while f < frames
        invariant
            c == cn,
            c <= 0xffff_ffff,
            cn > 0,
            s == samples@,
            frames == s.len() / cn,
            frames * c == s.len(),
            s.len() == n,
            f <= frames,
            out@.len() == f,
            forall|g: int| 0 <= g < f ==> out@[g] as int == mix_frame(s, cn, g),
        decreases frames - f,
    {
        assert(f * c <= (f + 1) * c <= frames * c) by (nonlinear_arith)
            requires f < frames;
        let base = f * c;
        let mut biased: u64 = 0;
        let mut j: usize = 0;
        while j < c
            invariant
                c == cn,
                c <= 0xffff_ffff,
                s == samples@,
                f < frames,
                frames * c == s.len(),
                s.len() == n,
                (f + 1) * c <= s.len(),
                base == f * c,
                j <= c,
                biased as int == frame_sum(s, cn, f as int, j as nat) + 32768 * j,
                biased <= 65535 * j,
            decreases c - j,
        {
            assert(base + j < (f + 1) * c) by (nonlinear_arith)
                requires base == f * c, j < c;
            let v = samples[base + j];
            assert(65535 * (j + 1) <= 65535 * 0xffff_ffffu64) by (nonlinear_arith)
                requires j < c, c <= 0xffff_ffffu64;
            biased = biased + ((v as i32 + 32768) as u64);
            j = j + 1;
        }
        let mean_biased = biased / (c as u64);
        proof {
            lemma_frame_sum_bounds(s, cn, f as int, cn);
            let t = frame_sum(s, cn, f as int, cn);
            let ci = cn as int;
            assert((t + 32768 * ci) / ci == t / ci + 32768) by (nonlinear_arith)
                requires ci > 0;
            assert(-32768 <= t / ci <= 32767) by (nonlinear_arith)
                requires ci > 0, -32768 * ci <= t <= 32767 * ci;
        }
        let m = (mean_biased as i64 - 32768) as i16;
        out.push(m);
        f = f + 1;
    }
    out
}

} // verus!
