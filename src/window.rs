//! Accumulation of resampled audio into windows for the engine, so that
//! inference sees whole utterances rather than single packets.

use vstd::prelude::*;

verus! {

/// `v` counts as quiet under `threshold` when its magnitude is at most that.
pub open spec fn is_quiet(v: i16, threshold: u16) -> bool {
    -(threshold as int) <= v as int <= threshold as int
}

/// Length of the run of quiet samples at the end of `s`.
pub open spec fn trailing_quiet(s: Seq<i16>, threshold: u16) -> nat
    decreases s.len(),
{
    if s.len() == 0 {
        0
    } else if is_quiet(s.last(), threshold) {
        trailing_quiet(s.drop_last(), threshold) + 1
    } else {
        0
    }
}

/// Whether `s` is complete as a window: long enough, or speech followed by
/// a pause of at least `pause` samples.
pub open spec fn window_complete(s: Seq<i16>, length: nat, pause: nat, threshold: u16) -> bool {
    s.len() >= length || (trailing_quiet(s, threshold) >= pause && trailing_quiet(s, threshold)
        < s.len())
}

/// Rolling buffer of mono samples at the engine's rate. Samples are held
/// until the window is complete, then handed out together, in order.
pub struct AudioWindow {
    pending: Vec<i16>,
    /// Samples that complete a window whatever they hold.
    length: usize,
    /// Quiet samples after speech that complete a window.
    pause: usize,
    /// Largest magnitude that counts as quiet.
    threshold: u16,
}

impl AudioWindow {
    pub closed spec fn pending(&self) -> Seq<i16> {
        self.pending@
    }

    pub closed spec fn window_length(&self) -> nat {
        self.length as nat
    }

    pub closed spec fn pause_length(&self) -> nat {
        self.pause as nat
    }

    pub closed spec fn quiet_threshold(&self) -> u16 {
        self.threshold
    }

    pub open spec fn wf(&self) -> bool {
        self.window_length() > 0 && self.pause_length() > 0
    }

    /// A window of `length` samples, cut early by a pause of `pause` quiet
    /// samples, quiet meaning a magnitude of at most `threshold`.
    pub fn new(length: usize, pause: usize, threshold: u16) -> (r: Option<AudioWindow>)
        ensures
            r is Some <==> length > 0 && pause > 0,
            r matches Some(w) ==> w.wf() && w.pending().len() == 0 && w.window_length() == length
                && w.pause_length() == pause && w.quiet_threshold() == threshold,
    {
        if length == 0 || pause == 0 {
            None
        } else {
            Some(AudioWindow { pending: Vec::new(), length, pause, threshold })
        }
    }

    /// Five seconds at 16 kHz, cut early by half a second below 1/64 of full scale.
    pub fn standard() -> (r: AudioWindow)
        ensures
            r.wf(),
            r.pending().len() == 0,
            r.window_length() == 80000,
            r.pause_length() == 8000,
            r.quiet_threshold() == 512,
    {
        AudioWindow { pending: Vec::new(), length: 80000, pause: 8000, threshold: 512 }
    }

    /// Samples held back so far.
    pub fn pending_len(&self) -> (r: usize)
        ensures
            r == self.pending().len(),
    {
        self.pending.len()
    }

    fn quiet_tail(&self) -> (r: usize)
        ensures
            r == trailing_quiet(self.pending@, self.threshold),
    {
        let n = self.pending.len();
        let mut k: usize = 0;
        while k < n && -(self.threshold as i32) <= self.pending[n - 1 - k] as i32
            && self.pending[n - 1 - k] as i32 <= self.threshold as i32
            invariant
                n == self.pending@.len(),
                k <= n,
                forall|j: int| n - k <= j < n ==> is_quiet(#[trigger] self.pending@[j], self.threshold),
            decreases n - k,
        {
            k = k + 1;
        }
        proof {
            Self::lemma_trailing(self.pending@, self.threshold, k as nat);
        }
        k
    }

    proof fn lemma_trailing(s: Seq<i16>, threshold: u16, k: nat)
        requires
            k <= s.len(),
            forall|j: int| s.len() - k <= j < s.len() ==> is_quiet(#[trigger] s[j], threshold),
            k < s.len() ==> !is_quiet(s[s.len() - 1 - k], threshold),
        ensures
            trailing_quiet(s, threshold) == k,
        decreases k,
    {
        if k > 0 {
            let t = s.drop_last();
            assert forall|j: int| t.len() - (k - 1) <= j < t.len() implies is_quiet(
                #[trigger] t[j],
                threshold,
            ) by {
                assert(t[j] == s[j]);
            }
            if (k - 1) < t.len() {
                assert(t[t.len() - 1 - (k - 1)] == s[s.len() - 1 - k]);
            }
            Self::lemma_trailing(t, threshold, (k - 1) as nat);
            assert(is_quiet(s.last(), threshold));
        } else if s.len() > 0 {
            assert(!is_quiet(s.last(), threshold));
        }
    }

    /// Appends `samples`. When that completes the window, hands out all held
    /// samples and starts an empty one; else holds them. Nothing is lost or
    /// reordered: what was held, then `samples`, is what is handed out, then
    /// what stays held.
    pub fn push(&mut self, samples: &Vec<i16>) -> (r: Option<Vec<i16>>)
        requires
            old(self).wf(),
            old(self).pending().len() + samples@.len() <= usize::MAX,
        ensures
            final(self).wf(),
            final(self).window_length() == old(self).window_length(),
            final(self).pause_length() == old(self).pause_length(),
            final(self).quiet_threshold() == old(self).quiet_threshold(),
            ({
                let all = old(self).pending() + samples@;
                if window_complete(
                    all,
                    old(self).window_length(),
                    old(self).pause_length(),
                    old(self).quiet_threshold(),
                ) {
                    r matches Some(w) && w@ == all && final(self).pending().len() == 0
                } else {
                    r is None && final(self).pending() == all
                }
            }),
    {
        let mut i: usize = 0;
        let ghost start = self.pending@;
        while i < samples.len()
            invariant
                self.length == old(self).length,
                self.pause == old(self).pause,
                self.threshold == old(self).threshold,
                self.length > 0,
                self.pause > 0,
                start == old(self).pending(),
                start.len() + samples@.len() <= usize::MAX,
                i <= samples@.len(),
                self.pending@ == start + samples@.subrange(0, i as int),
            decreases samples@.len() - i,
        {
            self.pending.push(samples[i]);
            i = i + 1;
            assert(self.pending@ =~= start + samples@.subrange(0, i as int));
        }
        assert(samples@.subrange(0, samples@.len() as int) =~= samples@);
        let quiet = self.quiet_tail();
        if self.pending.len() >= self.length || (quiet >= self.pause && quiet < self.pending.len()) {
            let mut out: Vec<i16> = Vec::new();
            std::mem::swap(&mut out, &mut self.pending);
            Some(out)
        } else {
            None
        }
    }

    /// Hands out whatever is held, complete or not, and starts an empty window.
    pub fn flush(&mut self) -> (r: Vec<i16>)
        ensures
            r@ == old(self).pending(),
            final(self).pending().len() == 0,
            final(self).window_length() == old(self).window_length(),
            final(self).pause_length() == old(self).pause_length(),
            final(self).quiet_threshold() == old(self).quiet_threshold(),
    {
        let mut out: Vec<i16> = Vec::new();
        std::mem::swap(&mut out, &mut self.pending);
        out
    }
}

} // verus!
