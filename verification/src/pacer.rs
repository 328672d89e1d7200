use vstd::prelude::*;
use crate::TICKS_PER_AUDIO_SAMPLE;

verus! {

/// Audio pacing state of the cycle scheduler: the number of hardware cycles
/// accrued since the last emitted audio sample. One sample is due every
/// `TICKS_PER_AUDIO_SAMPLE` cycles, independent of video framing.
pub struct AudioPacer {
    pub ticks: u64,
}

impl AudioPacer {
    /// Invariant: the counter never reaches the sampling interval; it is reset
    /// to zero on the cycle that completes an interval.
    pub open spec fn wf(&self) -> bool {
        self.ticks < TICKS_PER_AUDIO_SAMPLE
    }

    pub fn new() -> (r: AudioPacer)
        ensures
            r.wf(),
            r.ticks == 0,
    {
        AudioPacer { ticks: 0 }
    }

    /// Account for one hardware cycle. Returns true exactly when this cycle
    /// completes a sampling interval, i.e. when one stereo sample must be
    /// extracted from the engine and emitted to the host.
    pub fn step(&mut self) -> (emit: bool)
        requires
            old(self).wf(),
        ensures
            final(self).wf(),
            emit == (old(self).ticks + 1 == TICKS_PER_AUDIO_SAMPLE),
            emit ==> final(self).ticks == 0,
            !emit ==> final(self).ticks == old(self).ticks + 1,
    {
        self.ticks = self.ticks + 1;
        if self.ticks == TICKS_PER_AUDIO_SAMPLE {
            self.ticks = 0;
            true
        } else {
            false
        }
    }

    /// Account for a whole budget of hardware cycles at once. Returns the
    /// number of audio samples due over that budget: for every cycle budget,
    /// exactly `floor((ticks + cycles) / TICKS_PER_AUDIO_SAMPLE)` samples are
    /// due and the counter is left in `[0, TICKS_PER_AUDIO_SAMPLE)`.
    pub fn advance(&mut self, cycles: u64) -> (samples: u64)
        requires
            old(self).wf(),
        ensures
            final(self).wf(),
            old(self).ticks + cycles
                == samples * TICKS_PER_AUDIO_SAMPLE + final(self).ticks,
            samples == (old(self).ticks + cycles) as int / TICKS_PER_AUDIO_SAMPLE as int,
            final(self).ticks == (old(self).ticks + cycles) as int % TICKS_PER_AUDIO_SAMPLE as int,
    {
        let ghost t0: int = old(self).ticks as int;
        let mut samples: u64 = 0;
        let mut i: u64 = 0;
        while i < cycles
            invariant
                self.wf(),
                i <= cycles,
                samples <= i,
                t0 + i == samples * TICKS_PER_AUDIO_SAMPLE + self.ticks,
            decreases cycles - i,
        {
            let ghost s0: int = samples as int;
            if self.step() {
                samples = samples + 1;
                proof {
                    assert((s0 + 1) * TICKS_PER_AUDIO_SAMPLE
                        == s0 * TICKS_PER_AUDIO_SAMPLE + TICKS_PER_AUDIO_SAMPLE)
                        by (nonlinear_arith);
                }
            }
            i = i + 1;
        }
        proof {
            lemma_div_mod_unique(
                old(self).ticks + cycles,
                TICKS_PER_AUDIO_SAMPLE as int,
                samples as int,
                self.ticks as int,
            );
        }
        samples
    }
}

/// If `total == q * d + r` with `0 <= r < d`, then `q` and `r` are the
/// quotient and remainder of `total` by `d`.
proof fn lemma_div_mod_unique(total: int, d: int, q: int, r: int)
    requires
        d > 0,
        0 <= r < d,
        0 <= q,
        total == q * d + r,
    ensures
        q == total / d,
        r == total % d,
{
    vstd::arithmetic::div_mod::lemma_fundamental_div_mod_converse(total, d, q, r);
}

} // verus!
