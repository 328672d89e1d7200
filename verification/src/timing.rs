use vstd::prelude::*;
use crate::DEFAULT_FPS_CODE;
use crate::SAMPLE_RATE;
use crate::SCREEN_WIDTH;
use crate::SCREEN_HEIGHT;

verus! {

/// Audio/video timing as republished to the host: the fixed default screen
/// geometry, a frame-rate code and the audio sample rate. A rate code is the
/// host's binary frames-per-second value carried as its raw 64-bit pattern;
/// the library never interprets it beyond bit-for-bit comparison.
#[derive(Clone, Copy, PartialEq, Eq, Structural, Debug)]
pub struct AvParams {
    pub width: u32,
    pub height: u32,
    pub fps_code: u64,
    pub sample_rate: u64,
}

/// The last frame rate published to the host, as a rate code. It starts at
/// the fixed default and changes only when the engine reports another rate.
pub struct RefreshRate {
    pub code: u64,
}

/// The timing block published for a given rate code: geometry and sample rate
/// are fixed, only the frame rate varies.
pub open spec fn spec_av_params(code: u64) -> AvParams {
    AvParams {
        width: SCREEN_WIDTH,
        height: SCREEN_HEIGHT,
        fps_code: code,
        sample_rate: SAMPLE_RATE,
    }
}

/// One observation of the engine-reported rate: the published rate after it,
/// and the timing block to republish, if any.
pub open spec fn spec_observe(published: u64, reported: u64) -> (u64, Option<AvParams>) {
    if reported != published {
        (reported, Some(spec_av_params(reported)))
    } else {
        (published, None)
    }
}

impl RefreshRate {
    pub fn new() -> (r: RefreshRate)
        ensures
            r.code == DEFAULT_FPS_CODE,
    {
        RefreshRate { code: DEFAULT_FPS_CODE }
    }

    pub fn current(&self) -> (r: u64)
        ensures
            r == self.code,
    {
        self.code
    }

    /// The timing block that `current` drives, published to the host at load
    /// time and after every renegotiation.
    pub fn av_params(&self) -> (r: AvParams)
        ensures
            r == spec_av_params(self.code),
    {
        AvParams { width: SCREEN_WIDTH, height: SCREEN_HEIGHT, fps_code: self.code, sample_rate: SAMPLE_RATE }
    }

    /// Compare the engine-reported instantaneous rate against the published
    /// one. An unchanged rate is a no-op. A changed rate is stored and the
    /// timing to republish is returned — with the new rate, the same geometry
    /// and the same sample rate — so each drift is republished exactly once:
    /// a second observation of the same rate returns nothing.
    pub fn observe(&mut self, reported: u64) -> (r: Option<AvParams>)
        ensures
            (final(self).code, r) == spec_observe(old(self).code, reported),
            reported == old(self).code ==> r is None && final(self).code == old(self).code,
            reported != old(self).code ==> final(self).code == reported
                && r == Some(spec_av_params(reported)),
    {
        if reported != self.code {
            self.code = reported;
            Some(self.av_params())
        } else {
            None
        }
    }
}

/// A drifted rate is republished exactly once, and geometry and sample rate
/// stay unchanged: when the engine-reported rate differs from the published
/// one, the first observation republishes a timing block carrying the new
/// rate, the fixed geometry and the fixed sample rate; a second observation
/// of the same reported rate republishes nothing.
pub proof fn lemma_republish_exactly_once(published: u64, reported: u64)
    ensures
        reported != published ==> spec_observe(published, reported).1
            == Some(spec_av_params(reported)),
        spec_av_params(reported).fps_code == reported,
        spec_av_params(reported).width == SCREEN_WIDTH,
        spec_av_params(reported).height == SCREEN_HEIGHT,
        spec_av_params(reported).sample_rate == SAMPLE_RATE,
        spec_observe(spec_observe(published, reported).0, reported).1 is None,
{
}

} // verus!
