use vstd::prelude::*;
use crate::pacer::AudioPacer;
use crate::timing::AvParams;
use crate::timing::RefreshRate;
use crate::timing::spec_av_params;
use crate::timing::spec_observe;
use crate::video::blit;
use crate::video::spec_xrgb;
use crate::DEFAULT_FPS_CODE;
use crate::FRAME_BUFFER_LENGTH;
use crate::TICKS_PER_AUDIO_SAMPLE;

verus! {

/// Screen orientation derived once from cartridge metadata at load time and
/// never changed for the rest of the session.
#[derive(Clone, Copy, PartialEq, Eq, Structural, Debug)]
pub enum Rotation {
    Zero,
    Ninety,
    TwoSeventy,
}

/// The host's code for each orientation: quarter turns counter-clockwise.
pub fn host_rotation_code(r: Rotation) -> (code: u32)
    ensures
        r is Zero ==> code == 0,
        r is Ninety ==> code == 1,
        r is TwoSeventy ==> code == 3,
{
    match r {
        Rotation::Zero => 0,
        Rotation::Ninety => 1,
        Rotation::TwoSeventy => 3,
    }
}

/// The single generic load-failure signal surfaced to the host; load failures
/// carry no sub-codes.
#[derive(Clone, Copy, PartialEq, Eq, Structural, Debug)]
pub struct LoadError;

/// One running session of the adapter: the audio pacing counter, the last
/// published refresh rate, the fixed-capacity frame buffer and the fixed
/// rotation. The emulated machine itself is held by the embedding layer; the
/// session holds every decision the adapter makes about it.
pub struct Session {
    pub pacer: AudioPacer,
    pub refresh: RefreshRate,
    pub frame_buffer: Vec<u32>,
    pub rotation: Rotation,
}

impl Session {
    pub open spec fn wf(&self) -> bool {
        &&& self.pacer.wf()
        &&& self.frame_buffer@.len() == FRAME_BUFFER_LENGTH
    }

    /// Construct the session for a freshly loaded program: a session exists
    /// exactly when the pixel format was negotiated, program data was present
    /// and the engine accepted the cartridge — a rejected payload constructs
    /// nothing. A new session starts with a zero cycle counter, the default
    /// published rate and a cleared frame buffer.
    pub fn load_game(pixel_format_set: bool, data_present: bool, cart_ok: bool, rotation: Rotation)
        -> (r: Result<Session, LoadError>)
        ensures
            r is Ok <==> (pixel_format_set && data_present && cart_ok),
            r matches Ok(s) ==> s.wf() && s.pacer.ticks == 0
                && s.refresh.code == DEFAULT_FPS_CODE && s.rotation == rotation
                && forall|i: int| 0 <= i < FRAME_BUFFER_LENGTH ==> s.frame_buffer@[i] == 0,
    {
        if !(pixel_format_set && data_present && cart_ok) {
            return Err(LoadError);
        }
        let mut frame_buffer: Vec<u32> = Vec::new();
        let mut i: usize = 0;
        while i < FRAME_BUFFER_LENGTH
            invariant
                i <= FRAME_BUFFER_LENGTH,
                frame_buffer@.len() == i,
                forall|k: int| 0 <= k < i ==> frame_buffer@[k] == 0,
            decreases FRAME_BUFFER_LENGTH - i,
        {
            frame_buffer.push(0);
            i = i + 1;
        }
        Ok(Session {
            pacer: AudioPacer::new(),
            refresh: RefreshRate::new(),
            frame_buffer,
            rotation,
        })
    }

    /// Account for one hardware cycle of the run loop; true exactly when an
    /// audio sample is due on this cycle.
    pub fn tick_audio(&mut self) -> (emit: bool)
        requires
            old(self).wf(),
        ensures
            final(self).wf(),
            final(self).refresh == old(self).refresh,
            final(self).frame_buffer == old(self).frame_buffer,
            final(self).rotation == old(self).rotation,
            emit == (old(self).pacer.ticks + 1 == TICKS_PER_AUDIO_SAMPLE),
            emit ==> final(self).pacer.ticks == 0,
            !emit ==> final(self).pacer.ticks == old(self).pacer.ticks + 1,
    {
        self.pacer.step()
    }

    /// Account for a whole cycle budget of the run loop at once: for every
    /// budget, exactly `floor((ticks + cycles) / TICKS_PER_AUDIO_SAMPLE)`
    /// samples are due and the counter ends in `[0, TICKS_PER_AUDIO_SAMPLE)`.
    pub fn advance_cycles(&mut self, cycles: u64) -> (samples: u64)
        requires
            old(self).wf(),
        ensures
            final(self).wf(),
            final(self).refresh == old(self).refresh,
            final(self).frame_buffer == old(self).frame_buffer,
            final(self).rotation == old(self).rotation,
            old(self).pacer.ticks + cycles
                == samples * TICKS_PER_AUDIO_SAMPLE + final(self).pacer.ticks,
            samples == (old(self).pacer.ticks + cycles) as int / TICKS_PER_AUDIO_SAMPLE as int,
            final(self).pacer.ticks
                == (old(self).pacer.ticks + cycles) as int % TICKS_PER_AUDIO_SAMPLE as int,
    {
        self.pacer.advance(cycles)
    }

    /// Overwrite the frame buffer from the engine's native frame (three bytes
    /// per pixel, red, green, blue), converting every pixel into the
    /// host-negotiated layout.
    pub fn blit_screen(&mut self, rgb: &Vec<u8>)
        requires
            old(self).wf(),
            rgb@.len() == 3 * FRAME_BUFFER_LENGTH,
        ensures
            final(self).wf(),
            final(self).pacer == old(self).pacer,
            final(self).refresh == old(self).refresh,
            final(self).rotation == old(self).rotation,
            forall|i: int| 0 <= i < FRAME_BUFFER_LENGTH ==> final(self).frame_buffer@[i]
                == spec_xrgb(rgb@[3 * i], rgb@[3 * i + 1], rgb@[3 * i + 2]),
    {
        blit(rgb, &mut self.frame_buffer);
    }

    /// End-of-frame timing renegotiation: hand the engine-reported rate to
    /// the negotiator and return the timing block to republish, if the rate
    /// drifted from the published one.
    pub fn check_refresh(&mut self, reported: u64) -> (r: Option<AvParams>)
        requires
            old(self).wf(),
        ensures
            final(self).wf(),
            final(self).pacer == old(self).pacer,
            final(self).frame_buffer == old(self).frame_buffer,
            final(self).rotation == old(self).rotation,
            (final(self).refresh.code, r) == spec_observe(old(self).refresh.code, reported),
    {
        self.refresh.observe(reported)
    }

    /// The audio/video timing currently published to the host.
    pub fn system_av_info(&self) -> (r: AvParams)
        ensures
            r == spec_av_params(self.refresh.code),
    {
        self.refresh.av_params()
    }
}

} // verus!
