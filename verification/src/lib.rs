use vstd::prelude::*;

mod input;
mod memory;
mod pacer;
mod session;
mod state;
mod timing;
mod video;

pub use memory::MemoryKind;
pub use memory::memory_kind;
pub use memory::memory_region_backed;
pub use memory::memory_region_size;
pub use memory::spec_memory_kind;
pub use memory::MEMORY_ID_SAVE_RAM;
pub use memory::MEMORY_ID_RTC;
pub use memory::MEMORY_ID_SYSTEM_RAM;
pub use memory::MEMORY_ID_VIDEO_RAM;
pub use session::LoadError;
pub use session::Rotation;
pub use session::Session;
pub use session::host_rotation_code;
pub use state::apply_restore;
pub use state::snapshot_size;

pub use input::HostButtons;
pub use input::InputWrites;
pub use input::joystick_bits;
pub use input::lemma_second_poll_writes_nothing;
pub use input::poll_decision;
pub use input::spec_joystick_bits;
pub use input::spec_registers_after;
pub use input::spec_switches_after;
pub use input::switches_after;
pub use input::JOY_UP;
pub use input::JOY_DOWN;
pub use input::JOY_LEFT;
pub use input::JOY_RIGHT;
pub use input::JOY_OPTION_1;
pub use input::JOY_OPTION_2;
pub use input::JOY_INSIDE;
pub use input::JOY_OUTSIDE;
pub use input::SWITCH_PAUSE;
pub use pacer::AudioPacer;
pub use timing::AvParams;
pub use timing::RefreshRate;
pub use timing::lemma_republish_exactly_once;
pub use timing::spec_av_params;
pub use timing::spec_observe;
pub use video::blit;
pub use video::spec_xrgb;
pub use video::xrgb_pixel;

verus! {

/// Crystal frequency of the emulated machine, in hardware cycles per second.
pub const CRYSTAL_FREQUENCY: u64 = 16_000_000;

/// Audio sample rate published to the host, in samples per second.
pub const SAMPLE_RATE: u64 = 22_050;

/// Hardware cycles between two audio samples (clock over sample rate,
/// truncated): the fixed audio cadence, independent of video framing.
pub const TICKS_PER_AUDIO_SAMPLE: u64 = CRYSTAL_FREQUENCY / SAMPLE_RATE;

/// Fixed screen geometry of the emulated machine, in pixels.
pub const SCREEN_WIDTH: u32 = 160;

pub const SCREEN_HEIGHT: u32 = 102;

/// Pixels in one full video frame; the frame buffer is never resized.
pub const FRAME_BUFFER_LENGTH: usize = 160 * 102;

/// Rate code of the default 75 frames-per-second published until the engine
/// reports its own rate (the host's binary rate encoding of 75).
pub const DEFAULT_FPS_CODE: u64 = 0x4052_C000_0000_0000;

pub fn ticks_per_audio_sample() -> (r: u64)
    ensures
        r == TICKS_PER_AUDIO_SAMPLE,
        r == 725,
{
    TICKS_PER_AUDIO_SAMPLE
}

/// Name the adapter declares to the host.
pub fn core_name() -> (r: &'static str)
    ensures
        r@ == "holani"@,
{
    "holani"
}

/// The two program-payload file-extension conventions the adapter accepts.
pub fn valid_extensions() -> (r: &'static str)
    ensures
        r@ == "lnx|o"@,
{
    "lnx|o"
}

} // verus!
