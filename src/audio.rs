//! How much audio is handed to the host per frame.
use vstd::prelude::*;

verus! {

/// The largest number of interleaved samples handed over at once.
pub const MAX_SAMPLES: usize = 8192;

/// The interleaved stereo samples for one frame: the output rate divided by
/// the whole frames per second, twice, and at most `MAX_SAMPLES`.
pub open spec fn frame_samples(output_samplerate: u32, fps: u32) -> int {
    let n = (output_samplerate / fps) as int * 2;
    if n < MAX_SAMPLES as int { n } else { MAX_SAMPLES as int }
}

/// The number of samples to mix and hand over per frame at `fps` whole frames
/// per second.
pub fn samples_per_frame(output_samplerate: u32, fps: u32) -> (r: usize)
    requires
        fps >= 1,
    ensures
        r as int == frame_samples(output_samplerate, fps),
        r <= MAX_SAMPLES,
{
    let per_channel = output_samplerate / fps;
    if per_channel >= 4096 {
        MAX_SAMPLES
    } else {
        (per_channel * 2) as usize
    }
}

} // verus!
