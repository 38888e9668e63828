//! The arithmetic of the audio output: the serial audio interface's clock
//! divider, and the bookkeeping of a burst of samples written to its FIFO.
//! The register and codec accesses themselves are the caller's.
use vstd::prelude::*;

verus! {

/// Frequency of the external oscillator that feeds the PLLs, in Hz.
pub const HSE_FREQUENCY: u32 = 25_000_000;

/// Sample rate of the audio output, in Hz.
pub const AUDIO_FREQUENCY: u32 = 48_000;

/// The FIFO level that the interface reports when its FIFO is full.
pub const FIFO_FULL_LEVEL: u8 = 0b101;

/// The serial audio interface's kernel clock, in Hz, for the given PLL
/// settings: the oscillator divided by `pllm`, multiplied by `pllsain`,
/// divided by `pllsaiq`, then by `pllsaidivq + 1` (the field holds the divider
/// less one). Each division rounds down.
pub open spec fn sai_clock_of(pllm: u8, pllsain: u16, pllsaiq: u8, pllsaidivq: u8) -> int {
    (HSE_FREQUENCY as int / pllm as int) * pllsain as int / pllsaiq as int / (pllsaidivq as int + 1)
}

/// Computes [`sai_clock_of`].
pub fn sai_clock_frequency(pllm: u8, pllsain: u16, pllsaiq: u8, pllsaidivq: u8) -> (r: u32)
    requires
        pllm > 0,
        pllsaiq > 0,
        (HSE_FREQUENCY as int / pllm as int) * pllsain as int <= u32::MAX,
    ensures
        r == sai_clock_of(pllm, pllsain, pllsaiq, pllsaidivq),
{
    let vco_input: u32 = HSE_FREQUENCY / (pllm as u32);
    let vco_output: u32 = vco_input * (pllsain as u32);
    let first_level: u32 = vco_output / (pllsaiq as u32);
    first_level / ((pllsaidivq as u32) + 1)
}

/// The master clock divider that brings kernel clock `sai_clock` to 512 times
/// the sample rate `fs`: their ratio, computed to a tenth and rounded down,
/// except that a tenth of 9 rounds up.
pub open spec fn master_clock_divider_of(sai_clock: int, fs: int) -> int {
    let tenths = sai_clock * 10 / (fs * 512);
    tenths / 10 + if tenths % 10 > 8 {
        1int
    } else {
        0int
    }
}

/// Computes [`master_clock_divider_of`].
pub fn master_clock_divider(sai_clock: u32, fs: u32) -> (r: u32)
    requires
        fs > 0,
        fs * 512 <= u32::MAX,
        sai_clock * 10 <= u32::MAX,
    ensures
        r == master_clock_divider_of(sai_clock as int, fs as int),
{
    let tenths: u32 = (sai_clock * 10) / (fs * 512);
    let divider: u32 = tenths / 10;
    if tenths % 10 > 8 {
        divider + 1
    } else {
        divider
    }
}

/// Whether the FIFO level read from the interface means a full FIFO.
pub fn fifo_full(level: u8) -> (r: bool)
    ensures
        r == (level == FIFO_FULL_LEVEL),
{
    level == FIFO_FULL_LEVEL
}

/// The state of the audio output: the bits written in the current burst.
#[derive(Clone, Copy, PartialEq, Eq, Structural, Debug)]
pub struct Sound {
    pub written: u32,
}

impl Sound {
    /// The output as set up: nothing written.
    pub fn new() -> (r: Sound)
        ensures
            r.written == 0,
    {
        Sound { written: 0 }
    }

    /// Periodic work of the output: there is none.
    pub fn tick(&mut self)
        ensures
            *final(self) == *old(self),
    {
    }

    /// Records one frame written to the FIFO, four 32-bit slots with the
    /// sample `data` in the first, and returns the sample for the next frame,
    /// `data` plus 10000. Both counts wrap around.
    pub fn frame_written(&mut self, data: u32) -> (next: u32)
        ensures
            final(self).written == (old(self).written + 128) % 0x1_0000_0000,
            next == (data + 10000) % 0x1_0000_0000,
    {
        self.written = self.written.wrapping_add(32 * 4);
        data.wrapping_add(10000)
    }

    /// Ends a burst: the FIFO is full.
    pub fn burst_done(&mut self)
        ensures
            final(self).written == 0,
    {
        self.written = 0;
    }
}

} // verus!
