use vstd::prelude::*;

verus! {

/// CPU machine cycles in one scanline.
pub const CPU_CLOCK_PER_LINE: u64 = 114;

/// PPU dots in one scanline.
pub const DOTS_PER_LINE: u64 = 456;

/// Scanlines in one frame (144 visible, 10 in vertical blank).
pub const LINES_PER_FRAME: u64 = 154;

/// PPU dots in one frame.
pub const DOTS_PER_FRAME: u64 = 70224;

/// First scanline after the visible area.
pub const VISIBLE_LINES: u64 = 144;

pub const SCREEN_WIDTH: u64 = 160;

pub const SCREEN_HEIGHT: u64 = 144;

pub const INT_VBLANK: usize = 0;

pub const INT_LCD_STAT: usize = 1;

pub const INT_TIMER: usize = 2;

pub const INT_SERIAL: usize = 3;

pub const INT_JOYPAD: usize = 4;

pub const AUDIO_SAMPLE_PER_FRAME: u64 = 800;

/// The frame timing constants agree with each other.
pub proof fn lemma_timing_constants()
    ensures
        DOTS_PER_LINE == CPU_CLOCK_PER_LINE * 4,
        DOTS_PER_FRAME == DOTS_PER_LINE * LINES_PER_FRAME,
        VISIBLE_LINES == SCREEN_HEIGHT,
{
}

} // verus!
