//! The rules of the settings window for the spectrum visualiser.

use vstd::prelude::*;

verus! {

/// The visualiser options the settings window edits.
#[derive(Debug, Clone, Copy, PartialEq, Eq, Structural)]
pub struct SpectrumSettings {
    /// The classic bar look.
    pub old_style: bool,
    /// Draw the spectrum as a line instead of bars.
    pub line_mode: bool,
    /// How many bars are drawn.
    pub bars: usize,
}

/// The range the bar count is chosen from: 40 to 128 bars in the classic
/// look, 40 to 512 otherwise.
pub fn bar_count_range(old_style: bool) -> (r: (usize, usize))
    ensures
        r == (40usize, if old_style { 128usize } else { 512usize }),
{
    (40, if old_style { 128 } else { 512 })
}

/// The range of the FFT size: 500 to 24576 samples.
pub fn fft_size_range() -> (r: (usize, usize))
    ensures
        r == (500usize, 24576usize),
{
    (500, 24576)
}

/// Whether the line-mode option is offered: only outside the classic look.
pub fn line_mode_offered(s: &SpectrumSettings) -> (r: bool)
    ensures
        r == !s.old_style,
{
    !s.old_style
}

/// Switches the classic look on or off; switching it on turns line mode
/// off, and the bar count is kept.
pub fn set_old_style(s: &mut SpectrumSettings, on: bool)
    ensures
        final(s).old_style == on,
        final(s).line_mode == (old(s).line_mode && !on),
        final(s).bars == old(s).bars,
{
    s.old_style = on;
    if on {
        s.line_mode = false;
    }
}

} // verus!
