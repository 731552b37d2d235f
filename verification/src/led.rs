//! Color computation for the status LEDs.
//!
//! The LED task itself is an external collaborator: it owns the LED
//! strip, a periodic tick, and the device-mode color shown on the last
//! LED, and it has no interface with the input pipeline. Only its color
//! arithmetic lives here.

use vstd::prelude::*;

verus! {

/// One LED color, eight bits per channel.
#[derive(Clone, Copy, Debug, PartialEq, Eq, Structural)]
pub struct Rgb {
    pub r: u8,
    pub g: u8,
    pub b: u8,
}

/// The rainbow-wheel color at `pos`: the wheel runs red to blue to green
/// and back to red over the 256 positions, each third of the wheel
/// blending two channels linearly.
pub open spec fn spec_wheel(pos: u8) -> Rgb {
    let p = 255 - pos as int;
    if p < 85 {
        Rgb { r: (255 - p * 3) as u8, g: 0, b: (p * 3) as u8 }
    } else if p < 170 {
        let q = p - 85;
        Rgb { r: 0, g: (q * 3) as u8, b: (255 - q * 3) as u8 }
    } else {
        let q = p - 170;
        Rgb { r: (q * 3) as u8, g: (255 - q * 3) as u8, b: 0 }
    }
}

/// Compute the rainbow-wheel color at `pos`.
pub fn wheel(wheel_pos: u8) -> (color: Rgb)
    ensures
        color == spec_wheel(wheel_pos),
{
    let p: u8 = 255 - wheel_pos;
    if p < 85 {
        Rgb { r: 255 - p * 3, g: 0, b: p * 3 }
    } else if p < 170 {
        let q: u8 = p - 85;
        Rgb { r: 0, g: q * 3, b: 255 - q * 3 }
    } else {
        let q: u8 = p - 170;
        Rgb { r: q * 3, g: 255 - q * 3, b: 0 }
    }
}

} // verus!
