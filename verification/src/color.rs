use vstd::prelude::*;

verus! {

/// Represents the color of the Led.
#[derive(Clone, Copy, Debug, PartialEq, Eq, Structural)]
pub enum Led {
    Red,
    Green,
    Blue,
    Yellow,
    Orange,
    Pink,
    Cyan,
    White,
    Blank,
}

/// The red, green and blue channel values (each 0-255) that a color is rendered
/// with on the device.
pub open spec fn led_rgb(led: Led) -> (u8, u8, u8) {
    match led {
        Led::Red => (255u8, 0u8, 0u8),
        Led::Green => (0u8, 255u8, 0u8),
        Led::Blue => (0u8, 0u8, 255u8),
        Led::Yellow => (255u8, 255u8, 0u8),
        Led::Orange => (255u8, 165u8, 0u8),
        Led::Pink => (255u8, 192u8, 203u8),
        Led::Cyan => (0u8, 255u8, 255u8),
        Led::White => (255u8, 255u8, 255u8),
        Led::Blank => (0u8, 0u8, 0u8),
    }
}

impl Led {
    /// The channel triple that is sent to the device for this color.
    pub fn rgb(&self) -> (r: (u8, u8, u8))
        ensures
            r == led_rgb(*self),
    {
        match *self {
            Led::Red => (255, 0, 0),
            Led::Green => (0, 255, 0),
            Led::Blue => (0, 0, 255),
            Led::Yellow => (255, 255, 0),
            Led::Orange => (255, 165, 0),
            Led::Pink => (255, 192, 203),
            Led::Cyan => (0, 255, 255),
            Led::White => (255, 255, 255),
            Led::Blank => (0, 0, 0),
        }
    }
}

} // verus!
