//! Colours, and the palette that the three demos share.
use vstd::prelude::*;

verus! {

/// An opaque colour.
#[derive(Clone, Copy, Debug, PartialEq, Eq, Structural)]
pub struct Rgb {
    pub r: u8,
    pub g: u8,
    pub b: u8,
}

/// What a colour of the shared palette stands for.
#[derive(Clone, Copy, Debug, PartialEq, Eq, Structural)]
pub enum Tone {
    /// Active or running.
    Active,
    /// Waiting or blocked.
    Waiting,
    /// Eating, or success.
    Success,
    /// Idle or thinking.
    Idle,
    /// A writer writing.
    Writing,
    /// The background of a window.
    Background,
    /// The background of a panel.
    Panel,
    /// Outlines.
    Black,
    /// Writing on dark ground.
    White,
}

impl Tone {
    /// The colour of the tone.
    pub open spec fn color(self) -> Rgb {
        match self {
            Tone::Active => Rgb { r: 0x25, g: 0x63, b: 0xeb },
            Tone::Waiting => Rgb { r: 0xea, g: 0x58, b: 0x0c },
            Tone::Success => Rgb { r: 0x16, g: 0xa3, b: 0x4a },
            Tone::Idle => Rgb { r: 0x6b, g: 0x72, b: 0x80 },
            Tone::Writing => Rgb { r: 0xdc, g: 0x26, b: 0x26 },
            Tone::Background => Rgb { r: 0xff, g: 0xff, b: 0xff },
            Tone::Panel => Rgb { r: 0xf8, g: 0xf9, b: 0xfa },
            Tone::Black => Rgb { r: 0, g: 0, b: 0 },
            Tone::White => Rgb { r: 255, g: 255, b: 255 },
        }
    }

    /// The colour of the tone.
    pub fn rgb(self) -> (c: Rgb)
        ensures
            c == self.color(),
            65536 * c.r + 256 * c.g + c.b == (match self {
                Tone::Active => 0x2563ebint,
                Tone::Waiting => 0xea580cint,
                Tone::Success => 0x16a34aint,
                Tone::Idle => 0x6b7280int,
                Tone::Writing => 0xdc2626int,
                Tone::Background => 0xffffffint,
                Tone::Panel => 0xf8f9faint,
                Tone::Black => 0x000000int,
                Tone::White => 0xffffffint,
            }),
    {
        match self {
            Tone::Active => Rgb { r: 0x25, g: 0x63, b: 0xeb },
            Tone::Waiting => Rgb { r: 0xea, g: 0x58, b: 0x0c },
            Tone::Success => Rgb { r: 0x16, g: 0xa3, b: 0x4a },
            Tone::Idle => Rgb { r: 0x6b, g: 0x72, b: 0x80 },
            Tone::Writing => Rgb { r: 0xdc, g: 0x26, b: 0x26 },
            Tone::Background => Rgb { r: 0xff, g: 0xff, b: 0xff },
            Tone::Panel => Rgb { r: 0xf8, g: 0xf9, b: 0xfa },
            Tone::Black => Rgb { r: 0, g: 0, b: 0 },
            Tone::White => Rgb { r: 255, g: 255, b: 255 },
        }
    }
}

/// A colour to be dimmed by chance: to `least` percent of its strength for a
/// draw of zero, and not at all for the largest.
#[derive(Clone, Copy, Debug, PartialEq, Eq, Structural)]
pub struct Shade {
    pub color: Rgb,
    pub least: u64,
    pub draw: u64,
}

} // verus!
