//! The colour commands of the three-channel indicator light.

use vstd::prelude::*;

verus! {

/// The colours the indicator can show.
#[derive(Clone, Copy, Debug, PartialEq, Eq, Structural)]
pub enum Color {
    Off,
    Blue,
    Red,
    Green,
    Yellow,
    Pink,
    LightBlue,
    White,
}

/// Which of the three channels are lit.
#[derive(Clone, Copy, Debug, PartialEq, Eq, Structural)]
pub struct Channels {
    pub red: bool,
    pub green: bool,
    pub blue: bool,
}

impl Color {
    /// The channels that mix the colour.
    pub open spec fn spec_channels(self) -> Channels {
        match self {
            Color::Off => Channels { red: false, green: false, blue: false },
            Color::Blue => Channels { red: false, green: false, blue: true },
            Color::Red => Channels { red: true, green: false, blue: false },
            Color::Green => Channels { red: false, green: true, blue: false },
            Color::Yellow => Channels { red: true, green: true, blue: false },
            Color::Pink => Channels { red: true, green: false, blue: true },
            Color::LightBlue => Channels { red: false, green: true, blue: true },
            Color::White => Channels { red: true, green: true, blue: true },
        }
    }

    /// Returns the channels to light for this colour.
    #[verifier::when_used_as_spec(spec_channels)]
    pub fn channels(self) -> (lit: Channels)
        ensures
            lit == self.spec_channels(),
    {
        match self {
            Color::Off => Channels { red: false, green: false, blue: false },
            Color::Blue => Channels { red: false, green: false, blue: true },
            Color::Red => Channels { red: true, green: false, blue: false },
            Color::Green => Channels { red: false, green: true, blue: false },
            Color::Yellow => Channels { red: true, green: true, blue: false },
            Color::Pink => Channels { red: true, green: false, blue: true },
            Color::LightBlue => Channels { red: false, green: true, blue: true },
            Color::White => Channels { red: true, green: true, blue: true },
        }
    }

    /// Returns the colour that the given channels mix.
    pub fn from_channels(lit: Channels) -> (color: Color)
        ensures
            color.spec_channels() == lit,
    {
        if lit.red {
            if lit.green {
                if lit.blue {
                    Color::White
                } else {
                    Color::Yellow
                }
            } else {
                if lit.blue {
                    Color::Pink
                } else {
                    Color::Red
                }
            }
        } else {
            if lit.green {
                if lit.blue {
                    Color::LightBlue
                } else {
                    Color::Green
                }
            } else {
                if lit.blue {
                    Color::Blue
                } else {
                    Color::Off
                }
            }
        }
    }
}

/// No two colours light the same channels.
pub proof fn lemma_channels_distinct(a: Color, b: Color)
    requires
        a.spec_channels() == b.spec_channels(),
    ensures
        a == b,
{
}

} // verus!
