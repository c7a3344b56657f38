use vstd::prelude::*;

verus! {

/// An sRGB color with eight bits per channel.
#[derive(Clone, Copy, Debug, PartialEq, Eq, Structural)]
pub struct Rgb {
    pub red: u8,
    pub green: u8,
    pub blue: u8,
}

/// The uppercase hexadecimal digit of a value below sixteen.
pub open spec fn hex_digit(value: int) -> char {
    if value < 10 {
        ((value + 48) as u8) as char
    } else {
        ((value + 55) as u8) as char
    }
}

/// `#RRGGBB` with uppercase hexadecimal digits.
pub open spec fn hex_color(color: Rgb) -> Seq<char> {
    seq![
        '#',
        hex_digit(color.red as int / 16),
        hex_digit(color.red as int % 16),
        hex_digit(color.green as int / 16),
        hex_digit(color.green as int % 16),
        hex_digit(color.blue as int / 16),
        hex_digit(color.blue as int % 16),
    ]
}

fn hex_digit_str(value: u8) -> (digit: &'static str)
    requires
        value < 16,
    ensures
        digit@ == seq![hex_digit(value as int)],
{
    match value {
        0 => {
            proof {
                reveal_strlit("0");
            }
            "0"
        },
        1 => {
            proof {
                reveal_strlit("1");
            }
            "1"
        },
        2 => {
            proof {
                reveal_strlit("2");
            }
            "2"
        },
        3 => {
            proof {
                reveal_strlit("3");
            }
            "3"
        },
        4 => {
            proof {
                reveal_strlit("4");
            }
            "4"
        },
        5 => {
            proof {
                reveal_strlit("5");
            }
            "5"
        },
        6 => {
            proof {
                reveal_strlit("6");
            }
            "6"
        },
        7 => {
            proof {
                reveal_strlit("7");
            }
            "7"
        },
        8 => {
            proof {
                reveal_strlit("8");
            }
            "8"
        },
        9 => {
            proof {
                reveal_strlit("9");
            }
            "9"
        },
        10 => {
            proof {
                reveal_strlit("A");
            }
            "A"
        },
        11 => {
            proof {
                reveal_strlit("B");
            }
            "B"
        },
        12 => {
            proof {
                reveal_strlit("C");
            }
            "C"
        },
        13 => {
            proof {
                reveal_strlit("D");
            }
            "D"
        },
        14 => {
            proof {
                reveal_strlit("E");
            }
            "E"
        },
        _ => {
            proof {
                reveal_strlit("F");
            }
            "F"
        },
    }
}

impl Rgb {
    pub fn new(red: u8, green: u8, blue: u8) -> (color: Self)
        ensures
            color == (Rgb { red, green, blue }),
    {
        Self { red, green, blue }
    }

    /// The CSS notation `#RRGGBB`, uppercase.
    pub fn to_hex(self) -> (hex: String)
        ensures
            hex@ == hex_color(self),
    {
        let mut hex = String::from_str("#");
        proof {
            reveal_strlit("#");
        }
        hex.append(hex_digit_str(self.red / 16));
        hex.append(hex_digit_str(self.red % 16));
        hex.append(hex_digit_str(self.green / 16));
        hex.append(hex_digit_str(self.green % 16));
        hex.append(hex_digit_str(self.blue / 16));
        hex.append(hex_digit_str(self.blue % 16));
        assert(hex@ =~= hex_color(self));
        hex
    }
}

/// The semantic colors of a presentation.
#[derive(Clone, Copy, Debug, PartialEq, Eq, Structural)]
pub struct PresentationPalette {
    pub background: Rgb,
    pub artwork_field: Rgb,
    pub metadata_field: Rgb,
    pub primary_text: Rgb,
    pub secondary_text: Rgb,
    pub muted_text: Rgb,
    pub accent: Rgb,
    pub status_muted_accent: Rgb,
    pub progress_track: Rgb,
    pub progress_fill: Rgb,
    pub diagnostics_field: Rgb,
    pub diagnostics_text: Rgb,
    pub diagnostics_border: Rgb,
}

/// The fixed navy, cream and coral palette used without artwork.
pub open spec fn fallback_palette() -> PresentationPalette {
    PresentationPalette {
        background: Rgb { red: 0x07, green: 0x15, blue: 0x22 },
        artwork_field: Rgb { red: 0x14, green: 0x28, blue: 0x56 },
        metadata_field: Rgb { red: 0x0a, green: 0x14, blue: 0x29 },
        primary_text: Rgb { red: 0xf3, green: 0xea, blue: 0xd7 },
        secondary_text: Rgb { red: 0xc9, green: 0xc5, blue: 0xbd },
        muted_text: Rgb { red: 0x92, green: 0x99, blue: 0xa8 },
        accent: Rgb { red: 0xff, green: 0x70, blue: 0x51 },
        status_muted_accent: Rgb { red: 0xc3, green: 0x87, blue: 0x81 },
        progress_track: Rgb { red: 0x92, green: 0x99, blue: 0xa8 },
        progress_fill: Rgb { red: 0xff, green: 0x70, blue: 0x51 },
        diagnostics_field: Rgb { red: 0x0a, green: 0x14, blue: 0x29 },
        diagnostics_text: Rgb { red: 0xf3, green: 0xea, blue: 0xd7 },
        diagnostics_border: Rgb { red: 0xff, green: 0x70, blue: 0x51 },
    }
}

impl PresentationPalette {
    pub fn fallback() -> (palette: Self)
        ensures
            palette == fallback_palette(),
    {
        Self {
            background: Rgb::new(0x07, 0x15, 0x22),
            artwork_field: Rgb::new(0x14, 0x28, 0x56),
            metadata_field: Rgb::new(0x0a, 0x14, 0x29),
            primary_text: Rgb::new(0xf3, 0xea, 0xd7),
            secondary_text: Rgb::new(0xc9, 0xc5, 0xbd),
            muted_text: Rgb::new(0x92, 0x99, 0xa8),
            accent: Rgb::new(0xff, 0x70, 0x51),
            status_muted_accent: Rgb::new(0xc3, 0x87, 0x81),
            progress_track: Rgb::new(0x92, 0x99, 0xa8),
            progress_fill: Rgb::new(0xff, 0x70, 0x51),
            diagnostics_field: Rgb::new(0x0a, 0x14, 0x29),
            diagnostics_text: Rgb::new(0xf3, 0xea, 0xd7),
            diagnostics_border: Rgb::new(0xff, 0x70, 0x51),
        }
    }

    /// The palette for a presentation's artwork: the palette derived from
    /// it where there is artwork and deriving succeeded, the fixed fallback
    /// palette otherwise.
    pub fn for_artwork<E>(derived: Option<Result<Self, E>>) -> (palette: Self)
        ensures
            palette == match derived {
                Some(Ok(palette)) => palette,
                _ => fallback_palette(),
            },
    {
        match derived {
            Some(Ok(palette)) => palette,
            _ => Self::fallback(),
        }
    }
}

} // verus!
