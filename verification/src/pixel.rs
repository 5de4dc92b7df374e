use vstd::prelude::*;

verus! {

/// A two-bit colour index, before or after a palette is applied.
#[derive(Debug, Clone, Copy, PartialEq, Eq, Structural)]
pub enum Pixel {
    Zero,
    One,
    Two,
    Three,
}

/// The pixel with colour index `value`.
pub open spec fn pixel_of(value: u8) -> Pixel {
    if value == 0 {
        Pixel::Zero
    } else if value == 1 {
        Pixel::One
    } else if value == 2 {
        Pixel::Two
    } else {
        Pixel::Three
    }
}

/// The colour index of a pixel.
pub open spec fn pixel_index(p: Pixel) -> u8 {
    match p {
        Pixel::Zero => 0,
        Pixel::One => 1,
        Pixel::Two => 2,
        Pixel::Three => 3,
    }
}

/// The shade that `palette` gives colour index `index`: bits `2 * index` and
/// `2 * index + 1` of the palette.
pub open spec fn palette_entry(palette: u8, index: u8) -> u8 {
    (palette / pow4(index)) % 4
}

/// Four to the power `n`, for `n < 4`.
pub open spec fn pow4(n: u8) -> u8 {
    if n == 0 {
        1
    } else if n == 1 {
        4
    } else if n == 2 {
        16
    } else {
        64
    }
}

/// The screen colour (0xRRGGBB) of a shade: white, light grey, dark grey, black.
pub open spec fn shade_color(p: Pixel) -> u32 {
    match p {
        Pixel::Zero => 0xFFFFFF,
        Pixel::One => 0xC0C0C0,
        Pixel::Two => 0x404040,
        Pixel::Three => 0x000000,
    }
}

impl Pixel {
    /// The pixel with colour index `value`.
    pub fn from_bits(value: u8) -> (p: Self)
        requires
            value < 4,
        ensures
            p == pixel_of(value),
            pixel_index(p) == value,
    {
        match value {
            0b00 => Self::Zero,
            0b01 => Self::One,
            0b10 => Self::Two,
            _ => Self::Three,
        }
    }

    /// The shade that `palette` maps this colour index to.
    pub fn apply_palette(self, palette: u8) -> (p: Self)
        ensures
            p == pixel_of(palette_entry(palette, pixel_index(self))),
    {
        let shift: u8 = match self {
            Self::Zero => 0,
            Self::One => 2,
            Self::Two => 4,
            Self::Three => 6,
        };
        let bits = palette >> shift & 0b11;
        let ghost m = pow4(pixel_index(self));
        assert(bits == (palette / m) % 4) by (bit_vector)
            requires
                bits == palette >> shift & 0b11,
                shift == 0 && m == 1 || shift == 2 && m == 4 || shift == 4 && m == 16 || shift == 6 && m == 64,
        ;
        assert(bits < 4) by (bit_vector)
            requires
                bits == palette >> shift & 0b11,
        ;
        Self::from_bits(bits)
    }

    /// The screen colour of this shade.
    pub fn to_bgra(self) -> (c: u32)
        ensures
            c == shade_color(self),
    {
        match self {
            Self::Zero => 0xFFFFFF,
            Self::One => 0xC0C0C0,
            Self::Two => 0x404040,
            Self::Three => 0x000000,
        }
    }
}

/// Applying a palette gives the shade that the palette stores for the colour index.
pub proof fn lemma_palette_entry_bound(palette: u8, index: u8)
    requires
        index < 4,
    ensures
        palette_entry(palette, index) < 4,
        pixel_index(pixel_of(palette_entry(palette, index))) == palette_entry(palette, index),
{
}

} // verus!
