use vstd::prelude::*;

verus! {

/// Colorspace of the pixels of an image.
#[derive(Debug, Clone, Copy, PartialEq, Eq, Structural)]
pub enum Colorspace {
    /// the driver's default for the pixel encoding
    Default,
    /// SMPTE 170M, used by standard-definition television
    SMPTE170M,
    /// SMPTE 240M, early high-definition television
    SMPTE240M,
    /// Rec. 709, high-definition television
    Rec709,
    /// NTSC 1953
    NTSC,
    /// EBU Tech 3213, PAL and SECAM
    EBUTech3213,
    /// JPEG, sRGB primaries with full-range YCbCr
    JPEG,
    /// sRGB
    SRGB,
    /// opRGB
    OPRGB,
    /// Rec. 2020, ultra-high-definition television
    Rec2020,
    /// raw sensor data
    RAW,
    /// DCI-P3, digital cinema
    DCIP3,
}

impl Colorspace {
    /// The number by which the kernel interface knows this colorspace.
    pub open spec fn spec_code(self) -> u32 {
        match self {
            Colorspace::Default => 0,
            Colorspace::SMPTE170M => 1,
            Colorspace::SMPTE240M => 2,
            Colorspace::Rec709 => 3,
            Colorspace::NTSC => 5,
            Colorspace::EBUTech3213 => 6,
            Colorspace::JPEG => 7,
            Colorspace::SRGB => 8,
            Colorspace::OPRGB => 9,
            Colorspace::Rec2020 => 10,
            Colorspace::RAW => 11,
            Colorspace::DCIP3 => 12,
        }
    }

    /// Whether some colorspace has the number `code`: 4 is not in use.
    pub open spec fn known(code: u32) -> bool {
        code <= 12 && code != 4
    }

    /// The number by which the kernel interface knows this colorspace.
    pub fn code(self) -> (code: u32)
        ensures
            code == self.spec_code(),
            Self::known(code),
    {
        match self {
            Colorspace::Default => 0,
            Colorspace::SMPTE170M => 1,
            Colorspace::SMPTE240M => 2,
            Colorspace::Rec709 => 3,
            Colorspace::NTSC => 5,
            Colorspace::EBUTech3213 => 6,
            Colorspace::JPEG => 7,
            Colorspace::SRGB => 8,
            Colorspace::OPRGB => 9,
            Colorspace::Rec2020 => 10,
            Colorspace::RAW => 11,
            Colorspace::DCIP3 => 12,
        }
    }

    /// The colorspace with the number `code`, if there is one.
    pub fn from_code(code: u32) -> (space: Option<Colorspace>)
        ensures
            space.is_some() <==> Self::known(code),
            space matches Some(c) ==> c.spec_code() == code,
    {
        match code {
            0 => Some(Colorspace::Default),
            1 => Some(Colorspace::SMPTE170M),
            2 => Some(Colorspace::SMPTE240M),
            3 => Some(Colorspace::Rec709),
            5 => Some(Colorspace::NTSC),
            6 => Some(Colorspace::EBUTech3213),
            7 => Some(Colorspace::JPEG),
            8 => Some(Colorspace::SRGB),
            9 => Some(Colorspace::OPRGB),
            10 => Some(Colorspace::Rec2020),
            11 => Some(Colorspace::RAW),
            12 => Some(Colorspace::DCIP3),
            _ => None,
        }
    }

    /// Distinct colorspaces have distinct numbers.
    pub proof fn code_is_injective(a: Colorspace, b: Colorspace)
        requires
            a.spec_code() == b.spec_code(),
        ensures
            a == b,
    {
    }
}

} // verus!
