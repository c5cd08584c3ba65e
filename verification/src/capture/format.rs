use crate::colorspace::Colorspace;
use crate::field_order::FieldOrder;
use crate::fourcc::FourCC;
use crate::quantization::Quantization;
use vstd::prelude::*;

verus! {

/// Streaming format (single-planar)
#[derive(Debug, Clone, Copy, PartialEq, Eq)]
pub struct Format {
    /// width in pixels
    pub width: u32,
    /// height in pixels
    pub height: u32,
    /// order of fields
    pub field_order: FieldOrder,
    /// pixelformat code
    pub fourcc: FourCC,
    /// bytes per line
    pub stride: u32,
    /// maximum number of bytes required to store an image
    pub size: u32,
    /// colorspace of the pixels
    pub colorspace: Colorspace,
    /// the way colors are mapped
    pub quantization: Quantization,
}

/// A single-planar format as the kernel interface exchanges it: every
/// member a plain 32-bit number.
#[derive(Debug, Clone, Copy, PartialEq, Eq, Structural)]
pub struct PixFormat {
    /// width in pixels
    pub width: u32,
    /// height in pixels
    pub height: u32,
    /// four character code of the pixel encoding, little-endian
    pub pixelformat: u32,
    /// number of the field order
    pub field: u32,
    /// bytes per line
    pub bytesperline: u32,
    /// maximum number of bytes required to store an image
    pub sizeimage: u32,
    /// number of the colorspace
    pub colorspace: u32,
    /// number of the quantization
    pub quantization: u32,
}

impl PixFormat {
    /// Every enumerated member holds a number that names one of its values.
    pub open spec fn valid(self) -> bool {
        &&& FieldOrder::known(self.field)
        &&& Colorspace::known(self.colorspace)
        &&& Quantization::known(self.quantization)
    }
}

impl Format {
    /// What `into` makes of a format: each member as its number.
    pub open spec fn spec_into(self) -> PixFormat {
        PixFormat {
            width: self.width,
            height: self.height,
            pixelformat: self.fourcc.spec_code(),
            field: self.field_order.spec_code(),
            bytesperline: self.stride,
            sizeimage: self.size,
            colorspace: self.colorspace.spec_code(),
            quantization: self.quantization.spec_code(),
        }
    }

    /// The format that `new` returns: a request in which the driver is free
    /// to choose everything but dimensions and encoding.
    pub open spec fn spec_new(width: u32, height: u32, fourcc: FourCC) -> Format {
        Format {
            width,
            height,
            field_order: FieldOrder::Any,
            fourcc,
            stride: 0,
            size: 0,
            colorspace: Colorspace::Default,
            quantization: Quantization::Default,
        }
    }

    /// Returns a capture format
    ///
    /// # Arguments
    ///
    /// * `width` - Width in pixels
    /// * `height` - Height in pixels
    /// * `fourcc` - Four character code (pixelformat)
    pub fn new(width: u32, height: u32, fourcc: FourCC) -> (format: Format)
        ensures
            format == Self::spec_new(width, height, fourcc),
    {
        Format {
            width,
            height,
            field_order: FieldOrder::Any,
            fourcc,
            stride: 0,
            size: 0,
            colorspace: Colorspace::Default,
            quantization: Quantization::Default,
        }
    }

    /// The format that the kernel interface writes as `raw`, if `raw` is
    /// valid; nothing if one of its enumerated members holds an unknown
    /// number.
    pub fn try_from(raw: PixFormat) -> (format: Option<Format>)
        ensures
            format.is_some() <==> raw.valid(),
            format matches Some(f) ==> f.spec_into() == raw,
    {
        let field_order = match FieldOrder::from_code(raw.field) {
            Some(o) => o,
            None => { return None; },
        };
        let colorspace = match Colorspace::from_code(raw.colorspace) {
            Some(c) => c,
            None => { return None; },
        };
        let quantization = match Quantization::from_code(raw.quantization) {
            Some(q) => q,
            None => { return None; },
        };
        Some(
            Format {
                width: raw.width,
                height: raw.height,
                field_order,
                fourcc: FourCC::from_code(raw.pixelformat),
                stride: raw.bytesperline,
                size: raw.sizeimage,
                colorspace,
                quantization,
            },
        )
    }

    /// The format that the kernel interface writes as `raw`, which must be
    /// valid.
    pub fn from(raw: PixFormat) -> (format: Format)
        requires
            raw.valid(),
        ensures
            format.spec_into() == raw,
    {
        Format::try_from(raw).unwrap()
    }

    /// This format as the kernel interface writes it.
    pub fn into(self) -> (raw: PixFormat)
        ensures
            raw == self.spec_into(),
            raw.valid(),
    {
        PixFormat {
            width: self.width,
            height: self.height,
            pixelformat: self.fourcc.code(),
            field: self.field_order.code(),
            bytesperline: self.stride,
            sizeimage: self.size,
            colorspace: self.colorspace.code(),
            quantization: self.quantization.code(),
        }
    }

    /// What `into` writes is valid, whatever the format.
    pub proof fn into_is_valid(f: Format)
        ensures
            f.spec_into().valid(),
    {
    }

    /// Formats that `into` writes alike are the same format. So `from`
    /// undoes `into`: the one format that `from` may return for
    /// `f.spec_into()` is `f`.
    pub proof fn into_is_injective(f: Format, g: Format)
        requires
            f.spec_into() == g.spec_into(),
        ensures
            f == g,
    {
        FieldOrder::code_is_injective(f.field_order, g.field_order);
        Colorspace::code_is_injective(f.colorspace, g.colorspace);
        Quantization::code_is_injective(f.quantization, g.quantization);
        FourCC::code_is_injective(f.fourcc, g.fourcc);
    }
}

} // verus!
