use vstd::prelude::*;

verus! {

/// How color components are mapped onto the range of their integer values.
#[derive(Debug, Clone, Copy, PartialEq, Eq, Structural)]
pub enum Quantization {
    /// the default for the colorspace
    Default,
    /// components use the whole range
    FullRange,
    /// components leave head and foot room
    LimitedRange,
}

impl Quantization {
    /// The number by which the kernel interface knows this mapping.
    pub open spec fn spec_code(self) -> u32 {
        match self {
            Quantization::Default => 0,
            Quantization::FullRange => 1,
            Quantization::LimitedRange => 2,
        }
    }

    /// Whether some mapping has the number `code`.
    pub open spec fn known(code: u32) -> bool {
        code <= 2
    }

    /// The number by which the kernel interface knows this mapping.
    pub fn code(self) -> (code: u32)
        ensures
            code == self.spec_code(),
            Self::known(code),
    {
        match self {
            Quantization::Default => 0,
            Quantization::FullRange => 1,
            Quantization::LimitedRange => 2,
        }
    }

    /// The mapping with the number `code`, if there is one.
    pub fn from_code(code: u32) -> (quantization: Option<Quantization>)
        ensures
            quantization.is_some() <==> Self::known(code),
            quantization matches Some(q) ==> q.spec_code() == code,
    {
        match code {
            0 => Some(Quantization::Default),
            1 => Some(Quantization::FullRange),
            2 => Some(Quantization::LimitedRange),
            _ => None,
        }
    }

    /// Distinct mappings have distinct numbers.
    pub proof fn code_is_injective(a: Quantization, b: Quantization)
        requires
            a.spec_code() == b.spec_code(),
        ensures
            a == b,
    {
    }
}

} // verus!
