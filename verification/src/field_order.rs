use vstd::prelude::*;

verus! {

/// Order in which the fields of an interlaced image are stored and transmitted.
#[derive(Debug, Clone, Copy, PartialEq, Eq, Structural)]
pub enum FieldOrder {
    /// the driver may pick any order
    Any,
    /// progressive images, no fields
    Progressive,
    /// top field only
    Top,
    /// bottom field only
    Bottom,
    /// both fields interleaved line by line
    Interlaced,
    /// both fields one after the other, top first
    SequentialTB,
    /// both fields one after the other, bottom first
    SequentialBT,
    /// the fields alternate between buffers
    Alternate,
    /// interleaved, top field transmitted first
    InterlacedTB,
    /// interleaved, bottom field transmitted first
    InterlacedBT,
}

impl FieldOrder {
    /// The number by which the kernel interface knows this order.
    pub open spec fn spec_code(self) -> u32 {
        match self {
            FieldOrder::Any => 0,
            FieldOrder::Progressive => 1,
            FieldOrder::Top => 2,
            FieldOrder::Bottom => 3,
            FieldOrder::Interlaced => 4,
            FieldOrder::SequentialTB => 5,
            FieldOrder::SequentialBT => 6,
            FieldOrder::Alternate => 7,
            FieldOrder::InterlacedTB => 8,
            FieldOrder::InterlacedBT => 9,
        }
    }

    /// Whether some order has the number `code`.
    pub open spec fn known(code: u32) -> bool {
        code <= 9
    }

    /// The number by which the kernel interface knows this order.
    pub fn code(self) -> (code: u32)
        ensures
            code == self.spec_code(),
            Self::known(code),
    {
        match self {
            FieldOrder::Any => 0,
            FieldOrder::Progressive => 1,
            FieldOrder::Top => 2,
            FieldOrder::Bottom => 3,
            FieldOrder::Interlaced => 4,
            FieldOrder::SequentialTB => 5,
            FieldOrder::SequentialBT => 6,
            FieldOrder::Alternate => 7,
            FieldOrder::InterlacedTB => 8,
            FieldOrder::InterlacedBT => 9,
        }
    }

    /// The order with the number `code`, if there is one.
    pub fn from_code(code: u32) -> (order: Option<FieldOrder>)
        ensures
            order.is_some() <==> Self::known(code),
            order matches Some(o) ==> o.spec_code() == code,
    {
        match code {
            0 => Some(FieldOrder::Any),
            1 => Some(FieldOrder::Progressive),
            2 => Some(FieldOrder::Top),
            3 => Some(FieldOrder::Bottom),
            4 => Some(FieldOrder::Interlaced),
            5 => Some(FieldOrder::SequentialTB),
            6 => Some(FieldOrder::SequentialBT),
            7 => Some(FieldOrder::Alternate),
            8 => Some(FieldOrder::InterlacedTB),
            9 => Some(FieldOrder::InterlacedBT),
            _ => None,
        }
    }

    /// Distinct orders have distinct numbers.
    pub proof fn code_is_injective(a: FieldOrder, b: FieldOrder)
        requires
            a.spec_code() == b.spec_code(),
        ensures
            a == b,
    {
    }
}

} // verus!
