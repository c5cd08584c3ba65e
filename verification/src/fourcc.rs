use vstd::prelude::*;

verus! {

/// Four character code naming a pixel encoding, such as `YUYV` or `MJPG`.
#[derive(Debug, Clone, Copy, PartialEq, Eq)]
pub struct FourCC {
    /// the four characters, first one first
    pub repr: [u8; 4],
}

impl FourCC {
    /// The 32-bit number whose little-endian bytes are `b0`, `b1`, `b2`, `b3`.
    pub open spec fn pack(b0: u8, b1: u8, b2: u8, b3: u8) -> int {
        b0 as int + 256 * (b1 as int) + 65536 * (b2 as int) + 16777216 * (b3 as int)
    }

    /// The code as the kernel interface stores it: the four characters as the
    /// little-endian bytes of a 32-bit number.
    pub open spec fn spec_code(self) -> u32 {
        Self::pack(self.repr@[0], self.repr@[1], self.repr@[2], self.repr@[3]) as u32
    }

    /// The code made of the four characters of `repr`.
    pub fn new(repr: &[u8; 4]) -> (fourcc: FourCC)
        ensures
            fourcc.repr@ == repr@,
    {
        FourCC { repr: [repr[0], repr[1], repr[2], repr[3]] }
    }

    /// The code that the kernel interface stores as `code`.
    pub fn from_code(code: u32) -> (fourcc: FourCC)
        ensures
            fourcc.spec_code() == code,
    {
        let b0: u8 = (code % 256) as u8;
        let b1: u8 = ((code / 256) % 256) as u8;
        let b2: u8 = ((code / 65536) % 256) as u8;
        let b3: u8 = (code / 16777216) as u8;
        FourCC { repr: [b0, b1, b2, b3] }
    }

    /// The number that the kernel interface stores for this code.
    pub fn code(self) -> (code: u32)
        ensures
            code == self.spec_code(),
    {
        let b0: u32 = self.repr[0] as u32;
        let b1: u32 = self.repr[1] as u32;
        let b2: u32 = self.repr[2] as u32;
        let b3: u32 = self.repr[3] as u32;
        b0 + 256 * b1 + 65536 * b2 + 16777216 * b3
    }

    /// Two codes with the same number have the same four characters.
    pub proof fn code_is_injective(a: FourCC, b: FourCC)
        requires
            a.spec_code() == b.spec_code(),
        ensures
            a == b,
    {
        assert(a.repr@.len() == 4 && b.repr@.len() == 4);
        assert(a.repr@ =~= b.repr@);
        assert(a.repr =~= b.repr);
    }
}

} // verus!
