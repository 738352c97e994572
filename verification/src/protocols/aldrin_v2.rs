use vstd::prelude::*;

verus! {

pub const ALDRIN_V2_PROGRAM_ID: [u8; 32] = [170, 118, 237, 20, 59, 86, 98, 94, 215, 88, 182, 138, 197, 29, 0, 3, 204, 94, 135, 199, 136, 114, 230, 64, 222, 236, 64, 136, 2, 187, 8, 181];

pub const SWAP_DISCRIMINATOR: [u8; 8] = [248, 198, 158, 145, 225, 117, 135, 200];

/// The Aldrin V2 curve program.
pub struct AldrinV2;

/// The side of an Aldrin V2 order.
#[derive(Clone, Copy, Debug, PartialEq, Eq, Structural)]
pub enum Side {
    /// Buying the base token.
    Bid,
    /// Selling the base token.
    Ask,
}

/// The byte that encodes `x`: Bid is zero, Ask is one.
pub open spec fn side_byte(x: Side) -> u8 {
    match x {
        Side::Bid => 0u8,
        Side::Ask => 1u8,
    }
}

impl Side {
    /// The byte that encodes `self`.
    pub fn to_byte(self) -> (r: u8)
        ensures
            r == side_byte(self),
    {
        match self {
            Side::Bid => 0u8,
            Side::Ask => 1u8,
        }
    }

    /// The side of a swap that pays in the base token exactly when `flag` holds.
    pub fn for_flag(flag: bool) -> (r: Self)
        ensures
            r == (if flag { Side::Ask } else { Side::Bid }),
    {
        if flag { Side::Ask } else { Side::Bid }
    }
}

} // verus!
