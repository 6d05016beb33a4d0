//! Base addresses of the radio's pipes.

use vstd::prelude::*;

verus! {

/// The two base addresses: base0 is used by pipe 0, base1 by pipes 1..=7.
/// The variant gives the number of bytes of each base address; only the
/// low bytes of each value form the address.
#[derive(Debug, Clone, Copy, PartialEq, Eq, Structural)]
pub enum BaseAddresses {
    TwoBytes(u16, u16),
    ThreeBytes(u32, u32),
    FourBytes(u32, u32),
}

/// The big-endian value of a sequence of bytes.
pub open spec fn be_value(bytes: Seq<u8>) -> nat
    decreases bytes.len(),
{
    if bytes.len() == 0 {
        0
    } else {
        be_value(bytes.drop_last()) * 256 + bytes.last() as nat
    }
}

impl BaseAddresses {
    /// Two bytes addresses with the same value for base0 and base1
    pub fn from_same_two_bytes(a: [u8; 2]) -> (r: Self)
        ensures
            match r {
                BaseAddresses::TwoBytes(a0, a1) => a0 == a1 && a0 as nat == be_value(a@),
                _ => false,
            },
    {
        let addr: u16 = (a[0] as u16) << 8u16 | (a[1] as u16);
        proof {
            let (x, y) = (a[0], a[1]);
            assert(((x as u16) << 8u16 | (y as u16)) == (x as u16) * 256 + (y as u16)) by (bit_vector);
            reveal_with_fuel(be_value, 3);
            assert(a@.drop_last().drop_last() =~= Seq::<u8>::empty());
        }
        BaseAddresses::TwoBytes(addr, addr)
    }

    /// Three bytes addresses with the same value for base0 and base1
    pub fn from_same_three_bytes(a: [u8; 3]) -> (r: Self)
        ensures
            match r {
                BaseAddresses::ThreeBytes(a0, a1) => a0 == a1 && a0 as nat == be_value(a@),
                _ => false,
            },
    {
        let addr: u32 = (a[0] as u32) << 16u32 | (a[1] as u32) << 8u32 | (a[2] as u32);
        proof {
            let (x, y, z) = (a[0], a[1], a[2]);
            assert(((x as u32) << 16u32 | (y as u32) << 8u32 | (z as u32)) == (x as u32) * 65536
                + (y as u32) * 256 + (z as u32)) by (bit_vector);
            reveal_with_fuel(be_value, 4);
            assert(a@.drop_last().drop_last().drop_last() =~= Seq::<u8>::empty());
        }
        BaseAddresses::ThreeBytes(addr, addr)
    }

    /// Four bytes addresses with the same value for base0 and base1
    pub fn from_same_four_bytes(a: [u8; 4]) -> (r: Self)
        ensures
            match r {
                BaseAddresses::FourBytes(a0, a1) => a0 == a1 && a0 as nat == be_value(a@),
                _ => false,
            },
    {
        let addr: u32 = (a[0] as u32) << 24u32 | (a[1] as u32) << 16u32 | (a[2] as u32) << 8u32
            | (a[3] as u32);
        proof {
            let (x, y, z, w) = (a[0], a[1], a[2], a[3]);
            assert(((x as u32) << 24u32 | (y as u32) << 16u32 | (z as u32) << 8u32 | (w as u32))
                == (x as u32) * 16777216 + (y as u32) * 65536 + (z as u32) * 256 + (w as u32))
                by (bit_vector);
            reveal_with_fuel(be_value, 5);
            assert(a@.drop_last().drop_last().drop_last().drop_last() =~= Seq::<u8>::empty());
        }
        BaseAddresses::FourBytes(addr, addr)
    }
}

} // verus!
