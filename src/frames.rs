//! The application frames exchanged by the M01 host and the P905 peer.
//!
//! Each frame is 34 bytes: the two-byte radio header, then a 32-byte
//! payload whose first two bytes are a big-endian command code.

use vstd::prelude::*;
use vstd::slice::SliceAdditionalExecFns;

verus! {

/// M01 asks P905 to connect.
pub const PAIRING_REQUEST_CODE: u16 = 0x0908;
/// P905 answers a pairing request.
pub const PAIRING_RESPONSE_CODE: u16 = 0x090d;
/// M01 asks P905 for data.
pub const DATA_REQUEST_CODE: u16 = 0x0706;
/// P905 answers with data.
pub const DATA_RESPONSE_CODE: u16 = 0x071b;

/// The command code of a frame: bytes 2 and 3, big endian.
pub open spec fn spec_command_code(frame: Seq<u8>) -> Option<u16> {
    if frame.len() >= 4 {
        Some((frame[2] as u16 * 256 + frame[3] as u16) as u16)
    } else {
        None
    }
}

pub fn command_code(frame: &[u8]) -> (r: Option<u16>)
    ensures
        r == spec_command_code(frame@),
{
    if frame.len() >= 4 {
        let hi = frame[2];
        let lo = frame[3];
        assert(((hi as u16) << 8u16 | lo as u16) == hi as u16 * 256 + lo as u16) by (bit_vector);
        Some((hi as u16) << 8u16 | lo as u16)
    } else {
        None
    }
}

/// `dst` with its first bytes replaced by those of `src`, as many as fit.
pub open spec fn filled(dst: Seq<u8>, src: Seq<u8>) -> Seq<u8> {
    Seq::new(dst.len(), |i: int| if i < src.len() { src[i] } else { dst[i] })
}

/// Copies a frame into a buffer, as much of it as fits.
pub fn copy_frame(dst: &mut [u8], src: &[u8])
    ensures
        final(dst)@ == filled(old(dst)@, src@),
{
    let n = if dst.len() < src.len() {
        dst.len()
    } else {
        src.len()
    };
    let mut i: usize = 0;
    while i < n
        invariant
            n <= dst@.len(),
            n <= src@.len(),
            i <= n,
            dst@.len() == old(dst)@.len(),
            n == old(dst)@.len() || n == src@.len(),
            forall|j: int| 0 <= j < i ==> dst@[j] == src@[j],
            forall|j: int| i <= j < dst@.len() ==> dst@[j] == old(dst)@[j],
        decreases n - i,
    {
        dst.set(i, src[i]);
        i = i + 1;
    }
    assert(dst@ =~= filled(old(dst)@, src@));
}

/// The pairing request of M01.
pub open spec fn pairing_request_frame() -> Seq<u8> {
    seq![51, 2, 0x09, 0x08, 0x62, 0x6d, 0xfa, 0x5d, 0x00, 0x01, 0x5a, 0x73, 0x09, 0x00, 0x00, 0x00, 0x00, 0x00, 0x00, 0x00, 0x00, 0x00, 0x00, 0x00, 0x00, 0x00, 0x00, 0x00, 0x00, 0x00, 0x00, 0x00, 0x00, 0x00]
}

pub fn pairing_request() -> (r: Vec<u8>)
    ensures
        r@ == pairing_request_frame(),
{
    let r: Vec<u8> = vec![51, 2, 0x09, 0x08, 0x62, 0x6d, 0xfa, 0x5d, 0x00, 0x01, 0x5a, 0x73, 0x09, 0x00, 0x00, 0x00, 0x00, 0x00, 0x00, 0x00, 0x00, 0x00, 0x00, 0x00, 0x00, 0x00, 0x00, 0x00, 0x00, 0x00, 0x00, 0x00, 0x00, 0x00];
    proof {
        assert(r@ =~= pairing_request_frame());
    }
    r
}

/// The pairing response of P905.
pub open spec fn pairing_response_frame() -> Seq<u8> {
    seq![51, 0, 0x09, 0x0d, 0x62, 0x6d, 0xfa, 0x5d, 0x00, 0x00, 0x3e, 0xc2, 0x3b, 0x00, 0x0f, 0x78, 0x6d, 0xf9, 0x00, 0x00, 0x00, 0x00, 0x00, 0x00, 0x00, 0x00, 0x00, 0x00, 0x00, 0x00, 0x00, 0x00, 0x00, 0x00]
}

pub fn pairing_response() -> (r: Vec<u8>)
    ensures
        r@ == pairing_response_frame(),
{
    let r: Vec<u8> = vec![51, 0, 0x09, 0x0d, 0x62, 0x6d, 0xfa, 0x5d, 0x00, 0x00, 0x3e, 0xc2, 0x3b, 0x00, 0x0f, 0x78, 0x6d, 0xf9, 0x00, 0x00, 0x00, 0x00, 0x00, 0x00, 0x00, 0x00, 0x00, 0x00, 0x00, 0x00, 0x00, 0x00, 0x00, 0x00];
    proof {
        assert(r@ =~= pairing_response_frame());
    }
    r
}

/// The data request of M01.
pub open spec fn data_request_frame() -> Seq<u8> {
    seq![51, 2, 0x07, 0x06, 0x62, 0x6d, 0xfa, 0x5d, 0x00, 0x01, 0x20, 0x00, 0x00, 0x00, 0x00, 0x00, 0x00, 0x00, 0x00, 0x00, 0x00, 0x00, 0x00, 0x00, 0x00, 0x00, 0x00, 0x00, 0x00, 0x00, 0x00, 0x00, 0x00, 0x00]
}

pub fn data_request() -> (r: Vec<u8>)
    ensures
        r@ == data_request_frame(),
{
    let r: Vec<u8> = vec![51, 2, 0x07, 0x06, 0x62, 0x6d, 0xfa, 0x5d, 0x00, 0x01, 0x20, 0x00, 0x00, 0x00, 0x00, 0x00, 0x00, 0x00, 0x00, 0x00, 0x00, 0x00, 0x00, 0x00, 0x00, 0x00, 0x00, 0x00, 0x00, 0x00, 0x00, 0x00, 0x00, 0x00];
    proof {
        assert(r@ =~= data_request_frame());
    }
    r
}

} // verus!
