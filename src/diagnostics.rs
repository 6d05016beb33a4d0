//! The text line that reports a received packet on the diagnostic link:
//! `[<pipe> <length:02x> <pid> <no_ack>] <payload bytes, hex, space-separated>\n`.

use vstd::prelude::*;

use crate::esb::RxPacket;

verus! {

/// The ASCII hexadecimal digit of a value below 16.
pub open spec fn hex_digit(n: u8) -> u8 {
    if n < 10 {
        (48 + n) as u8
    } else {
        (87 + n) as u8
    }
}

/// A byte as two lowercase hexadecimal digits.
pub open spec fn hex2(b: u8) -> Seq<u8> {
    seq![hex_digit(b / 16), hex_digit(b % 16)]
}

/// A byte in decimal, without leading zeros.
pub open spec fn decimal(n: u8) -> Seq<u8> {
    if n >= 100 {
        seq![(48 + n / 100) as u8, (48 + (n / 10) % 10) as u8, (48 + n % 10) as u8]
    } else if n >= 10 {
        seq![(48 + n / 10) as u8, (48 + n % 10) as u8]
    } else {
        seq![(48 + n) as u8]
    }
}

/// Each byte as two hexadecimal digits followed by a space.
pub open spec fn hex_bytes(s: Seq<u8>) -> Seq<u8>
    decreases s.len(),
{
    if s.len() == 0 {
        Seq::empty()
    } else {
        hex_bytes(s.drop_last()) + hex2(s.last()) + seq![32u8]
    }
}

/// The bracketed head of the line.
pub open spec fn packet_head(p: RxPacket) -> Seq<u8> {
    seq![91u8] + decimal(p.address.spec_value() as u8) + seq![32u8] + hex2(p.length) + seq![32u8]
        + decimal(p.pid) + seq![32u8] + decimal(if p.no_ack { 1u8 } else { 0u8 }) + seq![93u8, 32u8]
}

/// The whole line for a packet and the frame it came in: the payload is
/// the frame after its two header bytes.
pub open spec fn packet_line(p: RxPacket, frame: Seq<u8>) -> Seq<u8> {
    packet_head(p) + hex_bytes(if frame.len() >= 2 { frame.subrange(2, frame.len() as int) } else { Seq::empty() }) + seq![10u8]
}

fn push_hex_digit(out: &mut Vec<u8>, n: u8)
    requires
        n < 16,
    ensures
        final(out)@ == old(out)@.push(hex_digit(n)),
{
    if n < 10 {
        out.push(48 + n);
    } else {
        out.push(87 + n);
    }
}

fn push_hex2(out: &mut Vec<u8>, b: u8)
    ensures
        final(out)@ == old(out)@ + hex2(b),
{
    push_hex_digit(out, b / 16);
    push_hex_digit(out, b % 16);
    assert(final(out)@ =~= old(out)@ + hex2(b));
}

fn push_decimal(out: &mut Vec<u8>, n: u8)
    ensures
        final(out)@ == old(out)@ + decimal(n),
{
    if n >= 100 {
        out.push(48 + n / 100);
        out.push(48 + (n / 10) % 10);
        out.push(48 + n % 10);
    } else if n >= 10 {
        out.push(48 + n / 10);
        out.push(48 + n % 10);
    } else {
        out.push(48 + n);
    }
    assert(final(out)@ =~= old(out)@ + decimal(n));
}

/// The diagnostic line of a received packet.
pub fn format_packet(packet: &RxPacket, frame: &[u8]) -> (r: Vec<u8>)
    ensures
        r@ == packet_line(*packet, frame@),
{
    let mut out: Vec<u8> = Vec::new();
    out.push(91);
    let pipe = packet.address.value();
    push_decimal(&mut out, pipe as u8);
    out.push(32);
    push_hex2(&mut out, packet.length);
    out.push(32);
    push_decimal(&mut out, packet.pid);
    out.push(32);
    push_decimal(&mut out, if packet.no_ack { 1 } else { 0 });
    out.push(93);
    out.push(32);
    assert(out@ =~= packet_head(*packet));
    let ghost payload = if frame@.len() >= 2 {
        frame@.subrange(2, frame@.len() as int)
    } else {
        Seq::<u8>::empty()
    };
    let mut i: usize = 2;
    while i < frame.len()
        invariant
            2 <= i,
            frame@.len() >= 2 ==> i <= frame@.len(),
            frame@.len() < 2 ==> payload == Seq::<u8>::empty(),
            frame@.len() >= 2 ==> payload == frame@.subrange(2, frame@.len() as int),
            out@ == packet_head(*packet) + hex_bytes(
                if frame@.len() >= 2 { frame@.subrange(2, i as int) } else { Seq::empty() },
            ),
        decreases frame@.len() - i,
    {
        let ghost before = frame@.subrange(2, i as int);
        push_hex2(&mut out, frame[i]);
        out.push(32);
        proof {
            let after = frame@.subrange(2, i + 1);
            assert(after.drop_last() =~= before);
            assert(after.last() == frame@[i as int]);
            assert(out@ =~= packet_head(*packet) + hex_bytes(after));
        }
        i = i + 1;
    }
    proof {
        if frame@.len() >= 2 {
            assert(frame@.subrange(2, i as int) =~= payload);
        } else {
            assert(hex_bytes(Seq::<u8>::empty()) =~= Seq::<u8>::empty());
        }
    }
    out.push(10);
    out
}

} // verus!
