//! Packet layout of the display protocol.
//!
//! One packet carries one frame's pixel data for one destination: a fixed
//! 4-byte preamble, the sequence number as four big-endian bytes, the
//! payload length as two big-endian bytes, then the pixel data itself.
//! Sending the packet over the network happens outside the library.

use vstd::prelude::*;

verus! {

/// Default UDP port of the display protocol.
pub const DDP_PORT: u16 = 4048;

/// The exact bytes of one packet.
pub open spec fn spec_ddp_packet(sequence_num: u32, length: u16, pixel_data: Seq<u8>) -> Seq<u8> {
    seq![
        0x41u8,
        0x01u8,
        0x00u8,
        0x01u8,
        (sequence_num >> 24) as u8,
        (sequence_num >> 16) as u8,
        (sequence_num >> 8) as u8,
        sequence_num as u8,
        (length >> 8) as u8,
        length as u8,
    ] + pixel_data
}

/// Builds one packet: the 10 header bytes followed by the pixel data.
pub fn create_ddp_packet(sequence_num: u32, length: u16, pixel_data: &[u8]) -> (r: Vec<u8>)
    ensures
        r@ == spec_ddp_packet(sequence_num, length, pixel_data@),
        r@.len() == 10 + pixel_data@.len(),
{
    let mut header: Vec<u8> = Vec::new();
    header.push(0x41);
    header.push(0x01);
    header.push(0x00);
    header.push(0x01);
    header.push(#[verifier::truncate] ((sequence_num >> 24) as u8));
    header.push(#[verifier::truncate] ((sequence_num >> 16) as u8));
    header.push(#[verifier::truncate] ((sequence_num >> 8) as u8));
    header.push(#[verifier::truncate] (sequence_num as u8));
    header.push(#[verifier::truncate] ((length >> 8) as u8));
    header.push(#[verifier::truncate] (length as u8));
    proof {
        assert(header@ =~= spec_ddp_packet(sequence_num, length, pixel_data@.subrange(0, 0)));
    }
    let mut k: usize = 0;
    while k < pixel_data.len()
        invariant
            k <= pixel_data@.len(),
            header@ == spec_ddp_packet(sequence_num, length, pixel_data@.subrange(0, k as int)),
        decreases pixel_data@.len() - k,
    {
        header.push(pixel_data[k]);
        k = k + 1;
        proof {
            assert(header@ =~= spec_ddp_packet(
                sequence_num,
                length,
                pixel_data@.subrange(0, k as int),
            ));
        }
    }
    proof {
        assert(pixel_data@.subrange(0, pixel_data@.len() as int) =~= pixel_data@);
    }
    header
}

} // verus!
