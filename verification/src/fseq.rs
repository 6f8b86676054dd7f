//! The sequence file: block location and frame extraction.
//!
//! A parsed sequence file owns the whole buffer, read-only for the life of
//! the process; every frame request is a view into it. Uncompressed frames
//! are sliced directly at `channel_data_offset + index * channel_count`.
//! Block-compressed frames are found by walking the fixed frame spans of the
//! blocks (the first block spans 10 frames, every later one 256), reading
//! the located block's 8-byte metadata entry from the table that ends at the
//! variable-data offset, decompressing the chunk the entry names, and
//! slicing the frame out of the decompressed output.

use vstd::prelude::*;
use vstd::bytes::{spec_u32_from_le_bytes, u32_from_le_bytes};
use vstd::slice::{slice_subrange, slice_to_vec};
use vstd::arithmetic::mul::lemma_mul_upper_bound;
use vstd::arithmetic::div_mod::{lemma_fundamental_div_mod_converse, lemma_div_is_ordered, lemma_div_multiples_vanish};
use crate::error::PlayerError;
use crate::header::{
    SequenceHeader, CompressionKind, spec_header_of, spec_header_status, parse_header,
    COMPRESSION_NONE, COMPRESSION_ZSTD,
};

verus! {

/// Frames in the first compressed block.
pub const BLOCK0_FRAME_SPAN: u32 = 10;

/// Frames in every compressed block after the first.
pub const LATER_BLOCK_FRAME_SPAN: u32 = 256;

/// Bytes of one entry of the compression block table.
pub const BLOCK_ENTRY_BYTES: u16 = 8;

/// The 12-bit extended block count: the high nibble of header byte 20
/// shifted left by 4, combined with all of byte 21. Used in place of the
/// plain 8-bit count when the compression metadata outgrows it.
pub open spec fn spec_extended_count(byte20: u8, byte21: u8) -> u16 {
    (((byte20 & 0xF0) as u16) << 4) | (byte21 as u16)
}

/// Decodes the 12-bit extended block count from the two adjacent raw header
/// bytes that carry it.
pub fn extended_block_count(byte20: u8, byte21: u8) -> (c: u16)
    ensures
        c == spec_extended_count(byte20, byte21),
{
    (((byte20 & 0xF0) as u16) << 4) | (byte21 as u16)
}

/// The extended block count a whole buffer carries, at header bytes 20
/// and 21.
pub open spec fn spec_ext_block_count(buf: Seq<u8>) -> u16 {
    spec_extended_count(buf[20], buf[21])
}

/// How many frames precede block `b`: block 0 starts the sequence, block
/// `b >= 1` starts after the 10 frames of block 0 and the 256 frames of each
/// block between.
pub open spec fn spec_frames_before_block(b: nat) -> int {
    if b == 0 {
        0
    } else {
        BLOCK0_FRAME_SPAN + (b - 1) * (LATER_BLOCK_FRAME_SPAN as int)
    }
}

/// Which block holds frame `i`, and the frame's offset within that block;
/// `None` when the known blocks end before reaching `i`.
pub open spec fn spec_locate_frame(i: nat, block_count: nat) -> Option<(nat, nat)> {
    if block_count == 0 {
        None
    } else if i < BLOCK0_FRAME_SPAN {
        Some((0 as nat, i))
    } else if (i - BLOCK0_FRAME_SPAN) / (LATER_BLOCK_FRAME_SPAN as int) + 1 < block_count {
        Some((
            ((i - BLOCK0_FRAME_SPAN) / (LATER_BLOCK_FRAME_SPAN as int) + 1) as nat,
            ((i - BLOCK0_FRAME_SPAN) % (LATER_BLOCK_FRAME_SPAN as int)) as nat,
        ))
    } else {
        None
    }
}

/// The bytes of the compressed chunk holding block `b`, or the error a
/// request for it fails with. The block table holds `block_count` entries of
/// 8 bytes and ends exactly at the variable-data offset; entry `b` names the
/// chunk `[channel_data_offset + first_frame_byte_id, + size_bytes)`. For
/// block 0 only, a chunk start beyond the buffer falls back to the
/// channel-data offset itself, a workaround for malformed-but-common files.
pub open spec fn spec_block_chunk(buf: Seq<u8>, block_count: nat, b: nat) -> Result<Seq<u8>, PlayerError> {
    let h = spec_header_of(buf);
    if h.variable_data_offset < block_count * (BLOCK_ENTRY_BYTES as int) {
        Err(PlayerError::TruncatedFile)
    } else {
        let entry = h.variable_data_offset - block_count * (BLOCK_ENTRY_BYTES as int) + b * (
        BLOCK_ENTRY_BYTES as int);
        if entry + BLOCK_ENTRY_BYTES > buf.len() {
            Err(PlayerError::TruncatedFile)
        } else {
            let first_frame_byte_id = spec_u32_from_le_bytes(buf.subrange(entry, entry + 4));
            let size_bytes = spec_u32_from_le_bytes(buf.subrange(entry + 4, entry + 8));
            let plain_start = h.channel_data_offset + first_frame_byte_id;
            let chunk_start: int = if plain_start > buf.len() && b == 0 {
                h.channel_data_offset as int
            } else {
                plain_start
            };
            let chunk_end = chunk_start + size_bytes;
            if chunk_end > buf.len() {
                Err(PlayerError::TruncatedFile)
            } else {
                Ok(buf.subrange(chunk_start, chunk_end))
            }
        }
    }
}

/// What decompressing a chunk with the outside zstd stream decoder yields:
/// `None` where the decoder rejects the bytes, otherwise the decompressed
/// output. Success and output are a function of the chunk bytes alone.
pub uninterp spec fn zstd_inflate(chunk: Seq<u8>) -> Option<Seq<u8>>;

/// The exact result of requesting frame `frame_num` from the buffer `buf`:
/// the frame's bytes, or the error the request fails with.
pub open spec fn spec_get_frame(buf: Seq<u8>, frame_num: u32) -> Result<Seq<u8>, PlayerError> {
    let h = spec_header_of(buf);
    let frame_size = h.channel_count as int;
    if frame_num >= h.frame_count {
        Err(PlayerError::FrameOutOfRange)
    } else if h.compression_type == COMPRESSION_NONE {
        let frame_start = h.channel_data_offset + frame_num * frame_size;
        if frame_start + frame_size > buf.len() {
            Err(PlayerError::TruncatedFile)
        } else {
            Ok(buf.subrange(frame_start, frame_start + frame_size))
        }
    } else if h.compression_type == COMPRESSION_ZSTD {
        let block_count = spec_ext_block_count(buf) as nat;
        if block_count == 0 {
            Err(PlayerError::UnsupportedLayout)
        } else {
            match spec_locate_frame(frame_num as nat, block_count) {
                Option::None => Err(PlayerError::FrameOutOfRange),
                Option::Some((b, frame_in_block)) => match spec_block_chunk(buf, block_count, b) {
                    Result::Err(e) => Err(e),
                    Result::Ok(chunk) => match zstd_inflate(chunk) {
                        Option::None => Err(PlayerError::DecompressionError),
                        Option::Some(out) => {
                            let frame_start = frame_in_block * frame_size;
                            if frame_start + frame_size > out.len() {
                                Err(PlayerError::TruncatedFile)
                            } else {
                                Ok(out.subrange(frame_start, frame_start + frame_size))
                            }
                        },
                    },
                },
            }
        }
    } else {
        Err(PlayerError::UnsupportedLayout)
    }
}

/// Walks the blocks in order, accumulating their fixed frame spans, until
/// the target frame index falls inside the current block; returns the block
/// index and the frame's offset within the block. Fails with
/// `FrameOutOfRange` when the known block count is exhausted first.
pub fn locate_frame(frame_num: u32, block_count: u16) -> (r: Result<(u32, u32), PlayerError>)
    requires
        1 <= block_count,
    ensures
        r is Ok <==> spec_locate_frame(frame_num as nat, block_count as nat) is Some,
        r is Ok ==> spec_locate_frame(frame_num as nat, block_count as nat)
            == Some((r->Ok_0.0 as nat, r->Ok_0.1 as nat)),
        r is Ok ==> r->Ok_0.0 < block_count && r->Ok_0.1 < LATER_BLOCK_FRAME_SPAN,
        r is Err ==> r->Err_0 == PlayerError::FrameOutOfRange,
{
    let count: u32 = block_count as u32;
    let mut cur_start: u32 = 0;
    let mut cur_block: u32 = 0;
    loop
        invariant
            1 <= count <= u16::MAX,
            count == block_count,
            cur_block < count,
            cur_start == spec_frames_before_block(cur_block as nat),
            frame_num >= cur_start,
        decreases count - cur_block,
    {
        let span: u32 = if cur_block == 0 {
            BLOCK0_FRAME_SPAN
        } else {
            LATER_BLOCK_FRAME_SPAN
        };
        if frame_num < cur_start + span {
            let frame_in_block = frame_num - cur_start;
            proof {
                if cur_block == 0 {
                    assert(spec_locate_frame(frame_num as nat, block_count as nat)
                        == Some((0 as nat, frame_num as nat)));
                } else {
                    let i = frame_num as int;
                    let q = cur_block as int - 1;
                    let r = frame_in_block as int;
                    assert(i - BLOCK0_FRAME_SPAN == q * (LATER_BLOCK_FRAME_SPAN as int) + r);
                    lemma_fundamental_div_mod_converse(
                        i - BLOCK0_FRAME_SPAN,
                        LATER_BLOCK_FRAME_SPAN as int,
                        q,
                        r,
                    );
                }
            }
            return Ok((cur_block, frame_in_block));
        }
        cur_start = cur_start + span;
        cur_block = cur_block + 1;
        if cur_block >= count {
            proof {
                let i = frame_num as int;
                let d = LATER_BLOCK_FRAME_SPAN as int;
                assert(i - BLOCK0_FRAME_SPAN >= (count - 1) * d);
                lemma_div_is_ordered((count - 1) * d, i - BLOCK0_FRAME_SPAN, d);
                lemma_div_multiples_vanish(count as int - 1, d);
                assert((d * (count - 1)) / d == count - 1);
                assert((count - 1) * d == d * (count - 1)) by (nonlinear_arith);
                assert((i - BLOCK0_FRAME_SPAN) / d + 1 >= count);
            }
            return Err(PlayerError::FrameOutOfRange);
        }
    }
}

/// Relies on zstd::stream::decode_all: inflates one complete compressed
/// stream in the container's frame format; success and output are a
/// function of the input bytes alone.
#[verifier::external_body]
fn zstd_decompress(chunk: &[u8]) -> (r: Result<Vec<u8>, PlayerError>)
    ensures
        r is Ok <==> zstd_inflate(chunk@) is Some,
        r is Ok ==> r->Ok_0@ == zstd_inflate(chunk@)->Some_0,
        r is Err ==> r->Err_0 == PlayerError::DecompressionError,
{
    match zstd::stream::decode_all(chunk) {
        Ok(v) => Ok(v),
        Err(_) => Err(PlayerError::DecompressionError),
    }
}

/// A parsed sequence file: the raw buffer, owned once and immutable, and the
/// header extracted from its first bytes.
pub struct FseqFile {
    pub buffer: Vec<u8>,
    pub header: SequenceHeader,
}

impl FseqFile {
    /// The buffer passed header validation and `header` is exactly what its
    /// fixed offsets carry. Established by `parse`, preserved by everything
    /// (the file is never written).
    pub open spec fn wf(self) -> bool {
        &&& spec_header_status(self.buffer@) is None
        &&& self.header == spec_header_of(self.buffer@)
    }

    /// Validates the buffer and extracts the header. Succeeds exactly on the
    /// buffers `spec_header_status` accepts; on failure the status of the
    /// validating read is surfaced inside `MalformedHeader`.
    pub fn parse(buffer: Vec<u8>) -> (r: Result<Self, PlayerError>)
        ensures
            r is Ok <==> spec_header_status(buffer@) is None,
            r is Ok ==> r->Ok_0.wf() && r->Ok_0.buffer@ == buffer@,
            r is Err ==> r->Err_0 == PlayerError::MalformedHeader(spec_header_status(buffer@)->Some_0),
    {
        match parse_header(&buffer) {
            Ok(header) => Ok(FseqFile { buffer, header }),
            Err(e) => Err(e),
        }
    }

    /// The cadence between frames, in milliseconds.
    pub fn get_step_time(&self) -> (t: i32)
        ensures
            t == self.header.frame_step_time_millis as i32,
    {
        self.header.frame_step_time_millis as i32
    }

    /// Bytes per frame.
    pub fn get_channel_count(&self) -> (c: u32)
        ensures
            c == self.header.channel_count,
    {
        self.header.channel_count
    }

    /// Total frames in the sequence.
    pub fn get_frame_count(&self) -> (c: u32)
        ensures
            c == self.header.frame_count,
    {
        self.header.frame_count
    }

    /// The block-compressed path of `get_frame`: locate the block, read its
    /// table entry, decompress the chunk, slice the frame out.
    fn get_frame_zstd(&self, frame_num: u32) -> (r: Result<Vec<u8>, PlayerError>)
        requires
            self.wf(),
            self.header.compression_type == COMPRESSION_ZSTD,
            frame_num < self.header.frame_count,
        ensures
            r is Ok <==> spec_get_frame(self.buffer@, frame_num) is Ok,
            r is Ok ==> r->Ok_0@ == spec_get_frame(self.buffer@, frame_num)->Ok_0,
            r is Err ==> r->Err_0 == spec_get_frame(self.buffer@, frame_num)->Err_0,
    {
        let frame_size: u64 = self.header.channel_count as u64;
        let buf_len: u64 = self.buffer.len() as u64;
        let bc: u16 = extended_block_count(self.buffer[20], self.buffer[21]);
        if bc == 0 {
            return Err(PlayerError::UnsupportedLayout);
        }
        let (block_index, frame_in_block): (u32, u32) = match locate_frame(frame_num, bc) {
            Ok(pair) => pair,
            Err(e) => {
                return Err(e);
            },
        };
        let vdo: u64 = self.header.variable_data_offset as u64;
        let table_bytes: u64 = bc as u64 * BLOCK_ENTRY_BYTES as u64;
        if vdo < table_bytes {
            return Err(PlayerError::TruncatedFile);
        }
        let entry: u64 = vdo - table_bytes + block_index as u64 * BLOCK_ENTRY_BYTES as u64;
        if entry + BLOCK_ENTRY_BYTES as u64 > buf_len {
            return Err(PlayerError::TruncatedFile);
        }
        let entry_bytes = slice_subrange(self.buffer.as_slice(), entry as usize, entry as usize + 8);
        let first_frame_byte_id = u32_from_le_bytes(slice_subrange(entry_bytes, 0, 4));
        let size_bytes = u32_from_le_bytes(slice_subrange(entry_bytes, 4, 8));
        proof {
            assert(entry_bytes@.subrange(0, 4)
                =~= self.buffer@.subrange(entry as int, entry as int + 4));
            assert(entry_bytes@.subrange(4, 8)
                =~= self.buffer@.subrange(entry as int + 4, entry as int + 8));
        }
        let plain_start: u64 = self.header.channel_data_offset as u64 + first_frame_byte_id as u64;
        let (chunk_start, chunk_end): (u64, u64) = if plain_start > buf_len && block_index == 0 {
            // Workaround for malformed-but-common files: for block 0 only, a
            // chunk start beyond the buffer falls back to the channel-data
            // offset itself.
            (
                self.header.channel_data_offset as u64,
                self.header.channel_data_offset as u64 + size_bytes as u64,
            )
        } else {
            (plain_start, plain_start + size_bytes as u64)
        };
        if chunk_end > buf_len {
            return Err(PlayerError::TruncatedFile);
        }
        let chunk = slice_subrange(self.buffer.as_slice(), chunk_start as usize, chunk_end as usize);
        match zstd_decompress(chunk) {
            Err(e) => Err(e),
            Ok(out) => {
                proof {
                    lemma_mul_upper_bound(
                        frame_in_block as int,
                        LATER_BLOCK_FRAME_SPAN as int,
                        frame_size as int,
                        u32::MAX as int,
                    );
                }
                let frame_start: u64 = frame_in_block as u64 * frame_size;
                let frame_end: u64 = frame_start + frame_size;
                if frame_end > out.len() as u64 {
                    return Err(PlayerError::TruncatedFile);
                }
                Ok(slice_to_vec(slice_subrange(out.as_slice(), frame_start as usize, frame_end as usize)))
            },
        }
    }

    /// Extracts the pixel buffer of one frame. The result is pinned by
    /// `spec_get_frame`: a function of the buffer and the index alone.
    pub fn get_frame(&self, frame_num: u32) -> (r: Result<Vec<u8>, PlayerError>)
        requires
            self.wf(),
        ensures
            r is Ok <==> spec_get_frame(self.buffer@, frame_num) is Ok,
            r is Ok ==> r->Ok_0@ == spec_get_frame(self.buffer@, frame_num)->Ok_0,
            r is Err ==> r->Err_0 == spec_get_frame(self.buffer@, frame_num)->Err_0,
    {
        if frame_num >= self.header.frame_count {
            return Err(PlayerError::FrameOutOfRange);
        }
        let frame_size: u64 = self.header.channel_count as u64;
        let buf_len: u64 = self.buffer.len() as u64;
        match self.header.compression_kind() {
            CompressionKind::Uncompressed => {
                proof {
                    lemma_mul_upper_bound(frame_num as int, u32::MAX as int, frame_size as int, u32::MAX as int);
                }
                let frame_start: u64 = self.header.channel_data_offset as u64 + frame_num as u64 * frame_size;
                let frame_end: u64 = frame_start + frame_size;
                if frame_end > buf_len {
                    return Err(PlayerError::TruncatedFile);
                }
                let s = slice_subrange(self.buffer.as_slice(), frame_start as usize, frame_end as usize);
                Ok(slice_to_vec(s))
            },
            CompressionKind::Zstd => {
                self.get_frame_zstd(frame_num)
            },
            CompressionKind::Zlib => {
                // Recognized but unimplemented: fails cleanly rather than
                // mishandling the data.
                Err(PlayerError::UnsupportedLayout)
            },
            CompressionKind::Unknown => {
                Err(PlayerError::UnsupportedLayout)
            },
        }
    }
}


/// For a valid uncompressed sequence buffer, every frame index below the
/// frame count whose slice fits inside the buffer yields exactly the
/// `channel_count` bytes starting at `channel_data_offset + index *
/// channel_count`.
pub proof fn lemma_uncompressed_frame_bytes(buf: Seq<u8>, i: u32)
    requires
        spec_header_status(buf) is None,
        spec_header_of(buf).compression_type == COMPRESSION_NONE,
        i < spec_header_of(buf).frame_count,
        spec_header_of(buf).channel_data_offset + i * spec_header_of(buf).channel_count
            + spec_header_of(buf).channel_count <= buf.len(),
    ensures
        spec_get_frame(buf, i) == Ok::<Seq<u8>, PlayerError>(
            buf.subrange(
                spec_header_of(buf).channel_data_offset + i * spec_header_of(buf).channel_count,
                spec_header_of(buf).channel_data_offset + i * spec_header_of(buf).channel_count
                    + spec_header_of(buf).channel_count,
            ),
        ),
        spec_get_frame(buf, i)->Ok_0.len() == spec_header_of(buf).channel_count,
{
}

/// Requesting any frame index at or beyond the frame count fails with
/// `FrameOutOfRange`, whatever else the buffer holds.
pub proof fn lemma_frame_out_of_range(buf: Seq<u8>, i: u32)
    requires
        i >= spec_header_of(buf).frame_count,
    ensures
        spec_get_frame(buf, i) == Err::<Seq<u8>, PlayerError>(PlayerError::FrameOutOfRange),
{
}

/// Round trip: decoding and re-decoding the same frame index from an
/// unchanged buffer yields byte-identical output. Any two results that meet
/// `get_frame`'s contract for the same buffer and index are one value,
/// because the contract pins the result to a function of the buffer and the
/// index alone.
pub proof fn lemma_get_frame_deterministic(
    buf: Seq<u8>,
    i: u32,
    r1: Result<Seq<u8>, PlayerError>,
    r2: Result<Seq<u8>, PlayerError>,
)
    requires
        r1 == spec_get_frame(buf, i),
        r2 == spec_get_frame(buf, i),
    ensures
        r1 == r2,
{
}

} // verus!
