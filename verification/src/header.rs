//! Validation and extraction of the fixed-layout header at the front of a
//! sequence buffer.
//!
//! The first 32 bytes of a sequence file carry fixed-offset metadata: the
//! magic bytes, the offset of the channel (frame) data, the offset of the
//! variable data (which doubles as the header size), version numbers, frame
//! and channel counts, the frame cadence, and the compression metadata. A
//! buffer is rejected as malformed when it is shorter than 32 bytes, does not
//! start with the magic, or carries offsets inconsistent with its length.

use vstd::prelude::*;
use vstd::bytes::{spec_u16_from_le_bytes, spec_u32_from_le_bytes, u16_from_le_bytes, u32_from_le_bytes};
use vstd::slice::slice_subrange;
use crate::error::{HeaderStatus, PlayerError};

verus! {

/// A header occupies at least this many bytes of the buffer.
pub const MIN_HEADER_SIZE: usize = 32;

/// Compression tag for frames stored contiguously, uncompressed.
pub const COMPRESSION_NONE: u8 = 0;

/// Compression tag for block-compressed frame data.
pub const COMPRESSION_ZSTD: u8 = 1;

/// Compression tag for the second compression scheme, recognized but not
/// implemented by this player.
pub const COMPRESSION_ZLIB: u8 = 2;

/// The compression layout a header announces, derived from the low nibble of
/// header byte 20.
#[derive(Clone, Copy, Debug, PartialEq, Eq, Structural)]
pub enum CompressionKind {
    /// Frames stored contiguously at the channel-data offset.
    Uncompressed,
    /// Frames grouped into independently compressed blocks.
    Zstd,
    /// Recognized but unimplemented; every frame request fails cleanly.
    Zlib,
    /// Any other tag; every frame request fails cleanly.
    Unknown,
}

/// The fixed-offset metadata of a sequence buffer.
#[derive(Clone, Copy, Debug, PartialEq, Eq, Structural)]
pub struct SequenceHeader {
    /// Where the frame (channel) data starts; bytes 4..6, little endian.
    pub channel_data_offset: u16,
    /// Byte 6.
    pub minor_version: u8,
    /// Byte 7.
    pub major_version: u8,
    /// Where the variable data starts, also the header size; bytes 8..10,
    /// little endian. The compression block table ends exactly here.
    pub variable_data_offset: u16,
    /// Bytes per frame; bytes 10..14, little endian.
    pub channel_count: u32,
    /// Total frames in the sequence; bytes 14..18, little endian.
    pub frame_count: u32,
    /// Cadence between frames, in milliseconds; byte 18.
    pub frame_step_time_millis: u8,
    /// The low nibble of byte 20.
    pub compression_type: u8,
    /// The low 8 bits of the block count; byte 21.
    pub compression_block_count: u8,
    /// Sparse channel-range count; byte 22.
    pub channel_range_count: u8,
}

impl SequenceHeader {
    /// The compression layout announced by the `compression_type` tag.
    pub open spec fn spec_compression_kind(self) -> CompressionKind {
        if self.compression_type == COMPRESSION_NONE {
            CompressionKind::Uncompressed
        } else if self.compression_type == COMPRESSION_ZSTD {
            CompressionKind::Zstd
        } else if self.compression_type == COMPRESSION_ZLIB {
            CompressionKind::Zlib
        } else {
            CompressionKind::Unknown
        }
    }

    /// Classifies the raw compression tag.
    pub fn compression_kind(&self) -> (k: CompressionKind)
        ensures
            k == self.spec_compression_kind(),
    {
        if self.compression_type == COMPRESSION_NONE {
            CompressionKind::Uncompressed
        } else if self.compression_type == COMPRESSION_ZSTD {
            CompressionKind::Zstd
        } else if self.compression_type == COMPRESSION_ZLIB {
            CompressionKind::Zlib
        } else {
            CompressionKind::Unknown
        }
    }
}

/// The header a buffer carries, field by field, read at the fixed offsets.
/// Meaningful only when `spec_header_status(buf)` is `None`.
pub open spec fn spec_header_of(buf: Seq<u8>) -> SequenceHeader {
    SequenceHeader {
        channel_data_offset: spec_u16_from_le_bytes(buf.subrange(4, 6)),
        minor_version: buf[6],
        major_version: buf[7],
        variable_data_offset: spec_u16_from_le_bytes(buf.subrange(8, 10)),
        channel_count: spec_u32_from_le_bytes(buf.subrange(10, 14)),
        frame_count: spec_u32_from_le_bytes(buf.subrange(14, 18)),
        frame_step_time_millis: buf[18],
        compression_type: buf[20] & 0x0F,
        compression_block_count: buf[21],
        channel_range_count: buf[22],
    }
}

/// Why a buffer fails header validation, or `None` when it passes: it must
/// hold at least 32 bytes, begin with the magic bytes `P`, `S`, `E`, `Q`,
/// and carry offsets consistent with its length (the variable data starts at
/// or after the fixed header, the channel data at or after the variable
/// data, and both inside the buffer).
pub open spec fn spec_header_status(buf: Seq<u8>) -> Option<HeaderStatus> {
    if buf.len() < MIN_HEADER_SIZE {
        Some(HeaderStatus::BufferTooSmall)
    } else if !(buf[0] == 0x50 && buf[1] == 0x53 && buf[2] == 0x45 && buf[3] == 0x51) {
        Some(HeaderStatus::BadMagic)
    } else if !(MIN_HEADER_SIZE <= spec_header_of(buf).variable_data_offset
        && spec_header_of(buf).variable_data_offset <= spec_header_of(buf).channel_data_offset
        && spec_header_of(buf).channel_data_offset <= buf.len()) {
        Some(HeaderStatus::InconsistentLayout)
    } else {
        None
    }
}

/// Validates a buffer as a sequence-file header and extracts the fixed
/// fields. Succeeds exactly on the buffers `spec_header_status` accepts; on
/// failure the status of the validating read is surfaced inside
/// `MalformedHeader`.
pub fn parse_header(buffer: &Vec<u8>) -> (r: Result<SequenceHeader, PlayerError>)
    ensures
        r is Ok <==> spec_header_status(buffer@) is None,
        r is Ok ==> r->Ok_0 == spec_header_of(buffer@),
        r is Err ==> r->Err_0 == PlayerError::MalformedHeader(spec_header_status(buffer@)->Some_0),
{
    if buffer.len() < MIN_HEADER_SIZE {
        return Err(PlayerError::MalformedHeader(HeaderStatus::BufferTooSmall));
    }
    let b = buffer.as_slice();
    if !(buffer[0] == 0x50 && buffer[1] == 0x53 && buffer[2] == 0x45 && buffer[3] == 0x51) {
        return Err(PlayerError::MalformedHeader(HeaderStatus::BadMagic));
    }
    let channel_data_offset = u16_from_le_bytes(slice_subrange(b, 4, 6));
    let variable_data_offset = u16_from_le_bytes(slice_subrange(b, 8, 10));
    if !(MIN_HEADER_SIZE as u16 <= variable_data_offset
        && variable_data_offset <= channel_data_offset
        && channel_data_offset as usize <= buffer.len()) {
        return Err(PlayerError::MalformedHeader(HeaderStatus::InconsistentLayout));
    }
    let header = SequenceHeader {
        channel_data_offset,
        minor_version: buffer[6],
        major_version: buffer[7],
        variable_data_offset,
        channel_count: u32_from_le_bytes(slice_subrange(b, 10, 14)),
        frame_count: u32_from_le_bytes(slice_subrange(b, 14, 18)),
        frame_step_time_millis: buffer[18],
        compression_type: buffer[20] & 0x0F,
        compression_block_count: buffer[21],
        channel_range_count: buffer[22],
    };
    Ok(header)
}

/// A buffer shorter than the fixed header size is always rejected as
/// malformed, whatever its bytes.
pub proof fn lemma_short_buffer_is_malformed(buf: Seq<u8>)
    requires
        buf.len() < MIN_HEADER_SIZE,
    ensures
        spec_header_status(buf) == Some(HeaderStatus::BufferTooSmall),
{
}

} // verus!
