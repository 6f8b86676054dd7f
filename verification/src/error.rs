//! The error kinds of the player.

use vstd::prelude::*;

verus! {

/// Why a buffer was rejected as a sequence-file header.
#[derive(Clone, Copy, Debug, PartialEq, Eq, Structural)]
pub enum HeaderStatus {
    /// The buffer is shorter than the 32 bytes a header occupies.
    BufferTooSmall,
    /// The buffer does not begin with the container's magic bytes.
    BadMagic,
    /// The channel-data offset and variable-data offset are not consistent
    /// with the buffer length.
    InconsistentLayout,
}

/// Everything that can go wrong while parsing a sequence file, extracting a
/// frame, or driving playback.
#[derive(Clone, Copy, Debug, PartialEq, Eq, Structural)]
pub enum PlayerError {
    /// The buffer failed structural header validation; carries the status of
    /// the validating read.
    MalformedHeader(HeaderStatus),
    /// A read implied by the header's offsets would fall outside the buffer,
    /// or decompressed output is too short for the requested frame.
    TruncatedFile,
    /// A frame index at or beyond the total frame count was requested.
    FrameOutOfRange,
    /// The buffer uses a compression layout the player does not handle:
    /// single-stream compressed data (block count zero), the recognized but
    /// unimplemented second compression scheme, or an unknown tag.
    UnsupportedLayout,
    /// The located compressed chunk could not be decompressed.
    DecompressionError,
    /// The destination was unreachable when opening the connection.
    ConnectionSetupError,
    /// The liveness probe could not be executed at all; treated by the
    /// monitor as a failed probe.
    ProbeExecutionError,
}

} // verus!
