//! Streams a pre-rendered lighting sequence, stored in a fixed-layout binary
//! container, as a cadence of per-frame pixel buffers to a remote display
//! controller, pausing and resuming automatically on the controller's
//! reachability.
//!
//! The library holds the verified core: header parsing, block location and
//! frame extraction from the sequence buffer, the packet layout for the
//! display protocol, and the decision logic of the playback scheduler and the
//! liveness monitor. The surrounding process (file reading, sockets, timers,
//! long-running tasks) drives these functions from outside.

use vstd::prelude::*;

pub mod ddp;
pub mod error;
pub mod fseq;
pub mod header;
pub mod monitor;
pub mod playback;
pub mod state;

verus! {

/// Configuration for one playback run, supplied by the process around the
/// library: where the sequence file lives, which controller to drive, and
/// whether to loop the sequence forever.
#[derive(Clone, Debug)]
pub struct PlaybackConfig {
    pub fseq_path: String,
    pub wled_ip_address: String,
    pub loop_enabled: bool,
    pub ddp_port: u16,
}

/// Command-line options of the player: controller address and port, sequence
/// file path, and the looping flag. Argument parsing itself happens outside
/// the library; this type only carries the parsed values.
#[derive(Clone, Debug)]
pub struct Cli {
    pub host: String,
    pub port: u16,
    pub file: String,
    pub loop_enabled: bool,
}

} // verus!
