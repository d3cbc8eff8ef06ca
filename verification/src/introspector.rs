//! Domain records: immutable snapshots of sink and server information,
//! materialized at callback time with fully owned field data so they outlive
//! the underlying library's transient views.

use vstd::prelude::*;
use vstd::arithmetic::div_mod::{lemma_div_is_ordered, lemma_div_multiples_vanish};

verus! {

/// Availability of a sink port.
#[derive(Clone, Copy, Debug, PartialEq, Eq)]
pub enum PortAvailability {
    Unknown,
    No,
    Yes,
}

/// One port of a sink, with owned name and description.
#[derive(Clone, Debug, PartialEq, Eq)]
pub struct SinkPortInfo {
    /// Name of the port.
    pub name: Option<String>,
    /// Description of this port.
    pub description: Option<String>,
    /// The higher this value is, the more useful this port is as a default.
    pub priority: u32,
    /// A flag indicating availability status of this port.
    pub available: PortAvailability,
}

/// A snapshot of one sink. Every field is owned; volumes are per-channel
/// levels. Fields that only the underlying library can interpret (sample
/// format, channel positions, property lists, supported formats) are left to
/// the unverified rim that builds these records.
#[derive(Clone, Debug, PartialEq, Eq)]
pub struct SinkInfo {
    /// Name of the sink.
    pub name: Option<String>,
    /// Index of the sink.
    pub index: u32,
    /// Description of this sink.
    pub description: Option<String>,
    /// Index of the owning module of this sink, or `None` if invalid.
    pub owner_module: Option<u32>,
    /// Volume of the sink, one level per channel.
    pub volume: Vec<u32>,
    /// Mute switch of the sink.
    pub mute: bool,
    /// Index of the monitor source connected to this sink.
    pub monitor_source: u32,
    /// The name of the monitor source.
    pub monitor_source_name: Option<String>,
    /// Length of queued audio in the output buffer, in microseconds.
    pub latency: u64,
    /// Driver name.
    pub driver: Option<String>,
    /// The latency this device has been configured to, in microseconds.
    pub configured_latency: u64,
    /// Some kind of base volume that refers to unamplified or unattenuated
    /// volume in the context of the output device.
    pub base_volume: u32,
    /// Number of volume steps for sinks which do not support arbitrary
    /// volumes.
    pub n_volume_steps: u32,
    /// Card index, or `None` if invalid.
    pub card: Option<u32>,
    /// Set of available ports.
    pub ports: Vec<SinkPortInfo>,
    /// The active port in the set, or `None`.
    pub active_port: Option<SinkPortInfo>,
}

/// A snapshot of the server, with owned field data.
#[derive(Clone, Debug, PartialEq, Eq)]
pub struct ServerInfo {
    /// User name of the daemon process.
    pub user_name: Option<String>,
    /// Host name the daemon is running on.
    pub host_name: Option<String>,
    /// Version string of the daemon.
    pub server_version: Option<String>,
    /// Server package name.
    pub server_name: Option<String>,
    /// Name of the default sink.
    pub default_sink_name: Option<String>,
    /// Name of the default source.
    pub default_source_name: Option<String>,
    /// A random cookie identifying this server instance.
    pub cookie: u32,
}

/// The sum of a sequence of volume levels.
pub open spec fn volume_sum(s: Seq<u32>) -> int
    decreases s.len(),
{
    if s.len() == 0 {
        0
    } else {
        volume_sum(s.drop_last()) + s.last()
    }
}

/// The mean volume level, rounding down; zero when there are no channels.
pub open spec fn average_of(s: Seq<u32>) -> int {
    if s.len() == 0 {
        0
    } else {
        volume_sum(s) / s.len() as int
    }
}

impl SinkInfo {
    /// The mean of the per-channel volume levels, rounding down; zero for a
    /// sink without channels.
    pub fn average_volume(&self) -> (r: u32)
        ensures
            r == average_of(self.volume@),
    {
        let n = self.volume.len();
        if n == 0 {
            return 0;
        }
        let mut sum: u128 = 0;
        let mut i: usize = 0;
        while i < n
            invariant
                n == self.volume@.len(),
                0 <= i <= n,
                sum == volume_sum(self.volume@.take(i as int)),
                sum <= (i as int) * 0xffff_ffff,
            decreases n - i,
        {
            let v = self.volume[i];
            proof {
                assert(self.volume@.take(i + 1).drop_last() =~= self.volume@.take(i as int));
            }
            sum = sum + (v as u128);
            i = i + 1;
        }
        proof {
            assert(self.volume@.take(n as int) =~= self.volume@);
            lemma_div_is_ordered(sum as int, (n as int) * 0xffff_ffff, n as int);
            lemma_div_multiples_vanish(0xffff_ffff, n as int);
        }
        let avg = sum / (n as u128);
        avg as u32
    }
}

} // verus!
