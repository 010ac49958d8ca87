//! An immutable, point-in-time capture of host facts, as plain values. The
//! surrounding binary fills one in from its facts provider; the renderer
//! only reads it. A fact that the host could not supply is `None`, and its
//! section is silently suppressed.

use vstd::prelude::*;

verus! {

/// One mounted disk: its name and its total and still-available capacity.
#[derive(Clone, Debug)]
pub struct Disk {
    pub name: String,
    pub total_bytes: u64,
    pub available_bytes: u64,
}

impl Disk {
    /// A disk never has more available space than total space; used space
    /// is the difference of the two.
    pub open spec fn wf(self) -> bool {
        self.available_bytes <= self.total_bytes
    }
}

/// One temperature sensor reading. The temperature is carried as the text
/// the provider reported, at its raw precision; this crate imposes no
/// rounding on it.
#[derive(Clone, Debug)]
pub struct Sensor {
    pub label: String,
    pub temperature: String,
}

/// The host facts gathered once at startup.
#[derive(Clone, Debug)]
pub struct Snapshot {
    pub host_name: Option<String>,
    pub os_version: Option<String>,
    pub kernel_version: Option<String>,
    pub desktop_environment: Option<String>,
    pub uptime_seconds: u64,
    pub cpu_brand: String,
    pub cpu_count: u64,
    pub memory_used: u64,
    pub memory_total: u64,
    pub swap_used: u64,
    pub swap_total: u64,
    pub disks: Vec<Disk>,
    pub sensors: Vec<Sensor>,
}

impl Snapshot {
    pub open spec fn wf(self) -> bool {
        forall|i: int| 0 <= i < self.disks@.len() ==> (#[trigger] self.disks@[i]).wf()
    }
}

} // verus!
