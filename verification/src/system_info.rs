//! The record the get-system-info command reports. The host fills it from
//! its system probe and serializes it; the library fixes what the record
//! holds.

use vstd::prelude::*;

verus! {

/// A snapshot of the machine: operating system and architecture names,
/// memory in bytes, logical CPU count, and uptime in seconds.
#[derive(Debug)]
pub struct SystemInfo {
    pub os: String,
    pub arch: String,
    pub total_memory: u64,
    pub available_memory: u64,
    pub cpu_count: usize,
    pub uptime: u64,
}

impl SystemInfo {
    /// Assemble the report from the probed values.
    pub fn new(
        os: String,
        arch: String,
        total_memory: u64,
        available_memory: u64,
        cpu_count: usize,
        uptime: u64,
    ) -> (s: SystemInfo)
        ensures
            s.os@ == os@,
            s.arch@ == arch@,
            s.total_memory == total_memory,
            s.available_memory == available_memory,
            s.cpu_count == cpu_count,
            s.uptime == uptime,
    {
        SystemInfo { os, arch, total_memory, available_memory, cpu_count, uptime }
    }
}

} // verus!
