//! Data of the operating-system domain.
use vstd::prelude::*;

verus! {

/// Identity and uptime of the host.
#[derive(Clone, Debug, PartialEq, Eq)]
pub struct OSInfo {
    pub name: String,
    pub version: String,
    pub architecture: String,
    pub hostname: String,
    pub uptime_seconds: u64,
    pub boot_time: u64,
}

/// Commands understood by the operating-system domain.
#[derive(Clone, Debug, PartialEq, Eq)]
pub enum OSCommand {
    GetSystemInfo,
    GetProcessList,
    GetSystemResources,
    KillProcess(u32),
    SetProcessPriority(u32, i32),
    GetEnvironmentVariable(String),
    SetEnvironmentVariable(String, String),
}

} // verus!
