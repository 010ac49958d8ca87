//! The resolved configuration: which report sections are shown and how
//! values are formatted. A `Config` is always fully populated; partial
//! documents are rejected by the parser rather than merged with defaults.

use vstd::prelude::*;

verus! {

/// Unit used when rendering the host's uptime.
#[derive(Clone, Copy, PartialEq, Eq, Structural, Debug)]
pub enum Time {
    Second,
    Minute,
    Hour,
}

/// Unit used when rendering memory and swap amounts.
#[derive(Clone, Copy, PartialEq, Eq, Structural, Debug)]
pub enum MemType {
    KB,
    MB,
    GB,
}

/// The full set of display toggles and formatting options for one run.
#[derive(Clone, Copy, PartialEq, Eq, Structural, Debug)]
pub struct Config {
    pub show_os: bool,
    pub show_hostname: bool,
    pub show_uptime: bool,
    pub show_kernel_version: bool,
    pub show_memory: bool,
    pub show_swap: bool,
    pub show_de: bool,
    pub show_colors: bool,
    pub show_cpu: bool,
    pub show_cores: bool,
    pub show_disks: bool,
    pub show_temperature: bool,
    pub colors_height: u32,
    pub colors_width: u32,
    pub uptime_type: Time,
    pub memory_type: MemType,
}

/// The compiled-in fallback configuration: every section on except
/// temperature, a 3-by-3 swatch layout, uptime in minutes, memory in GB.
pub open spec fn spec_default_config() -> Config {
    Config {
        show_os: true,
        show_hostname: true,
        show_uptime: true,
        show_kernel_version: true,
        show_memory: true,
        show_swap: true,
        show_de: true,
        show_colors: true,
        show_cpu: true,
        show_cores: true,
        show_disks: true,
        show_temperature: false,
        colors_height: 3,
        colors_width: 3,
        uptime_type: Time::Minute,
        memory_type: MemType::GB,
    }
}

impl Default for Config {
    /// The fallback `Config`, used whenever the user's file is absent,
    /// unreadable or invalid.
    fn default() -> (c: Config)
        ensures
            c == spec_default_config(),
    {
        Config {
            show_os: true,
            show_hostname: true,
            show_uptime: true,
            show_kernel_version: true,
            show_memory: true,
            show_swap: true,
            show_de: true,
            show_colors: true,
            show_cpu: true,
            show_cores: true,
            show_disks: true,
            show_temperature: false,
            colors_height: 3,
            colors_width: 3,
            uptime_type: Time::Minute,
            memory_type: MemType::GB,
        }
    }
}

} // verus!
