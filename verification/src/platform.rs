//! Coarse platform classification by magic bytes alone.
//!
//! Unlike the full header inspection, this looks only at the first
//! four bytes, which is all the stored-binary bookkeeping needs.

use crate::bytefield::{read_u32_be, spec_u32_be_at};
use vstd::prelude::*;

verus! {

/// Executable format family of a stored binary.
#[derive(Clone, Copy, Debug, PartialEq, Eq, Structural)]
pub enum Platform {
    LinuxELF,
    WindowsPE,
    MacOSMachO,
    Unknown,
}

/// Classification by the magic bytes at the start of the buffer.
pub open spec fn spec_detect_platform(s: Seq<u8>) -> Platform {
    if s.len() < 4 {
        Platform::Unknown
    } else if s[0] == 0x7fu8 && s[1] == 0x45u8 && s[2] == 0x4cu8 && s[3] == 0x46u8 {
        Platform::LinuxELF
    } else if s[0] == 0x4du8 && s[1] == 0x5au8 {
        Platform::WindowsPE
    } else if {
        let m = spec_u32_be_at(s, 0);
        m == 0xfeedface || m == 0xfeedfacf || m == 0xcefaedfe || m == 0xcffaedfe
    } {
        Platform::MacOSMachO
    } else {
        Platform::Unknown
    }
}

impl Platform {
    /// Classify a binary by its leading magic bytes.
    pub fn detect(data: &[u8]) -> (r: Platform)
        ensures
            r == spec_detect_platform(data@),
    {
        if data.len() < 4 {
            return Platform::Unknown;
        }
        if data[0] == 0x7f && data[1] == 0x45 && data[2] == 0x4c && data[3] == 0x46 {
            return Platform::LinuxELF;
        }
        if data[0] == 0x4d && data[1] == 0x5a {
            return Platform::WindowsPE;
        }
        let magic = read_u32_be(data, 0);
        if magic == 0xfeedface || magic == 0xfeedfacf || magic == 0xcefaedfe || magic
            == 0xcffaedfe {
            return Platform::MacOSMachO;
        }
        Platform::Unknown
    }

    /// Human-readable name of the platform.
    pub open spec fn spec_name(self) -> Seq<char> {
        match self {
            Platform::LinuxELF => "Linux ELF"@,
            Platform::WindowsPE => "Windows PE"@,
            Platform::MacOSMachO => "macOS Mach-O"@,
            Platform::Unknown => "Unknown"@,
        }
    }

    /// Human-readable name of the platform.
    pub fn name(&self) -> (r: &'static str)
        ensures
            r@ == self.spec_name(),
    {
        match self {
            Platform::LinuxELF => "Linux ELF",
            Platform::WindowsPE => "Windows PE",
            Platform::MacOSMachO => "macOS Mach-O",
            Platform::Unknown => "Unknown",
        }
    }

    /// Only Linux ELF binaries are stored by the bookkeeping service.
    pub fn is_supported(&self) -> (r: bool)
        ensures
            r == (self == Platform::LinuxELF),
    {
        matches!(self, Platform::LinuxELF)
    }
}

} // verus!
