//! Operating system identification from executable image headers.

use crate::image::{
    elf_header_ok, elf_osabi, macho_fat_magic, macho_thin_magic, pe_header_ok,
    spec_elf_header_ok, spec_elf_osabi, spec_is_macho, spec_pe_header_ok,
};
use vstd::prelude::*;

verus! {

/// Operating system a payload targets, as read from its header.
#[derive(Clone, Copy, Debug, PartialEq, Eq, Hash, Structural)]
pub enum OperatingSystem {
    Linux,
    Windows,
    MacOS,
    FreeBSD,
    OpenBSD,
    NetBSD,
    Solaris,
    Unknown,
}

/// Operating system named by an ELF `EI_OSABI` tag.  SysV and Linux
/// tags, and anything unrecognized, read as Linux.
pub open spec fn spec_elf_os(osabi: u8) -> OperatingSystem {
    if osabi == 9 {
        OperatingSystem::FreeBSD
    } else if osabi == 12 {
        OperatingSystem::OpenBSD
    } else if osabi == 2 {
        OperatingSystem::NetBSD
    } else if osabi == 6 {
        OperatingSystem::Solaris
    } else {
        OperatingSystem::Linux
    }
}

/// Operating system read from the leading bytes of a payload.
pub open spec fn spec_detect_os(s: Seq<u8>) -> OperatingSystem {
    if spec_elf_header_ok(s) {
        spec_elf_os(spec_elf_osabi(s))
    } else if spec_pe_header_ok(s) {
        OperatingSystem::Windows
    } else if spec_is_macho(s) {
        OperatingSystem::MacOS
    } else {
        OperatingSystem::Unknown
    }
}

impl OperatingSystem {
    /// Inspect a payload's header and name its operating system.
    pub fn detect(data: &[u8]) -> (r: OperatingSystem)
        ensures
            r == spec_detect_os(data@),
    {
        if elf_header_ok(data) {
            let osabi = elf_osabi(data);
            if osabi == 9 {
                OperatingSystem::FreeBSD
            } else if osabi == 12 {
                OperatingSystem::OpenBSD
            } else if osabi == 2 {
                OperatingSystem::NetBSD
            } else if osabi == 6 {
                OperatingSystem::Solaris
            } else {
                OperatingSystem::Linux
            }
        } else if pe_header_ok(data) {
            OperatingSystem::Windows
        } else if macho_thin_magic(data) || macho_fat_magic(data) {
            OperatingSystem::MacOS
        } else {
            OperatingSystem::Unknown
        }
    }

    /// Human-readable name of the operating system.
    pub open spec fn spec_name(self) -> Seq<char> {
        match self {
            OperatingSystem::Linux => "Linux"@,
            OperatingSystem::Windows => "Windows"@,
            OperatingSystem::MacOS => "macOS"@,
            OperatingSystem::FreeBSD => "FreeBSD"@,
            OperatingSystem::OpenBSD => "OpenBSD"@,
            OperatingSystem::NetBSD => "NetBSD"@,
            OperatingSystem::Solaris => "Solaris"@,
            OperatingSystem::Unknown => "Unknown"@,
        }
    }

    /// Human-readable name of the operating system.
    pub fn name(&self) -> (r: &'static str)
        ensures
            r@ == self.spec_name(),
    {
        match self {
            OperatingSystem::Linux => "Linux",
            OperatingSystem::Windows => "Windows",
            OperatingSystem::MacOS => "macOS",
            OperatingSystem::FreeBSD => "FreeBSD",
            OperatingSystem::OpenBSD => "OpenBSD",
            OperatingSystem::NetBSD => "NetBSD",
            OperatingSystem::Solaris => "Solaris",
            OperatingSystem::Unknown => "Unknown",
        }
    }

    /// The systems a stub exists for.
    pub open spec fn spec_is_supported(self) -> bool {
        self == OperatingSystem::Linux || self == OperatingSystem::Windows || self
            == OperatingSystem::MacOS
    }

    /// Whether a stub exists for this operating system.
    pub fn is_supported(&self) -> (r: bool)
        ensures
            r == self.spec_is_supported(),
    {
        matches!(
            self,
            OperatingSystem::Linux | OperatingSystem::Windows | OperatingSystem::MacOS
        )
    }

    /// Name of the executable format the system uses.
    pub open spec fn spec_binary_format(self) -> Seq<char> {
        match self {
            OperatingSystem::Linux => "ELF"@,
            OperatingSystem::FreeBSD => "ELF"@,
            OperatingSystem::OpenBSD => "ELF"@,
            OperatingSystem::NetBSD => "ELF"@,
            OperatingSystem::Solaris => "ELF"@,
            OperatingSystem::Windows => "PE"@,
            OperatingSystem::MacOS => "Mach-O"@,
            OperatingSystem::Unknown => "Unknown"@,
        }
    }

    /// Name of the executable format the system uses.
    pub fn binary_format(&self) -> (r: &'static str)
        ensures
            r@ == self.spec_binary_format(),
    {
        match self {
            OperatingSystem::Linux
            | OperatingSystem::FreeBSD
            | OperatingSystem::OpenBSD
            | OperatingSystem::NetBSD
            | OperatingSystem::Solaris => "ELF",
            OperatingSystem::Windows => "PE",
            OperatingSystem::MacOS => "Mach-O",
            OperatingSystem::Unknown => "Unknown",
        }
    }
}

} // verus!
