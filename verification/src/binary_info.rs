//! Combined identification of a payload: architecture and operating
//! system together, with the compatibility and support checks the
//! assembler applies to a pair of payloads.

use crate::arch::{spec_detect_arch, Architecture};
use crate::os::{spec_detect_os, OperatingSystem};
use vstd::prelude::*;
use vstd::string::StringExecFns;

verus! {

/// What header inspection says about one payload.
#[derive(Clone, Copy, Debug, PartialEq, Eq, Structural)]
pub struct BinaryInfo {
    pub arch: Architecture,
    pub os: OperatingSystem,
}

/// The identification both detectors read from the leading bytes.
pub open spec fn spec_detect_info(s: Seq<u8>) -> BinaryInfo {
    BinaryInfo { arch: spec_detect_arch(s), os: spec_detect_os(s) }
}

impl BinaryInfo {
    /// Inspect a payload's header.
    pub fn detect(data: &[u8]) -> (r: BinaryInfo)
        ensures
            r == spec_detect_info(data@),
    {
        BinaryInfo { arch: Architecture::detect(data), os: OperatingSystem::detect(data) }
    }

    /// Two payloads can share a launcher only on the same architecture
    /// and operating system.
    pub open spec fn spec_is_compatible_with(self, other: BinaryInfo) -> bool {
        self.arch == other.arch && self.os == other.os
    }

    /// Whether two payloads agree on architecture and operating system.
    pub fn is_compatible_with(&self, other: &BinaryInfo) -> (r: bool)
        ensures
            r == self.spec_is_compatible_with(*other),
    {
        self.arch == other.arch && self.os == other.os
    }

    /// Both the architecture and the operating system have stubs.
    pub open spec fn spec_is_supported(self) -> bool {
        self.arch.spec_is_supported() && self.os.spec_is_supported()
    }

    /// Whether both the architecture and the operating system have stubs.
    pub fn is_supported(&self) -> (r: bool)
        ensures
            r == self.spec_is_supported(),
    {
        self.arch.is_supported() && self.os.is_supported()
    }

    /// The description: architecture name, `" on "`, system name.
    pub open spec fn spec_description(self) -> Seq<char> {
        self.arch.spec_name() + " on "@ + self.os.spec_name()
    }

    /// Describe the payload, as in `x86-64 (64-bit) on Linux`.
    pub fn description(&self) -> (r: String)
        ensures
            r@ == self.spec_description(),
    {
        let mut s = String::from_str(self.arch.name());
        s.append(" on ");
        s.append(self.os.name());
        s
    }
}

} // verus!
