//! The binary assembler: weld a prebuilt stub, two payloads and a
//! configuration footer into one launchable image.
//!
//! The output is the plain concatenation `stub || base || overload ||
//! footer`, with the footer recording where each payload sits.  The
//! stub is chosen from a catalog keyed by the payloads' operating
//! system and architecture, and assembly is refused when the payloads
//! cannot be identified, disagree with each other, or name a platform
//! the catalog has no stub for.

use crate::arch::{spec_detect_arch, Architecture};
use crate::binary_info::{spec_detect_info, BinaryInfo};
use crate::footer::{ConfigFooter, FOOTER_SIZE, spec_magic};
use crate::os::{spec_detect_os, OperatingSystem};
use vstd::bytes::{spec_u32_to_le_bytes, spec_u64_to_le_bytes};
use vstd::prelude::*;

verus! {

/// Why the assembler refused a pair of payloads.
#[derive(Clone, Copy, Debug, PartialEq, Eq, Structural)]
pub enum MergeError {
    /// A payload's header could not be identified at all.
    MalformedPayload,
    /// The payloads disagree on architecture or operating system.
    IncompatiblePayloads,
    /// No stub is available for the payloads' platform.
    UnsupportedPlatform,
}

/// The prebuilt stub images, one per supported platform pair.
pub struct StubCatalog {
    pub linux_x86: Vec<u8>,
    pub linux_x86_64: Vec<u8>,
    pub linux_aarch64: Vec<u8>,
    pub windows_x86: Vec<u8>,
    pub windows_x86_64: Vec<u8>,
    pub windows_aarch64: Vec<u8>,
    pub macos_x86_64: Vec<u8>,
    pub macos_aarch64: Vec<u8>,
}

impl StubCatalog {
    /// The stub the catalog holds for a platform pair, if any.
    pub open spec fn spec_stub_for(self, os: OperatingSystem, arch: Architecture) -> Option<
        Seq<u8>,
    > {
        if os == OperatingSystem::Linux && arch == Architecture::X86 {
            Some(self.linux_x86@)
        } else if os == OperatingSystem::Linux && arch == Architecture::X86_64 {
            Some(self.linux_x86_64@)
        } else if os == OperatingSystem::Linux && arch == Architecture::AArch64 {
            Some(self.linux_aarch64@)
        } else if os == OperatingSystem::Windows && arch == Architecture::X86 {
            Some(self.windows_x86@)
        } else if os == OperatingSystem::Windows && arch == Architecture::X86_64 {
            Some(self.windows_x86_64@)
        } else if os == OperatingSystem::Windows && arch == Architecture::AArch64 {
            Some(self.windows_aarch64@)
        } else if os == OperatingSystem::MacOS && arch == Architecture::X86_64 {
            Some(self.macos_x86_64@)
        } else if os == OperatingSystem::MacOS && arch == Architecture::AArch64 {
            Some(self.macos_aarch64@)
        } else {
            None
        }
    }

    /// A usable stub exists for the pair: present and not empty.
    pub open spec fn spec_has_stub(self, os: OperatingSystem, arch: Architecture) -> bool {
        match self.spec_stub_for(os, arch) {
            Some(s) => s.len() > 0,
            None => false,
        }
    }

    /// Every stub in the catalog leaves room for payloads of the given
    /// combined length within `usize`.
    pub open spec fn spec_fits(self, payload_len: int) -> bool {
        &&& self.linux_x86@.len() + payload_len <= usize::MAX
        &&& self.linux_x86_64@.len() + payload_len <= usize::MAX
        &&& self.linux_aarch64@.len() + payload_len <= usize::MAX
        &&& self.windows_x86@.len() + payload_len <= usize::MAX
        &&& self.windows_x86_64@.len() + payload_len <= usize::MAX
        &&& self.windows_aarch64@.len() + payload_len <= usize::MAX
        &&& self.macos_x86_64@.len() + payload_len <= usize::MAX
        &&& self.macos_aarch64@.len() + payload_len <= usize::MAX
    }

    /// Look up the stub for a platform pair.
    pub fn stub_for(&self, os: OperatingSystem, arch: Architecture) -> (r: Option<&Vec<u8>>)
        ensures
            r matches Some(v) ==> self.spec_stub_for(os, arch) == Some(v@),
            r is Some <==> self.spec_stub_for(os, arch) is Some,
    {
        if os == OperatingSystem::Linux && arch == Architecture::X86 {
            Some(&self.linux_x86)
        } else if os == OperatingSystem::Linux && arch == Architecture::X86_64 {
            Some(&self.linux_x86_64)
        } else if os == OperatingSystem::Linux && arch == Architecture::AArch64 {
            Some(&self.linux_aarch64)
        } else if os == OperatingSystem::Windows && arch == Architecture::X86 {
            Some(&self.windows_x86)
        } else if os == OperatingSystem::Windows && arch == Architecture::X86_64 {
            Some(&self.windows_x86_64)
        } else if os == OperatingSystem::Windows && arch == Architecture::AArch64 {
            Some(&self.windows_aarch64)
        } else if os == OperatingSystem::MacOS && arch == Architecture::X86_64 {
            Some(&self.macos_x86_64)
        } else if os == OperatingSystem::MacOS && arch == Architecture::AArch64 {
            Some(&self.macos_aarch64)
        } else {
            None
        }
    }
}

/// The footer record an assembled launcher carries for the given stub
/// and payload lengths and policy values.
pub open spec fn spec_footer_tail(
    base_offset: u64,
    base_size: u64,
    overload_size: u64,
    grace_period: u32,
    sync_mode: bool,
    network_failure_kill_count: u32,
) -> Seq<u8> {
    spec_magic() + spec_u64_to_le_bytes(base_offset) + spec_u64_to_le_bytes(base_size)
        + spec_u64_to_le_bytes((base_offset + base_size) as u64) + spec_u64_to_le_bytes(
        overload_size,
    ) + spec_u32_to_le_bytes(grace_period) + seq![
        (if sync_mode {
            1u8
        } else {
            0u8
        }),
        0u8,
        0u8,
        0u8,
    ] + spec_u32_to_le_bytes(network_failure_kill_count) + seq![0u8, 0u8, 0u8, 0u8]
}

/// The complete assembled launcher image for the given parts.
pub open spec fn spec_assembled(
    stub: Seq<u8>,
    base: Seq<u8>,
    overload: Seq<u8>,
    grace_period: u32,
    sync_mode: bool,
    network_failure_kill_count: u32,
) -> Seq<u8> {
    stub + base + overload + spec_footer_tail(
        stub.len() as u64,
        base.len() as u64,
        overload.len() as u64,
        grace_period,
        sync_mode,
        network_failure_kill_count,
    )
}

/// Concatenate stub, payloads and footer into one launcher image.
pub fn assemble_launcher(
    stub: &[u8],
    base: &[u8],
    overload: &[u8],
    grace_period: u32,
    sync_mode: bool,
    network_failure_kill_count: u32,
) -> (out: Vec<u8>)
    requires
        stub@.len() + base@.len() + overload@.len() + FOOTER_SIZE <= usize::MAX,
    ensures
        out@ == spec_assembled(
            stub@,
            base@,
            overload@,
            grace_period,
            sync_mode,
            network_failure_kill_count,
        ),
        out@.len() == stub@.len() + base@.len() + overload@.len() + FOOTER_SIZE,
{
    let base_offset = stub.len() as u64;
    let base_size = base.len() as u64;
    let overload_offset = base_offset + base_size;
    let overload_size = overload.len() as u64;
    let footer = ConfigFooter::for_layout(
        base_offset,
        base_size,
        overload_offset,
        overload_size,
        grace_period,
        sync_mode,
        network_failure_kill_count,
    );
    let footer_bytes = footer.to_bytes();
    let mut out: Vec<u8> = Vec::new();
    out.extend_from_slice(stub);
    out.extend_from_slice(base);
    out.extend_from_slice(overload);
    out.extend_from_slice(footer_bytes.as_slice());
    proof {
        assert(footer.spec_bytes() =~= spec_footer_tail(
            base_offset,
            base_size,
            overload_size,
            grace_period,
            sync_mode,
            network_failure_kill_count,
        ));
        assert(out@ =~= spec_assembled(
            stub@,
            base@,
            overload@,
            grace_period,
            sync_mode,
            network_failure_kill_count,
        ));
    }
    out
}

/// A payload whose format dispatch failed entirely.
pub open spec fn spec_payload_malformed(s: Seq<u8>) -> bool {
    spec_detect_os(s) == OperatingSystem::Unknown
}

/// The stub the assembler would pick for this pair of payloads.
pub open spec fn spec_selected_stub(catalog: StubCatalog, base: Seq<u8>) -> Option<Seq<u8>> {
    catalog.spec_stub_for(spec_detect_os(base), spec_detect_arch(base))
}

/// Each refusal surfaces as its own error: an unidentifiable payload
/// as `MalformedPayload`, then disagreeing payloads as
/// `IncompatiblePayloads`, then a platform without a usable stub as
/// `UnsupportedPlatform`.  Every assembler entry point answers this
/// way.
pub open spec fn spec_merge_errors_exact(
    r: Result<Vec<u8>, MergeError>,
    catalog: StubCatalog,
    base: Seq<u8>,
    overload: Seq<u8>,
) -> bool {
    &&& (r == Err::<Vec<u8>, MergeError>(MergeError::MalformedPayload) <==> (
    spec_payload_malformed(base) || spec_payload_malformed(overload)))
    &&& (r == Err::<Vec<u8>, MergeError>(MergeError::IncompatiblePayloads) <==> {
        &&& !spec_payload_malformed(base)
        &&& !spec_payload_malformed(overload)
        &&& !spec_detect_info(base).spec_is_compatible_with(spec_detect_info(overload))
    })
    &&& (r == Err::<Vec<u8>, MergeError>(MergeError::UnsupportedPlatform) <==> {
        &&& !spec_payload_malformed(base)
        &&& !spec_payload_malformed(overload)
        &&& spec_detect_info(base).spec_is_compatible_with(spec_detect_info(overload))
        &&& !catalog.spec_has_stub(spec_detect_os(base), spec_detect_arch(base))
    })
}

/// Identify both payloads, validate them, pick the stub, and assemble
/// the launcher with the given policy values.
pub fn merge_v2(
    catalog: &StubCatalog,
    base_data: &[u8],
    overload_data: &[u8],
    grace_period: u32,
    sync_mode: bool,
    network_failure_kill_count: u32,
) -> (r: Result<Vec<u8>, MergeError>)
    requires
        catalog.spec_fits(base_data@.len() + overload_data@.len() + FOOTER_SIZE),
    ensures
        spec_merge_errors_exact(r, *catalog, base_data@, overload_data@),
        r matches Ok(v) ==> {
            &&& catalog.spec_has_stub(spec_detect_os(base_data@), spec_detect_arch(base_data@))
            &&& spec_selected_stub(*catalog, base_data@) matches Some(stub) && v@
                == spec_assembled(
                stub,
                base_data@,
                overload_data@,
                grace_period,
                sync_mode,
                network_failure_kill_count,
            )
        },
        r is Err <==> merge_refused(*catalog, base_data@, overload_data@),
{
    let base_info = BinaryInfo::detect(base_data);
    let overload_info = BinaryInfo::detect(overload_data);
    if matches!(base_info.os, OperatingSystem::Unknown) || matches!(
        overload_info.os,
        OperatingSystem::Unknown,
    ) {
        return Err(MergeError::MalformedPayload);
    }
    if !base_info.is_compatible_with(&overload_info) {
        return Err(MergeError::IncompatiblePayloads);
    }
    let stub = match catalog.stub_for(base_info.os, base_info.arch) {
        Some(stub) => stub,
        None => {
            return Err(MergeError::UnsupportedPlatform);
        },
    };
    if stub.len() == 0 {
        return Err(MergeError::UnsupportedPlatform);
    }
    Ok(
        assemble_launcher(
            stub.as_slice(),
            base_data,
            overload_data,
            grace_period,
            sync_mode,
            network_failure_kill_count,
        ),
    )
}

/// Assemble with supervision policies switched off, as the plain merge
/// entry point does.
pub fn merge_binaries(
    catalog: &StubCatalog,
    base_data: &[u8],
    overload_data: &[u8],
    sync_mode: bool,
) -> (r: Result<Vec<u8>, MergeError>)
    requires
        catalog.spec_fits(base_data@.len() + overload_data@.len() + FOOTER_SIZE),
    ensures
        r matches Ok(v) ==> spec_selected_stub(*catalog, base_data@) matches Some(stub) && v@
            == spec_assembled(stub, base_data@, overload_data@, 0u32, sync_mode, 0u32),
        r is Err <==> merge_refused(*catalog, base_data@, overload_data@),
        spec_merge_errors_exact(r, *catalog, base_data@, overload_data@),
{
    merge_v2(catalog, base_data, overload_data, 0, sync_mode, 0)
}

/// Assembly is deterministic: two launchers assembled from identical
/// stubs, payloads and policy values are byte-identical.
pub proof fn lemma_assemble_idempotent(
    stub: Seq<u8>,
    base: Seq<u8>,
    overload: Seq<u8>,
    grace_period: u32,
    sync_mode: bool,
    network_failure_kill_count: u32,
    first: Seq<u8>,
    second: Seq<u8>,
)
    requires
        first == spec_assembled(
            stub,
            base,
            overload,
            grace_period,
            sync_mode,
            network_failure_kill_count,
        ),
        second == spec_assembled(
            stub,
            base,
            overload,
            grace_period,
            sync_mode,
            network_failure_kill_count,
        ),
    ensures
        first == second,
{
}

/// The assembler turns a pair of payloads away: one is malformed, they
/// are incompatible, or no usable stub exists for their platform.
pub open spec fn merge_refused(catalog: StubCatalog, base: Seq<u8>, overload: Seq<u8>) -> bool {
    ||| spec_payload_malformed(base)
    ||| spec_payload_malformed(overload)
    ||| !spec_detect_info(base).spec_is_compatible_with(spec_detect_info(overload))
    ||| !catalog.spec_has_stub(spec_detect_os(base), spec_detect_arch(base))
}

/// Assemble with explicit policy values; the stop-on-exit entry point
/// with supervision parameters.
pub fn merge_v2_stop_on_exit(
    catalog: &StubCatalog,
    base_data: &[u8],
    overload_data: &[u8],
    grace_period: u32,
    sync_mode: bool,
    network_failure_kill_count: u32,
) -> (r: Result<Vec<u8>, MergeError>)
    requires
        catalog.spec_fits(base_data@.len() + overload_data@.len() + FOOTER_SIZE),
    ensures
        r matches Ok(v) ==> spec_selected_stub(*catalog, base_data@) matches Some(stub) && v@
            == spec_assembled(
            stub,
            base_data@,
            overload_data@,
            grace_period,
            sync_mode,
            network_failure_kill_count,
        ),
        r is Err <==> merge_refused(*catalog, base_data@, overload_data@),
        spec_merge_errors_exact(r, *catalog, base_data@, overload_data@),
{
    merge_v2(
        catalog,
        base_data,
        overload_data,
        grace_period,
        sync_mode,
        network_failure_kill_count,
    )
}

/// Assemble with every policy switched off, as the stop-on-exit entry
/// point without parameters does.
pub fn merge_stop_on_exit(
    catalog: &StubCatalog,
    base_data: &[u8],
    overload_data: &[u8],
) -> (r: Result<Vec<u8>, MergeError>)
    requires
        catalog.spec_fits(base_data@.len() + overload_data@.len() + FOOTER_SIZE),
    ensures
        r matches Ok(v) ==> spec_selected_stub(*catalog, base_data@) matches Some(stub) && v@
            == spec_assembled(stub, base_data@, overload_data@, 0u32, false, 0u32),
        r is Err <==> merge_refused(*catalog, base_data@, overload_data@),
        spec_merge_errors_exact(r, *catalog, base_data@, overload_data@),
{
    merge_v2(catalog, base_data, overload_data, 0, false, 0)
}

} // verus!
