//! The launcher stub's decision logic: locating the footer in its own
//! image, slicing out the payloads, gating the base behind sync-mode
//! verification, and mapping child outcomes to the launcher's exit
//! code.
//!
//! The stub's runtime work — reading its own file, spawning children,
//! signalling, sleeping — happens outside this crate; every decision it
//! takes is a function here, verified over the values that runtime
//! hands in.

use crate::decimal::spec_udecimal;
use crate::footer::{ConfigFooter, FOOTER_SIZE, spec_magic};
use crate::health::spec_should_enable_health_monitoring;
use vstd::bytes::{
    spec_u32_from_le_bytes, spec_u32_to_le_bytes, spec_u64_from_le_bytes, spec_u64_to_le_bytes,
};
use vstd::prelude::*;
use vstd::slice::{slice_subrange, slice_to_vec};
use vstd::string::StringExecFns;

verus! {

/// Why the launcher aborted before the base ran to completion.
#[derive(Clone, Copy, Debug, PartialEq, Eq, Structural)]
pub enum LaunchError {
    /// The image's footer is missing, bears the wrong magic, or names
    /// payload ranges beyond the file.
    MalformedLauncher,
    /// A child process could not be created.
    ChildSpawnFailed,
    /// Sync mode: the overload exited with the recorded nonzero code.
    VerificationFailed { exit_code: i32 },
    /// Sync mode: the overload did not exit normally at all.
    VerificationAbnormal,
}

/// The payloads and configuration sliced out of a launcher image.
#[derive(Debug)]
pub struct LauncherPayloads {
    pub base: Vec<u8>,
    pub overload: Vec<u8>,
    pub config: ConfigFooter,
}

/// The last `FOOTER_SIZE` bytes of an image.
pub open spec fn spec_tail(image: Seq<u8>) -> Seq<u8> {
    image.subrange(image.len() - FOOTER_SIZE, image.len() as int)
}

/// The base payload offset recorded in an image's footer.
pub open spec fn spec_image_base_offset(image: Seq<u8>) -> int {
    spec_u64_from_le_bytes(spec_tail(image).subrange(8, 16)) as int
}

/// The base payload length recorded in an image's footer.
pub open spec fn spec_image_base_size(image: Seq<u8>) -> int {
    spec_u64_from_le_bytes(spec_tail(image).subrange(16, 24)) as int
}

/// The overload payload offset recorded in an image's footer.
pub open spec fn spec_image_overload_offset(image: Seq<u8>) -> int {
    spec_u64_from_le_bytes(spec_tail(image).subrange(24, 32)) as int
}

/// The overload payload length recorded in an image's footer.
pub open spec fn spec_image_overload_size(image: Seq<u8>) -> int {
    spec_u64_from_le_bytes(spec_tail(image).subrange(32, 40)) as int
}

/// The stub accepts its own image when the footer fits, bears the
/// magic, and both recorded payload ranges lie within the file.
pub open spec fn spec_launcher_accepted(image: Seq<u8>) -> bool {
    &&& image.len() >= FOOTER_SIZE
    &&& spec_tail(image).subrange(0, 8) == spec_magic()
    &&& spec_image_base_offset(image) + spec_image_base_size(image) <= image.len()
    &&& spec_image_overload_offset(image) + spec_image_overload_size(image) <= image.len()
}

/// The base payload bytes an accepted image carries.
pub open spec fn spec_image_base(image: Seq<u8>) -> Seq<u8> {
    image.subrange(
        spec_image_base_offset(image),
        spec_image_base_offset(image) + spec_image_base_size(image),
    )
}

/// The overload payload bytes an accepted image carries.
pub open spec fn spec_image_overload(image: Seq<u8>) -> Seq<u8> {
    image.subrange(
        spec_image_overload_offset(image),
        spec_image_overload_offset(image) + spec_image_overload_size(image),
    )
}

/// Slice a launcher image into its payloads and configuration.
/// Succeeds exactly on accepted images; everything else is a
/// malformed launcher.
pub fn parse_launcher(image: &[u8]) -> (r: Result<LauncherPayloads, LaunchError>)
    ensures
        r is Ok <==> spec_launcher_accepted(image@),
        r matches Ok(p) ==> {
            &&& p.config.spec_matches(spec_tail(image@))
            &&& p.config.spec_magic_ok()
            &&& p.base@ == spec_image_base(image@)
            &&& p.overload@ == spec_image_overload(image@)
        },
        r matches Err(e) ==> e == LaunchError::MalformedLauncher,
{
    let n = image.len();
    if n < FOOTER_SIZE {
        return Err(LaunchError::MalformedLauncher);
    }
    let tail = slice_subrange(image, n - FOOTER_SIZE, n);
    proof {
        assert(tail@ =~= spec_tail(image@));
    }
    let config = match ConfigFooter::parse(tail) {
        Some(f) => f,
        None => {
            return Err(LaunchError::MalformedLauncher);
        },
    };
    let n64 = n as u64;
    if config.base_offset > n64 || config.base_size > n64 - config.base_offset {
        return Err(LaunchError::MalformedLauncher);
    }
    if config.overload_offset > n64 || config.overload_size > n64 - config.overload_offset {
        return Err(LaunchError::MalformedLauncher);
    }
    let base = slice_to_vec(
        slice_subrange(
            image,
            config.base_offset as usize,
            (config.base_offset + config.base_size) as usize,
        ),
    );
    let overload = slice_to_vec(
        slice_subrange(
            image,
            config.overload_offset as usize,
            (config.overload_offset + config.overload_size) as usize,
        ),
    );
    Ok(LauncherPayloads { base, overload, config })
}

/// How a child process ended, as the stub's wait reported it.
#[derive(Clone, Copy, Debug, PartialEq, Eq, Structural)]
pub enum ChildOutcome {
    /// Normal exit with the given code.
    Exited(i32),
    /// Killed by the given signal.
    Signaled(i32),
    /// Anything else the wait reported.
    Other,
}

/// The launcher's exit code for the base child: its own exit code, or
/// -1 when it was killed by a signal or ended any other way.
pub open spec fn spec_base_exit_code(outcome: ChildOutcome) -> i32 {
    match outcome {
        ChildOutcome::Exited(code) => code,
        ChildOutcome::Signaled(_) => -1i32,
        ChildOutcome::Other => -1i32,
    }
}

/// Map the base child's outcome to the launcher's exit code.
pub fn base_exit_code(outcome: ChildOutcome) -> (code: i32)
    ensures
        code == spec_base_exit_code(outcome),
{
    match outcome {
        ChildOutcome::Exited(code) => code,
        ChildOutcome::Signaled(_) => -1,
        ChildOutcome::Other => -1,
    }
}

/// The sync-mode verification gate over the overload's outcome.
pub open spec fn spec_judge_overload(outcome: ChildOutcome) -> Result<(), LaunchError> {
    match outcome {
        ChildOutcome::Exited(code) => if code == 0 {
            Ok(())
        } else {
            Err(LaunchError::VerificationFailed { exit_code: code })
        },
        _ => Err(LaunchError::VerificationAbnormal),
    }
}

/// Judge the overload's exit under sync-mode verification: only a
/// normal exit with code 0 passes.
pub fn judge_overload(outcome: ChildOutcome) -> (r: Result<(), LaunchError>)
    ensures
        r == spec_judge_overload(outcome),
        r is Ok <==> outcome == ChildOutcome::Exited(0),
{
    match outcome {
        ChildOutcome::Exited(code) => {
            if code == 0 {
                Ok(())
            } else {
                Err(LaunchError::VerificationFailed { exit_code: code })
            }
        },
        _ => Err(LaunchError::VerificationAbnormal),
    }
}

/// Whether the base may start, given the mode and — in sync mode —
/// the overload's outcome.  Async mode never blocks the base on the
/// overload; sync mode demands a clean exit first.
pub open spec fn spec_overload_gate(sync_mode: bool, outcome: ChildOutcome) -> Result<
    (),
    LaunchError,
> {
    if sync_mode {
        spec_judge_overload(outcome)
    } else {
        Ok(())
    }
}

/// Gate the base launch on the overload, per the configured mode.
pub fn overload_gate(sync_mode: bool, outcome: ChildOutcome) -> (r: Result<(), LaunchError>)
    ensures
        r == spec_overload_gate(sync_mode, outcome),
        r is Ok <==> (!sync_mode || outcome == ChildOutcome::Exited(0)),
{
    if sync_mode {
        judge_overload(outcome)
    } else {
        Ok(())
    }
}

/// What the stub decides from its parsed configuration before any
/// child is spawned.
#[derive(Clone, Copy, Debug, PartialEq, Eq, Structural)]
pub struct LaunchPlan {
    /// The overload's exit gates the base.
    pub sync_mode: bool,
    /// A health region is created and its name published before the
    /// overload starts.
    pub health_region: bool,
}

/// The plan a footer dictates: sync mode from its flag byte, and a
/// health region exactly when async monitoring is wanted.
pub open spec fn spec_launch_plan(config: ConfigFooter) -> LaunchPlan {
    LaunchPlan {
        sync_mode: config.sync_mode != 0,
        health_region: spec_should_enable_health_monitoring(
            config.sync_mode != 0,
            config.grace_period,
            config.network_failure_kill_count,
        ),
    }
}

/// Read the launch plan off a parsed footer.
pub fn launch_plan(config: &ConfigFooter) -> (p: LaunchPlan)
    ensures
        p == spec_launch_plan(*config),
{
    let sync_mode = config.sync_mode != 0;
    LaunchPlan {
        sync_mode,
        health_region: crate::health::should_enable_health_monitoring(
            sync_mode,
            config.grace_period,
            config.network_failure_kill_count,
        ),
    }
}

/// What the stub does about the overload once the base has been
/// reaped.
#[derive(Clone, Copy, Debug, PartialEq, Eq, Structural)]
pub enum SiblingCleanup {
    /// An overload child is still on record: terminate it through the
    /// escalation protocol.
    TerminateOverload { pid: i32 },
    /// No overload child remains (sync mode already reaped it).
    NothingToClean,
}

/// The sibling-on-exit rule: whenever the base has ended, an overload
/// still on record is terminated, whatever the base's outcome was.
pub open spec fn spec_after_base_exit(overload_pid: Option<i32>) -> SiblingCleanup {
    match overload_pid {
        Some(pid) => SiblingCleanup::TerminateOverload { pid },
        None => SiblingCleanup::NothingToClean,
    }
}

/// Decide the cleanup owed to the overload after the base has ended.
pub fn after_base_exit(overload_pid: Option<i32>) -> (c: SiblingCleanup)
    ensures
        c == spec_after_base_exit(overload_pid),
{
    match overload_pid {
        Some(pid) => SiblingCleanup::TerminateOverload { pid },
        None => SiblingCleanup::NothingToClean,
    }
}

/// Name of the environment variable that hands the health region's
/// name to the overload.
pub fn health_env_var() -> (r: &'static str)
    ensures
        r@ == "KILLCODE_HEALTH_SHM"@,
{
    "KILLCODE_HEALTH_SHM"
}

/// POSIX name of the health region for the launcher with the given
/// process id.
pub fn posix_shm_name(pid: u32) -> (r: String)
    ensures
        r@ == "/overload_health_"@ + spec_udecimal(pid as nat),
{
    let mut s = String::from_str("/overload_health_");
    let digits = crate::decimal::u64_to_decimal(pid as u64);
    s.append(digits.as_str());
    s
}

/// Windows name of the health region for the launcher with the given
/// process id.
pub fn windows_shm_name(pid: u32) -> (r: String)
    ensures
        r@ == "Local\\OverloadHealth_"@ + spec_udecimal(pid as nat),
{
    let mut s = String::from_str("Local\\OverloadHealth_");
    let digits = crate::decimal::u64_to_decimal(pid as u64);
    s.append(digits.as_str());
    s
}

/// Every assembled launcher is accepted by the stub, and hands back
/// exactly what the assembler welded in: the footer sits in the last
/// `FOOTER_SIZE` bytes bearing the magic, the recorded ranges carry
/// the original base and overload bytes unchanged, and the policy
/// fields carry the values given to the assembler.
pub proof fn lemma_assembled_launcher_round_trip(
    stub: Seq<u8>,
    base: Seq<u8>,
    overload: Seq<u8>,
    grace_period: u32,
    sync_mode: bool,
    network_failure_kill_count: u32,
)
    requires
        stub.len() + base.len() + overload.len() + FOOTER_SIZE <= usize::MAX,
    ensures
        ({
            let img = crate::assemble::spec_assembled(
                stub,
                base,
                overload,
                grace_period,
                sync_mode,
                network_failure_kill_count,
            );
            &&& spec_launcher_accepted(img)
            &&& spec_image_base_offset(img) == stub.len()
            &&& spec_image_base_size(img) == base.len()
            &&& spec_image_overload_offset(img) == stub.len() + base.len()
            &&& spec_image_overload_size(img) == overload.len()
            &&& spec_image_base_offset(img) + spec_image_base_size(img)
                <= spec_image_overload_offset(img)
            &&& spec_image_overload_offset(img) + spec_image_overload_size(img) + FOOTER_SIZE
                == img.len()
            &&& spec_image_base(img) == base
            &&& spec_image_overload(img) == overload
            &&& spec_u32_from_le_bytes(spec_tail(img).subrange(40, 44)) == grace_period
            &&& spec_tail(img)[44] == (if sync_mode {
                1u8
            } else {
                0u8
            })
            &&& spec_u32_from_le_bytes(spec_tail(img).subrange(48, 52))
                == network_failure_kill_count
        }),
{
    vstd::bytes::lemma_auto_spec_u64_to_from_le_bytes();
    vstd::bytes::lemma_auto_spec_u32_to_from_le_bytes();
    let bo = stub.len() as u64;
    let bs = base.len() as u64;
    let osz = overload.len() as u64;
    let ft = crate::assemble::spec_footer_tail(
        bo,
        bs,
        osz,
        grace_period,
        sync_mode,
        network_failure_kill_count,
    );
    let img = crate::assemble::spec_assembled(
        stub,
        base,
        overload,
        grace_period,
        sync_mode,
        network_failure_kill_count,
    );
    assert(usize::MAX <= u64::MAX);
    assert(bo == stub.len());
    assert(bs == base.len());
    assert(osz == overload.len());
    assert((bo + bs) as u64 == stub.len() + base.len());
    assert(ft.len() == FOOTER_SIZE);
    assert(img.len() == stub.len() + base.len() + overload.len() + FOOTER_SIZE);
    assert(spec_tail(img) =~= ft);
    assert(ft.subrange(0, 8) =~= spec_magic());
    assert(ft.subrange(8, 16) =~= spec_u64_to_le_bytes(bo));
    assert(ft.subrange(16, 24) =~= spec_u64_to_le_bytes(bs));
    assert(ft.subrange(24, 32) =~= spec_u64_to_le_bytes((bo + bs) as u64));
    assert(ft.subrange(32, 40) =~= spec_u64_to_le_bytes(osz));
    assert(ft.subrange(40, 44) =~= spec_u32_to_le_bytes(grace_period));
    assert(ft.subrange(48, 52) =~= spec_u32_to_le_bytes(network_failure_kill_count));
    assert(spec_image_base(img) =~= base);
    assert(spec_image_overload(img) =~= overload);
}

/// In sync mode, an overload that does not exit cleanly keeps the base
/// from ever being spawned, and the launcher aborts with the recorded
/// failure.
pub proof fn lemma_sync_gate_blocks_base(outcome: ChildOutcome)
    requires
        outcome != ChildOutcome::Exited(0),
    ensures
        spec_overload_gate(true, outcome) is Err,
        outcome matches ChildOutcome::Exited(code) ==> spec_overload_gate(true, outcome) == Err::<
            (),
            LaunchError,
        >(LaunchError::VerificationFailed { exit_code: code }),
{
}

/// A base killed by a signal surfaces as launcher exit code -1, and a
/// still-recorded overload is terminated all the same.
pub proof fn lemma_signal_death_exit_code(signal: i32, overload_pid: i32)
    ensures
        spec_base_exit_code(ChildOutcome::Signaled(signal)) == -1,
        spec_after_base_exit(Some(overload_pid)) == (SiblingCleanup::TerminateOverload {
            pid: overload_pid,
        }),
{
}

} // verus!
