//! Plain request and response records exchanged with the service's
//! collaborators.

use vstd::prelude::*;

verus! {

/// Where the overload runs relative to the base.
#[derive(Debug, Clone, Copy, PartialEq, Eq, Structural)]
pub enum MergeMode {
    /// Overload runs before (alongside) the base.
    Before,
    /// Overload runs after the base.
    After,
}

impl Default for MergeMode {
    /// The mode assumed when a request names none.
    fn default() -> (m: MergeMode)
        ensures
            m == MergeMode::Before,
    {
        MergeMode::Before
    }
}

/// The lowercase wire names of the two modes: the UTF-8 bytes of
/// `before` and of `after`.
pub open spec fn spec_merge_mode_from_name(bytes: Seq<u8>) -> Option<MergeMode> {
    if bytes =~= seq![0x62u8, 0x65u8, 0x66u8, 0x6fu8, 0x72u8, 0x65u8] {
        Some(MergeMode::Before)
    } else if bytes =~= seq![0x61u8, 0x66u8, 0x74u8, 0x65u8, 0x72u8] {
        Some(MergeMode::After)
    } else {
        None
    }
}

impl MergeMode {
    /// Decode a mode from its lowercase wire name.
    pub fn from_name(bytes: &[u8]) -> (r: Option<MergeMode>)
        ensures
            r == spec_merge_mode_from_name(bytes@),
    {
        if bytes.len() == 6 && bytes[0] == 0x62 && bytes[1] == 0x65 && bytes[2] == 0x66
            && bytes[3] == 0x6f && bytes[4] == 0x72 && bytes[5] == 0x65 {
            proof {
                assert(bytes@ =~= seq![0x62u8, 0x65u8, 0x66u8, 0x6fu8, 0x72u8, 0x65u8]);
            }
            Some(MergeMode::Before)
        } else if bytes.len() == 5 && bytes[0] == 0x61 && bytes[1] == 0x66 && bytes[2] == 0x74
            && bytes[3] == 0x65 && bytes[4] == 0x72 {
            proof {
                assert(bytes@ =~= seq![0x61u8, 0x66u8, 0x74u8, 0x65u8, 0x72u8]);
            }
            Some(MergeMode::After)
        } else {
            None
        }
    }

    /// Under `Before` the overload is handed to the loader first and
    /// runs alongside (ahead of) the base; under `After` the base leads.
    pub fn overload_runs_first(&self) -> (r: bool)
        ensures
            r == (self == MergeMode::Before),
    {
        matches!(self, MergeMode::Before)
    }
}

/// Service liveness answer.
#[derive(Debug, Clone)]
pub struct HealthResponse {
    pub status: String,
    pub version: String,
    pub uptime: String,
}

/// Error answer handed back to a caller.
#[derive(Debug, Clone)]
pub struct ErrorResponse {
    pub error: String,
    pub details: Option<String>,
}

/// Answer for a completed merge.
#[derive(Debug, Clone)]
pub struct MergeResponse {
    pub success: bool,
    pub binary_id: String,
    pub size: u64,
    pub download_url: String,
    /// Seconds since the epoch at which the stored binary lapses.
    pub expires_at: i64,
    pub error: Option<String>,
}

} // verus!
