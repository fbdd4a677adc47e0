//! The configuration footer: the fixed-layout record appended to every
//! assembled launcher.
//!
//! All integer fields are little-endian at fixed offsets; the record is
//! padded to 56 bytes so that the layout matches a C-compatible struct
//! with natural alignment.  The footer always sits in the last 56 bytes
//! of a launcher image and opens with the magic tag `KILLCODE`.

use vstd::bytes::*;
use vstd::prelude::*;
use vstd::slice::slice_subrange;

verus! {

/// Byte length of the encoded footer, padding included.
pub const FOOTER_SIZE: usize = 56;

/// The eight magic bytes, spelling `KILLCODE` in ASCII.
pub open spec fn spec_magic() -> Seq<u8> {
    seq![0x4bu8, 0x49u8, 0x4cu8, 0x4cu8, 0x43u8, 0x4fu8, 0x44u8, 0x45u8]
}

/// The magic tag as an owned array.
pub fn magic_bytes() -> (m: [u8; 8])
    ensures
        m@ == spec_magic(),
{
    let m: [u8; 8] = [0x4bu8, 0x49u8, 0x4cu8, 0x4cu8, 0x43u8, 0x4fu8, 0x44u8, 0x45u8];
    proof {
        assert(m@ =~= spec_magic());
    }
    m
}

/// The trailer welded onto every assembled launcher.
#[derive(Clone, Copy, Debug)]
pub struct ConfigFooter {
    /// Magic tag; must spell `KILLCODE`.
    pub magic: [u8; 8],
    /// Byte offset of the base payload in the launcher image.
    pub base_offset: u64,
    /// Byte length of the base payload.
    pub base_size: u64,
    /// Byte offset of the overload payload in the launcher image.
    pub overload_offset: u64,
    /// Byte length of the overload payload.
    pub overload_size: u64,
    /// Seconds of overload silence tolerated; 0 disables the check.
    pub grace_period: u32,
    /// 0 for async supervision, 1 for the sync verification gate.
    pub sync_mode: u8,
    /// Consecutive-failure threshold; 0 disables the check.
    pub network_failure_kill_count: u32,
}

impl ConfigFooter {
    /// The encoded form: magic, four u64 fields, `grace_period`,
    /// `sync_mode` with three padding bytes, and
    /// `network_failure_kill_count` with four trailing padding bytes.
    pub open spec fn spec_bytes(self) -> Seq<u8> {
        self.magic@ + spec_u64_to_le_bytes(self.base_offset) + spec_u64_to_le_bytes(self.base_size)
            + spec_u64_to_le_bytes(self.overload_offset) + spec_u64_to_le_bytes(self.overload_size)
            + spec_u32_to_le_bytes(self.grace_period) + seq![self.sync_mode, 0u8, 0u8, 0u8]
            + spec_u32_to_le_bytes(self.network_failure_kill_count) + seq![0u8, 0u8, 0u8, 0u8]
    }

    /// The footer's own well-formedness: the magic tag is present.
    pub open spec fn spec_magic_ok(self) -> bool {
        self.magic@ == spec_magic()
    }

    /// `f` holds exactly the fields encoded in the 56-byte record `s`.
    pub open spec fn spec_matches(self, s: Seq<u8>) -> bool {
        &&& self.magic@ == s.subrange(0, 8)
        &&& self.base_offset == spec_u64_from_le_bytes(s.subrange(8, 16))
        &&& self.base_size == spec_u64_from_le_bytes(s.subrange(16, 24))
        &&& self.overload_offset == spec_u64_from_le_bytes(s.subrange(24, 32))
        &&& self.overload_size == spec_u64_from_le_bytes(s.subrange(32, 40))
        &&& self.grace_period == spec_u32_from_le_bytes(s.subrange(40, 44))
        &&& self.sync_mode == s[44]
        &&& self.network_failure_kill_count == spec_u32_from_le_bytes(s.subrange(48, 52))
    }

    /// A 56-byte record is accepted when it opens with the magic tag.
    pub open spec fn spec_record_accepted(s: Seq<u8>) -> bool {
        s.len() == FOOTER_SIZE && s.subrange(0, 8) == spec_magic()
    }

    /// Build the footer for a launcher whose payloads sit at the given
    /// offsets, carrying the three policy values.
    pub fn for_layout(
        base_offset: u64,
        base_size: u64,
        overload_offset: u64,
        overload_size: u64,
        grace_period: u32,
        sync_mode: bool,
        network_failure_kill_count: u32,
    ) -> (f: ConfigFooter)
        ensures
            f.spec_magic_ok(),
            f.base_offset == base_offset,
            f.base_size == base_size,
            f.overload_offset == overload_offset,
            f.overload_size == overload_size,
            f.grace_period == grace_period,
            f.sync_mode == (if sync_mode { 1u8 } else { 0u8 }),
            f.network_failure_kill_count == network_failure_kill_count,
    {
        ConfigFooter {
            magic: magic_bytes(),
            base_offset,
            base_size,
            overload_offset,
            overload_size,
            grace_period,
            sync_mode: if sync_mode { 1 } else { 0 },
            network_failure_kill_count,
        }
    }

    /// Encode the footer into its 56-byte record.
    pub fn to_bytes(&self) -> (out: Vec<u8>)
        ensures
            out@ == self.spec_bytes(),
            out@.len() == FOOTER_SIZE,
    {
        let mut out: Vec<u8> = Vec::new();
        out.push(self.magic[0]);
        out.push(self.magic[1]);
        out.push(self.magic[2]);
        out.push(self.magic[3]);
        out.push(self.magic[4]);
        out.push(self.magic[5]);
        out.push(self.magic[6]);
        out.push(self.magic[7]);
        proof {
            assert(out@ =~= self.magic@);
        }
        let bo = u64_to_le_bytes(self.base_offset);
        out.extend_from_slice(bo.as_slice());
        let bs = u64_to_le_bytes(self.base_size);
        out.extend_from_slice(bs.as_slice());
        let oo = u64_to_le_bytes(self.overload_offset);
        out.extend_from_slice(oo.as_slice());
        let os = u64_to_le_bytes(self.overload_size);
        out.extend_from_slice(os.as_slice());
        let gp = u32_to_le_bytes(self.grace_period);
        out.extend_from_slice(gp.as_slice());
        out.push(self.sync_mode);
        out.push(0);
        out.push(0);
        out.push(0);
        let nf = u32_to_le_bytes(self.network_failure_kill_count);
        out.extend_from_slice(nf.as_slice());
        out.push(0);
        out.push(0);
        out.push(0);
        out.push(0);
        proof {
            assert(out@ =~= self.spec_bytes());
        }
        out
    }

    /// Decode a 56-byte record.  Returns the footer exactly when the
    /// record has the right length and opens with the magic tag.
    pub fn parse(record: &[u8]) -> (r: Option<ConfigFooter>)
        ensures
            r is Some <==> Self::spec_record_accepted(record@),
            r matches Some(f) ==> f.spec_matches(record@) && f.spec_magic_ok(),
    {
        if record.len() != FOOTER_SIZE {
            return None;
        }
        let magic = magic_bytes();
        let mut i: usize = 0;
        while i < 8
            invariant
                i <= 8,
                record@.len() == FOOTER_SIZE,
                magic@ == spec_magic(),
                forall|j: int| 0 <= j < i ==> record@[j] == spec_magic()[j],
            decreases 8 - i,
        {
            if record[i] != magic[i] {
                proof {
                    assert(record@.subrange(0, 8)[i as int] != spec_magic()[i as int]);
                }
                return None;
            }
            i = i + 1;
        }
        proof {
            assert(record@.subrange(0, 8) =~= spec_magic());
        }
        let f = ConfigFooter {
            magic,
            base_offset: u64_from_le_bytes(slice_subrange(record, 8, 16)),
            base_size: u64_from_le_bytes(slice_subrange(record, 16, 24)),
            overload_offset: u64_from_le_bytes(slice_subrange(record, 24, 32)),
            overload_size: u64_from_le_bytes(slice_subrange(record, 32, 40)),
            grace_period: u32_from_le_bytes(slice_subrange(record, 40, 44)),
            sync_mode: record[44],
            network_failure_kill_count: u32_from_le_bytes(slice_subrange(record, 48, 52)),
        };
        Some(f)
    }
}

/// Encoding then decoding a footer recovers every field: the record
/// built from `f` is accepted, and any footer matching that record
/// carries `f`'s fields.
pub proof fn lemma_footer_round_trip(f: ConfigFooter)
    requires
        f.spec_magic_ok(),
    ensures
        ConfigFooter::spec_record_accepted(f.spec_bytes()),
        forall|g: ConfigFooter|
            #[trigger] g.spec_matches(f.spec_bytes()) ==> {
                &&& g.magic@ == f.magic@
                &&& g.base_offset == f.base_offset
                &&& g.base_size == f.base_size
                &&& g.overload_offset == f.overload_offset
                &&& g.overload_size == f.overload_size
                &&& g.grace_period == f.grace_period
                &&& g.sync_mode == f.sync_mode
                &&& g.network_failure_kill_count == f.network_failure_kill_count
            },
{
    lemma_auto_spec_u64_to_from_le_bytes();
    lemma_auto_spec_u32_to_from_le_bytes();
    let s = f.spec_bytes();
    assert(s.subrange(0, 8) =~= f.magic@);
    assert(s.subrange(8, 16) =~= spec_u64_to_le_bytes(f.base_offset));
    assert(s.subrange(16, 24) =~= spec_u64_to_le_bytes(f.base_size));
    assert(s.subrange(24, 32) =~= spec_u64_to_le_bytes(f.overload_offset));
    assert(s.subrange(32, 40) =~= spec_u64_to_le_bytes(f.overload_size));
    assert(s.subrange(40, 44) =~= spec_u32_to_le_bytes(f.grace_period));
    assert(s[44] == f.sync_mode);
    assert(s.subrange(48, 52) =~= spec_u32_to_le_bytes(f.network_failure_kill_count));
}

} // verus!
