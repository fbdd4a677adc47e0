//! Shared header inspection for the three executable image formats.
//!
//! Identification reads only the leading bytes: the ELF identification
//! block through `e_machine`, the PE signature reached through the DOS
//! header's `e_lfanew` field, and the Mach-O magic with its `cputype`
//! word.  Multi-byte fields honour the byte order that the header
//! itself declares.

use crate::bytefield::{
    read_u16, read_u16_le, read_u32, read_u32_be, read_u32_le, spec_u16_at, spec_u16_le_at,
    spec_u32_at, spec_u32_be_at, spec_u32_le_at,
};
use vstd::prelude::*;

verus! {

/// The buffer opens with the ELF magic `\x7fELF`.
pub open spec fn spec_has_elf_magic(s: Seq<u8>) -> bool {
    s.len() >= 4 && s[0] == 0x7fu8 && s[1] == 0x45u8 && s[2] == 0x4cu8 && s[3] == 0x46u8
}

/// Enough of an ELF header is present to read class, data encoding,
/// OS/ABI tag and machine type.
pub open spec fn spec_elf_header_ok(s: Seq<u8>) -> bool {
    spec_has_elf_magic(s) && s.len() >= 0x14
}

/// ELF class byte says the file is 64-bit.
pub open spec fn spec_elf_is_64(s: Seq<u8>) -> bool {
    s[4] == 2u8
}

/// ELF data-encoding byte says fields are big-endian.
pub open spec fn spec_elf_big_endian(s: Seq<u8>) -> bool {
    s[5] == 2u8
}

/// The `e_ident[EI_OSABI]` tag.
pub open spec fn spec_elf_osabi(s: Seq<u8>) -> u8 {
    s[7]
}

/// The `e_machine` field, read in the header's own byte order.
pub open spec fn spec_elf_machine(s: Seq<u8>) -> int {
    spec_u16_at(s, 0x12, spec_elf_big_endian(s))
}

/// The buffer opens with the DOS magic `MZ`.
pub open spec fn spec_has_mz_magic(s: Seq<u8>) -> bool {
    s.len() >= 2 && s[0] == 0x4du8 && s[1] == 0x5au8
}

/// Offset of the PE signature, from the DOS header's `e_lfanew` field.
pub open spec fn spec_pe_sig_offset(s: Seq<u8>) -> int {
    spec_u32_le_at(s, 0x3c)
}

/// A PE image: `MZ`, a readable `e_lfanew`, and the `PE\0\0`
/// signature followed by a readable COFF machine field.
pub open spec fn spec_pe_header_ok(s: Seq<u8>) -> bool {
    &&& spec_has_mz_magic(s)
    &&& s.len() >= 0x40
    &&& spec_pe_sig_offset(s) + 6 <= s.len()
    &&& s[spec_pe_sig_offset(s)] == 0x50u8
    &&& s[spec_pe_sig_offset(s) + 1] == 0x45u8
    &&& s[spec_pe_sig_offset(s) + 2] == 0u8
    &&& s[spec_pe_sig_offset(s) + 3] == 0u8
}

/// The COFF machine field of a PE image.
pub open spec fn spec_pe_machine(s: Seq<u8>) -> int {
    spec_u16_le_at(s, spec_pe_sig_offset(s) + 4)
}

/// Thin Mach-O magic stored in the header's own byte order.
pub open spec fn spec_macho_thin_magic(s: Seq<u8>) -> bool {
    s.len() >= 4 && {
        let m = spec_u32_le_at(s, 0);
        m == 0xfeedface || m == 0xfeedfacf || m == 0xcefaedfe || m == 0xcffaedfe
    }
}

/// Fields of a thin Mach-O header are byte-swapped relative to the host
/// order when the stored magic reads back swapped.
pub open spec fn spec_macho_swapped(s: Seq<u8>) -> bool {
    spec_u32_le_at(s, 0) == 0xcefaedfe || spec_u32_le_at(s, 0) == 0xcffaedfe
}

/// Fat (universal) Mach-O magic, in either byte order.
pub open spec fn spec_macho_fat_magic(s: Seq<u8>) -> bool {
    s.len() >= 4 && {
        let m = spec_u32_be_at(s, 0);
        m == 0xcafebabe || m == 0xbebafeca
    }
}

/// Any Mach-O image, thin or fat.
pub open spec fn spec_is_macho(s: Seq<u8>) -> bool {
    spec_macho_thin_magic(s) || spec_macho_fat_magic(s)
}

/// A thin Mach-O header with a readable `cputype` word.
pub open spec fn spec_macho_header_ok(s: Seq<u8>) -> bool {
    spec_macho_thin_magic(s) && s.len() >= 8
}

/// The `cputype` word of a thin Mach-O header.
pub open spec fn spec_macho_cputype(s: Seq<u8>) -> int {
    spec_u32_at(s, 4, spec_macho_swapped(s))
}

/// Check for the ELF magic.
pub fn has_elf_magic(data: &[u8]) -> (r: bool)
    ensures
        r == spec_has_elf_magic(data@),
{
    data.len() >= 4 && data[0] == 0x7f && data[1] == 0x45 && data[2] == 0x4c && data[3] == 0x46
}

/// Check that the ELF identification block and machine field are readable.
pub fn elf_header_ok(data: &[u8]) -> (r: bool)
    ensures
        r == spec_elf_header_ok(data@),
{
    has_elf_magic(data) && data.len() >= 0x14
}

/// Read the ELF class byte's 64-bit flag.
pub fn elf_is_64(data: &[u8]) -> (r: bool)
    requires
        spec_elf_header_ok(data@),
    ensures
        r == spec_elf_is_64(data@),
{
    data[4] == 2
}

/// Read the `e_ident[EI_OSABI]` tag.
pub fn elf_osabi(data: &[u8]) -> (r: u8)
    requires
        spec_elf_header_ok(data@),
    ensures
        r == spec_elf_osabi(data@),
{
    data[7]
}

/// Read the `e_machine` field in the header's own byte order.
pub fn elf_machine(data: &[u8]) -> (r: u16)
    requires
        spec_elf_header_ok(data@),
    ensures
        r == spec_elf_machine(data@),
{
    let big_endian = data[5] == 2;
    read_u16(data, 0x12, big_endian)
}

/// Check for the DOS magic.
pub fn has_mz_magic(data: &[u8]) -> (r: bool)
    ensures
        r == spec_has_mz_magic(data@),
{
    data.len() >= 2 && data[0] == 0x4d && data[1] == 0x5a
}

/// Check for a complete PE signature and machine field.
pub fn pe_header_ok(data: &[u8]) -> (r: bool)
    ensures
        r == spec_pe_header_ok(data@),
{
    if !(has_mz_magic(data) && data.len() >= 0x40) {
        return false;
    }
    let e = read_u32_le(data, 0x3c);
    if !((e as u64) + 6 <= data.len() as u64) {
        return false;
    }
    let e = e as usize;
    data[e] == 0x50 && data[e + 1] == 0x45 && data[e + 2] == 0 && data[e + 3] == 0
}

/// Read the COFF machine field of a PE image.
pub fn pe_machine(data: &[u8]) -> (r: u16)
    requires
        spec_pe_header_ok(data@),
    ensures
        r == spec_pe_machine(data@),
{
    let e = read_u32_le(data, 0x3c);
    let n = data.len();
    proof {
        assert(e + 6 <= n);
    }
    read_u16_le(data, (e as usize) + 4)
}

/// Check for a thin Mach-O magic.
pub fn macho_thin_magic(data: &[u8]) -> (r: bool)
    ensures
        r == spec_macho_thin_magic(data@),
{
    if data.len() < 4 {
        return false;
    }
    let m = read_u32_le(data, 0);
    m == 0xfeedface || m == 0xfeedfacf || m == 0xcefaedfe || m == 0xcffaedfe
}

/// Check for a fat Mach-O magic.
pub fn macho_fat_magic(data: &[u8]) -> (r: bool)
    ensures
        r == spec_macho_fat_magic(data@),
{
    if data.len() < 4 {
        return false;
    }
    let m = read_u32_be(data, 0);
    m == 0xcafebabe || m == 0xbebafeca
}

/// Read the `cputype` word of a thin Mach-O header.
pub fn macho_cputype(data: &[u8]) -> (r: u32)
    requires
        spec_macho_header_ok(data@),
    ensures
        r == spec_macho_cputype(data@),
{
    let m = read_u32_le(data, 0);
    let swapped = m == 0xcefaedfe || m == 0xcffaedfe;
    read_u32(data, 4, swapped)
}

} // verus!
