//! CPU architecture identification and toolchain naming.

use crate::image::{
    elf_header_ok, elf_is_64, elf_machine, macho_cputype, macho_thin_magic, pe_header_ok,
    pe_machine, spec_elf_header_ok, spec_elf_is_64, spec_elf_machine, spec_macho_cputype,
    spec_macho_header_ok, spec_pe_header_ok, spec_pe_machine,
};
use vstd::prelude::*;

verus! {

/// CPU architecture of a payload, as read from its header.
#[derive(Clone, Copy, Debug, PartialEq, Eq, Hash, Structural)]
pub enum Architecture {
    X86,
    X86_64,
    ARM,
    AArch64,
    MIPS,
    MIPS64,
    PowerPC,
    PowerPC64,
    RISCV32,
    RISCV64,
    Unknown,
}

/// Architecture named by an ELF `e_machine` value, with the class byte
/// deciding between the 32- and 64-bit MIPS and RISC-V variants.
pub open spec fn spec_elf_arch(machine: int, is_64: bool) -> Architecture {
    if machine == 3 {
        Architecture::X86
    } else if machine == 62 {
        Architecture::X86_64
    } else if machine == 40 {
        Architecture::ARM
    } else if machine == 183 {
        Architecture::AArch64
    } else if machine == 8 {
        if is_64 {
            Architecture::MIPS64
        } else {
            Architecture::MIPS
        }
    } else if machine == 20 {
        Architecture::PowerPC
    } else if machine == 21 {
        Architecture::PowerPC64
    } else if machine == 243 {
        if is_64 {
            Architecture::RISCV64
        } else {
            Architecture::RISCV32
        }
    } else {
        Architecture::Unknown
    }
}

/// Architecture named by a COFF machine value.
pub open spec fn spec_pe_arch(machine: int) -> Architecture {
    if machine == 0x14c {
        Architecture::X86
    } else if machine == 0x8664 {
        Architecture::X86_64
    } else if machine == 0x1c0 {
        Architecture::ARM
    } else if machine == 0xaa64 {
        Architecture::AArch64
    } else {
        Architecture::Unknown
    }
}

/// Architecture named by a Mach-O `cputype` value.
pub open spec fn spec_macho_arch(cputype: int) -> Architecture {
    if cputype == 7 {
        Architecture::X86
    } else if cputype == 0x0100_0007 {
        Architecture::X86_64
    } else if cputype == 12 {
        Architecture::ARM
    } else if cputype == 0x0100_000c {
        Architecture::AArch64
    } else if cputype == 18 {
        Architecture::PowerPC
    } else if cputype == 0x0100_0012 {
        Architecture::PowerPC64
    } else {
        Architecture::Unknown
    }
}

/// Architecture read from the leading bytes of a payload.  A fat
/// Mach-O image, like anything unrecognized, reads as `Unknown`.
pub open spec fn spec_detect_arch(s: Seq<u8>) -> Architecture {
    if spec_elf_header_ok(s) {
        spec_elf_arch(spec_elf_machine(s), spec_elf_is_64(s))
    } else if spec_pe_header_ok(s) {
        spec_pe_arch(spec_pe_machine(s))
    } else if spec_macho_header_ok(s) {
        spec_macho_arch(spec_macho_cputype(s))
    } else {
        Architecture::Unknown
    }
}

impl Architecture {
    /// Inspect a payload's header and name its architecture.
    pub fn detect(data: &[u8]) -> (r: Architecture)
        ensures
            r == spec_detect_arch(data@),
    {
        if elf_header_ok(data) {
            let machine = elf_machine(data);
            let is_64 = elf_is_64(data);
            if machine == 3 {
                Architecture::X86
            } else if machine == 62 {
                Architecture::X86_64
            } else if machine == 40 {
                Architecture::ARM
            } else if machine == 183 {
                Architecture::AArch64
            } else if machine == 8 {
                if is_64 {
                    Architecture::MIPS64
                } else {
                    Architecture::MIPS
                }
            } else if machine == 20 {
                Architecture::PowerPC
            } else if machine == 21 {
                Architecture::PowerPC64
            } else if machine == 243 {
                if is_64 {
                    Architecture::RISCV64
                } else {
                    Architecture::RISCV32
                }
            } else {
                Architecture::Unknown
            }
        } else if pe_header_ok(data) {
            let machine = pe_machine(data);
            if machine == 0x14c {
                Architecture::X86
            } else if machine == 0x8664 {
                Architecture::X86_64
            } else if machine == 0x1c0 {
                Architecture::ARM
            } else if machine == 0xaa64 {
                Architecture::AArch64
            } else {
                Architecture::Unknown
            }
        } else if macho_thin_magic(data) && data.len() >= 8 {
            let cputype = macho_cputype(data);
            if cputype == 7 {
                Architecture::X86
            } else if cputype == 0x0100_0007 {
                Architecture::X86_64
            } else if cputype == 12 {
                Architecture::ARM
            } else if cputype == 0x0100_000c {
                Architecture::AArch64
            } else if cputype == 18 {
                Architecture::PowerPC
            } else if cputype == 0x0100_0012 {
                Architecture::PowerPC64
            } else {
                Architecture::Unknown
            }
        } else {
            Architecture::Unknown
        }
    }

    /// Human-readable name of the architecture.
    pub open spec fn spec_name(self) -> Seq<char> {
        match self {
            Architecture::X86 => "x86 (32-bit)"@,
            Architecture::X86_64 => "x86-64 (64-bit)"@,
            Architecture::ARM => "ARM (32-bit)"@,
            Architecture::AArch64 => "ARM64 (AArch64)"@,
            Architecture::MIPS => "MIPS (32-bit)"@,
            Architecture::MIPS64 => "MIPS64 (64-bit)"@,
            Architecture::PowerPC => "PowerPC (32-bit)"@,
            Architecture::PowerPC64 => "PowerPC64 (64-bit)"@,
            Architecture::RISCV32 => "RISC-V (32-bit)"@,
            Architecture::RISCV64 => "RISC-V (64-bit)"@,
            Architecture::Unknown => "Unknown"@,
        }
    }

    /// Human-readable name of the architecture.
    pub fn name(&self) -> (r: &'static str)
        ensures
            r@ == self.spec_name(),
    {
        match self {
            Architecture::X86 => "x86 (32-bit)",
            Architecture::X86_64 => "x86-64 (64-bit)",
            Architecture::ARM => "ARM (32-bit)",
            Architecture::AArch64 => "ARM64 (AArch64)",
            Architecture::MIPS => "MIPS (32-bit)",
            Architecture::MIPS64 => "MIPS64 (64-bit)",
            Architecture::PowerPC => "PowerPC (32-bit)",
            Architecture::PowerPC64 => "PowerPC64 (64-bit)",
            Architecture::RISCV32 => "RISC-V (32-bit)",
            Architecture::RISCV64 => "RISC-V (64-bit)",
            Architecture::Unknown => "Unknown",
        }
    }

    /// The 64-bit architectures.
    pub open spec fn spec_is_64bit(self) -> bool {
        self == Architecture::X86_64 || self == Architecture::AArch64 || self
            == Architecture::MIPS64 || self == Architecture::PowerPC64 || self
            == Architecture::RISCV64
    }

    /// Whether the architecture is 64-bit.
    pub fn is_64bit(&self) -> (r: bool)
        ensures
            r == self.spec_is_64bit(),
    {
        matches!(
            self,
            Architecture::X86_64
                | Architecture::AArch64
                | Architecture::MIPS64
                | Architecture::PowerPC64
                | Architecture::RISCV64
        )
    }

    /// The architectures a stub exists for.
    pub open spec fn spec_is_supported(self) -> bool {
        self == Architecture::X86 || self == Architecture::X86_64 || self == Architecture::ARM
            || self == Architecture::AArch64
    }

    /// Whether a stub exists for this architecture.
    pub fn is_supported(&self) -> (r: bool)
        ensures
            r == self.spec_is_supported(),
    {
        matches!(
            self,
            Architecture::X86 | Architecture::X86_64 | Architecture::ARM | Architecture::AArch64
        )
    }

    /// The gcc cross-compiler that targets this architecture on Linux.
    pub open spec fn spec_gcc_compiler(self) -> Seq<char> {
        match self {
            Architecture::X86 => "gcc"@,
            Architecture::X86_64 => "x86_64-linux-gnu-gcc"@,
            Architecture::ARM => "arm-linux-gnueabi-gcc"@,
            Architecture::AArch64 => "aarch64-linux-gnu-gcc"@,
            Architecture::MIPS => "mips-linux-gnu-gcc"@,
            Architecture::MIPS64 => "mips64-linux-gnuabi64-gcc"@,
            _ => "gcc"@,
        }
    }

    /// The gcc cross-compiler that targets this architecture on Linux.
    pub fn gcc_compiler(&self) -> (r: &'static str)
        ensures
            r@ == self.spec_gcc_compiler(),
    {
        match self {
            Architecture::X86 => "gcc",
            Architecture::X86_64 => "x86_64-linux-gnu-gcc",
            Architecture::ARM => "arm-linux-gnueabi-gcc",
            Architecture::AArch64 => "aarch64-linux-gnu-gcc",
            Architecture::MIPS => "mips-linux-gnu-gcc",
            Architecture::MIPS64 => "mips64-linux-gnuabi64-gcc",
            _ => "gcc",
        }
    }

    /// The objcopy `--binary-architecture` name for ELF conversions.
    pub open spec fn spec_objcopy_arch(self) -> Seq<char> {
        match self {
            Architecture::X86 => "i386"@,
            Architecture::X86_64 => "i386:x86-64"@,
            Architecture::ARM => "arm"@,
            Architecture::AArch64 => "aarch64"@,
            Architecture::MIPS => "mips"@,
            Architecture::MIPS64 => "mips:64"@,
            _ => "i386"@,
        }
    }

    /// The objcopy `--binary-architecture` name for ELF conversions.
    pub fn objcopy_arch(&self) -> (r: &'static str)
        ensures
            r@ == self.spec_objcopy_arch(),
    {
        match self {
            Architecture::X86 => "i386",
            Architecture::X86_64 => "i386:x86-64",
            Architecture::ARM => "arm",
            Architecture::AArch64 => "aarch64",
            Architecture::MIPS => "mips",
            Architecture::MIPS64 => "mips:64",
            _ => "i386",
        }
    }

    /// The objcopy `--output-target` name for ELF conversions.
    pub open spec fn spec_objcopy_output(self) -> Seq<char> {
        match self {
            Architecture::X86 => "elf32-i386"@,
            Architecture::X86_64 => "elf64-x86-64"@,
            Architecture::ARM => "elf32-littlearm"@,
            Architecture::AArch64 => "elf64-littleaarch64"@,
            Architecture::MIPS => "elf32-tradbigmips"@,
            Architecture::MIPS64 => "elf64-tradbigmips"@,
            _ => "elf64-x86-64"@,
        }
    }

    /// The objcopy `--output-target` name for ELF conversions.
    pub fn objcopy_output(&self) -> (r: &'static str)
        ensures
            r@ == self.spec_objcopy_output(),
    {
        match self {
            Architecture::X86 => "elf32-i386",
            Architecture::X86_64 => "elf64-x86-64",
            Architecture::ARM => "elf32-littlearm",
            Architecture::AArch64 => "elf64-littleaarch64",
            Architecture::MIPS => "elf32-tradbigmips",
            Architecture::MIPS64 => "elf64-tradbigmips",
            _ => "elf64-x86-64",
        }
    }

    /// The architecture name used when converting a raw binary payload.
    pub open spec fn spec_objcopy_binary(self) -> Seq<char> {
        match self {
            Architecture::X86 => "i386"@,
            Architecture::X86_64 => "i386:x86-64"@,
            Architecture::ARM => "arm"@,
            Architecture::AArch64 => "aarch64"@,
            Architecture::MIPS => "mips"@,
            Architecture::MIPS64 => "mips64"@,
            _ => "i386:x86-64"@,
        }
    }

    /// The architecture name used when converting a raw binary payload.
    pub fn objcopy_binary(&self) -> (r: &'static str)
        ensures
            r@ == self.spec_objcopy_binary(),
    {
        match self {
            Architecture::X86 => "i386",
            Architecture::X86_64 => "i386:x86-64",
            Architecture::ARM => "arm",
            Architecture::AArch64 => "aarch64",
            Architecture::MIPS => "mips",
            Architecture::MIPS64 => "mips64",
            _ => "i386:x86-64",
        }
    }
}

} // verus!
