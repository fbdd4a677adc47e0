//! Toolchain selection for the legacy compile-based merge path: which
//! compiler and objcopy invocation fit a payload's platform.

use crate::arch::Architecture;
use crate::binary_info::BinaryInfo;
use crate::os::OperatingSystem;
use vstd::prelude::*;

verus! {

/// The toolchain names chosen for one payload platform.
#[derive(Clone, Debug)]
pub struct CompilerConfig {
    pub gcc: String,
    pub objcopy: String,
    pub objcopy_arch: String,
    pub objcopy_output: String,
}

/// The compiler for a platform: MinGW for Windows, an osxcross clang
/// for macOS, and the architecture's Linux cross-gcc otherwise.
pub open spec fn spec_compiler_gcc(info: BinaryInfo) -> Seq<char> {
    match info.os {
        OperatingSystem::Windows => match info.arch {
            Architecture::X86_64 => "x86_64-w64-mingw32-gcc"@,
            Architecture::X86 => "i686-w64-mingw32-gcc"@,
            _ => "x86_64-w64-mingw32-gcc"@,
        },
        OperatingSystem::MacOS => match info.arch {
            Architecture::X86_64 => "x86_64-apple-darwin-clang"@,
            Architecture::AArch64 => "aarch64-apple-darwin-clang"@,
            _ => "clang"@,
        },
        _ => info.arch.spec_gcc_compiler(),
    }
}

/// The objcopy executable for a platform.
pub open spec fn spec_compiler_objcopy(info: BinaryInfo) -> Seq<char> {
    match info.os {
        OperatingSystem::Windows => "objcopy"@,
        OperatingSystem::MacOS => "objcopy"@,
        _ => match info.arch {
            Architecture::AArch64 => "aarch64-linux-gnu-objcopy"@,
            Architecture::ARM => "arm-linux-gnueabi-objcopy"@,
            Architecture::MIPS => "mips-linux-gnu-objcopy"@,
            Architecture::MIPS64 => "mips-linux-gnu-objcopy"@,
            _ => "objcopy"@,
        },
    }
}

/// The objcopy architecture name for a platform.
pub open spec fn spec_compiler_objcopy_arch(info: BinaryInfo) -> Seq<char> {
    match info.os {
        OperatingSystem::Windows => match info.arch {
            Architecture::X86 => "i386"@,
            _ => "i386:x86-64"@,
        },
        OperatingSystem::MacOS => match info.arch {
            Architecture::AArch64 => "aarch64"@,
            _ => "i386:x86-64"@,
        },
        _ => info.arch.spec_objcopy_arch(),
    }
}

/// The objcopy output target for a platform.
pub open spec fn spec_compiler_objcopy_output(info: BinaryInfo) -> Seq<char> {
    match info.os {
        OperatingSystem::Windows => match info.arch {
            Architecture::X86 => "pe-i386"@,
            _ => "pe-x86-64"@,
        },
        OperatingSystem::MacOS => "mach-o"@,
        _ => info.arch.spec_objcopy_output(),
    }
}

impl CompilerConfig {
    /// Pick the toolchain for a payload's platform.
    pub fn for_binary(info: &BinaryInfo) -> (c: CompilerConfig)
        ensures
            c.gcc@ == spec_compiler_gcc(*info),
            c.objcopy@ == spec_compiler_objcopy(*info),
            c.objcopy_arch@ == spec_compiler_objcopy_arch(*info),
            c.objcopy_output@ == spec_compiler_objcopy_output(*info),
    {
        let gcc: &str = match info.os {
            OperatingSystem::Windows => match info.arch {
                Architecture::X86_64 => "x86_64-w64-mingw32-gcc",
                Architecture::X86 => "i686-w64-mingw32-gcc",
                _ => "x86_64-w64-mingw32-gcc",
            },
            OperatingSystem::MacOS => match info.arch {
                Architecture::X86_64 => "x86_64-apple-darwin-clang",
                Architecture::AArch64 => "aarch64-apple-darwin-clang",
                _ => "clang",
            },
            _ => info.arch.gcc_compiler(),
        };
        let objcopy: &str = match info.os {
            OperatingSystem::Windows => "objcopy",
            OperatingSystem::MacOS => "objcopy",
            _ => match info.arch {
                Architecture::AArch64 => "aarch64-linux-gnu-objcopy",
                Architecture::ARM => "arm-linux-gnueabi-objcopy",
                Architecture::MIPS => "mips-linux-gnu-objcopy",
                Architecture::MIPS64 => "mips-linux-gnu-objcopy",
                _ => "objcopy",
            },
        };
        let objcopy_arch: &str = match info.os {
            OperatingSystem::Windows => match info.arch {
                Architecture::X86 => "i386",
                _ => "i386:x86-64",
            },
            OperatingSystem::MacOS => match info.arch {
                Architecture::AArch64 => "aarch64",
                _ => "i386:x86-64",
            },
            _ => info.arch.objcopy_arch(),
        };
        let objcopy_output: &str = match info.os {
            OperatingSystem::Windows => match info.arch {
                Architecture::X86 => "pe-i386",
                _ => "pe-x86-64",
            },
            OperatingSystem::MacOS => "mach-o",
            _ => info.arch.objcopy_output(),
        };
        CompilerConfig {
            gcc: gcc.to_owned(),
            objcopy: objcopy.to_owned(),
            objcopy_arch: objcopy_arch.to_owned(),
            objcopy_output: objcopy_output.to_owned(),
        }
    }
}

} // verus!
