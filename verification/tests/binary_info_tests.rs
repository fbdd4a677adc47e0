use weaver::arch::Architecture;
use weaver::binary_info::BinaryInfo;
use weaver::os::OperatingSystem;

fn elf_x86_64_linux() -> Vec<u8> {
    let mut v = vec![0u8; 64];
    v[0] = 0x7f;
    v[1] = 0x45;
    v[2] = 0x4c;
    v[3] = 0x46;
    v[4] = 2;
    v[5] = 1;
    v[6] = 1;
    v[7] = 0;
    v[0x12] = 62;
    v[0x13] = 0;
    v
}

#[test]
fn test_binary_info_detection() {
    let binary_data = elf_x86_64_linux();

    let info = BinaryInfo::detect(&binary_data);
    assert_eq!(info.arch, Architecture::X86_64, "Should detect x86-64 architecture");
    assert_eq!(info.os, OperatingSystem::Linux, "Should detect Linux OS");
    assert!(info.is_supported(), "x86-64 Linux should be supported");
}

#[test]
fn test_compatibility_check() {
    let info1 = BinaryInfo { arch: Architecture::X86_64, os: OperatingSystem::Linux };

    let info2 = BinaryInfo { arch: Architecture::X86_64, os: OperatingSystem::Linux };

    let info3 = BinaryInfo { arch: Architecture::ARM, os: OperatingSystem::Linux };

    assert!(info1.is_compatible_with(&info2), "Same arch/OS should be compatible");
    assert!(!info1.is_compatible_with(&info3), "Different arch should not be compatible");
}

#[test]
fn test_description_wording() {
    let info = BinaryInfo { arch: Architecture::X86_64, os: OperatingSystem::Linux };
    assert_eq!(info.description(), "x86-64 (64-bit) on Linux");

    let info = BinaryInfo { arch: Architecture::AArch64, os: OperatingSystem::MacOS };
    assert_eq!(info.description(), "ARM64 (AArch64) on macOS");
}
