use weaver::arch::Architecture;
use weaver::binary_info::BinaryInfo;
use weaver::os::OperatingSystem;

fn elf_binary(class: u8, endian: u8, osabi: u8, machine: u16) -> Vec<u8> {
    let mut v = vec![0u8; 64];
    v[0] = 0x7f;
    v[1] = 0x45;
    v[2] = 0x4c;
    v[3] = 0x46;
    v[4] = class;
    v[5] = endian;
    v[6] = 1;
    v[7] = osabi;
    if endian == 2 {
        v[0x12] = (machine >> 8) as u8;
        v[0x13] = (machine & 0xff) as u8;
    } else {
        v[0x12] = (machine & 0xff) as u8;
        v[0x13] = (machine >> 8) as u8;
    }
    v
}

fn pe_binary(machine: u16) -> Vec<u8> {
    let mut v = vec![0u8; 0x80];
    v[0] = 0x4d;
    v[1] = 0x5a;
    v[0x3c] = 0x40;
    v[0x40] = 0x50;
    v[0x41] = 0x45;
    v[0x42] = 0;
    v[0x43] = 0;
    v[0x44] = (machine & 0xff) as u8;
    v[0x45] = (machine >> 8) as u8;
    v
}

#[test]
fn test_x86_64_linux_detection() {
    let data = elf_binary(2, 1, 0, 62);
    let info = BinaryInfo::detect(&data);
    assert_eq!(info.arch, Architecture::X86_64);
    assert_eq!(info.os, OperatingSystem::Linux);
    assert!(info.is_supported());
    assert!(info.arch.is_64bit());
}

#[test]
fn test_x86_linux_detection() {
    let data = elf_binary(1, 1, 0, 3);
    let info = BinaryInfo::detect(&data);
    assert_eq!(info.arch, Architecture::X86);
    assert_eq!(info.os, OperatingSystem::Linux);
    assert!(info.is_supported());
    assert!(!info.arch.is_64bit());
}

#[test]
fn test_arm64_linux_detection() {
    let data = elf_binary(2, 1, 3, 183);
    let info = BinaryInfo::detect(&data);
    assert_eq!(info.arch, Architecture::AArch64);
    assert_eq!(info.os, OperatingSystem::Linux);
    assert!(info.is_supported());
    assert!(info.arch.is_64bit());
}

#[test]
fn test_arm_linux_detection() {
    let data = elf_binary(1, 1, 0, 40);
    let info = BinaryInfo::detect(&data);
    assert_eq!(info.arch, Architecture::ARM);
    assert_eq!(info.os, OperatingSystem::Linux);
    assert!(info.is_supported());
    assert!(!info.arch.is_64bit());
}

#[test]
fn test_mips_linux_detection() {
    let data = elf_binary(1, 2, 0, 8);
    let info = BinaryInfo::detect(&data);
    assert_eq!(info.arch, Architecture::MIPS);
    assert_eq!(info.os, OperatingSystem::Linux);
    assert!(!info.is_supported());
}

#[test]
fn detection_tests_test_windows_pe_detection() {
    let data = pe_binary(0x8664);
    let info = BinaryInfo::detect(&data);
    assert_eq!(info.arch, Architecture::X86_64);
    assert_eq!(info.os, OperatingSystem::Windows);
    assert!(info.is_supported());
}

#[test]
fn test_binary_compatibility() {
    let info1 = BinaryInfo { arch: Architecture::X86_64, os: OperatingSystem::Linux };

    let info2 = BinaryInfo { arch: Architecture::X86_64, os: OperatingSystem::Linux };

    let info3 = BinaryInfo { arch: Architecture::ARM, os: OperatingSystem::Linux };

    let info4 = BinaryInfo { arch: Architecture::X86_64, os: OperatingSystem::Windows };

    assert!(info1.is_compatible_with(&info2));
    assert!(!info1.is_compatible_with(&info3));
    assert!(!info1.is_compatible_with(&info4));
}

#[test]
fn test_unsupported_architectures() {
    let mips_info = BinaryInfo { arch: Architecture::MIPS, os: OperatingSystem::Linux };

    let riscv_info = BinaryInfo { arch: Architecture::RISCV64, os: OperatingSystem::Linux };

    assert!(!mips_info.is_supported());
    assert!(!riscv_info.is_supported());
}

#[test]
fn test_architecture_names() {
    assert_eq!(Architecture::X86_64.name(), "x86-64 (64-bit)");
    assert_eq!(Architecture::X86.name(), "x86 (32-bit)");
    assert_eq!(Architecture::AArch64.name(), "ARM64 (AArch64)");
    assert_eq!(Architecture::ARM.name(), "ARM (32-bit)");
    assert_eq!(Architecture::MIPS64.name(), "MIPS64 (64-bit)");
    assert_eq!(Architecture::RISCV64.name(), "RISC-V (64-bit)");
}

#[test]
fn test_os_names() {
    assert_eq!(OperatingSystem::Linux.name(), "Linux");
    assert_eq!(OperatingSystem::Windows.name(), "Windows");
    assert_eq!(OperatingSystem::MacOS.name(), "macOS");
    assert_eq!(OperatingSystem::FreeBSD.name(), "FreeBSD");
}

#[test]
fn test_binary_format() {
    assert_eq!(OperatingSystem::Linux.binary_format(), "ELF");
    assert_eq!(OperatingSystem::Windows.binary_format(), "PE");
    assert_eq!(OperatingSystem::MacOS.binary_format(), "Mach-O");
    assert_eq!(OperatingSystem::FreeBSD.binary_format(), "ELF");
}
