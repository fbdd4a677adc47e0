use weaver::models::MergeMode;
use weaver::platform::Platform;
use weaver::progress::ProgressStep;

#[test]
fn test_progress_percentages() {
    assert_eq!(ProgressStep::Started.percentage(), 0);
    assert_eq!(ProgressStep::DetectingPlatforms.percentage(), 10);
    assert_eq!(ProgressStep::ValidatingPlatforms.percentage(), 20);
    assert_eq!(ProgressStep::CreatingWorkDir.percentage(), 25);
    assert_eq!(ProgressStep::WritingBinaries.percentage(), 35);
    assert_eq!(ProgressStep::CreatingLoader.percentage(), 45);
    assert_eq!(ProgressStep::ConvertingToObjects.percentage(), 60);
    assert_eq!(ProgressStep::CompilingLoader.percentage(), 75);
    assert_eq!(ProgressStep::Linking.percentage(), 85);
    assert_eq!(ProgressStep::Complete.percentage(), 100);
}

#[test]
fn test_progress_messages() {
    assert_eq!(ProgressStep::Started.message(), "Starting merge operation");
    assert_eq!(ProgressStep::DetectingPlatforms.message(), "Detecting binary platforms");
    assert_eq!(ProgressStep::CompilingLoader.message(), "Compiling loader");
    assert_eq!(ProgressStep::Complete.message(), "Merge complete");
}

#[test]
fn test_merge_mode_default() {
    assert!(matches!(MergeMode::default(), MergeMode::Before));
}

#[test]
fn test_merge_mode_wire_names() {
    assert_eq!(MergeMode::from_name(b"before"), Some(MergeMode::Before));
    assert_eq!(MergeMode::from_name(b"after"), Some(MergeMode::After));
    assert_eq!(MergeMode::from_name(b"Before"), None);
    assert_eq!(MergeMode::from_name(b""), None);
    assert!(MergeMode::Before.overload_runs_first());
    assert!(!MergeMode::After.overload_runs_first());
}

#[test]
fn test_platform_detection() {
    let elf = [0x7f, 0x45, 0x4c, 0x46, 0, 0, 0, 0];
    assert_eq!(Platform::detect(&elf), Platform::LinuxELF);
    assert!(Platform::detect(&elf).is_supported());

    let pe = [0x4d, 0x5a, 0x90, 0x00];
    assert_eq!(Platform::detect(&pe), Platform::WindowsPE);
    assert!(!Platform::detect(&pe).is_supported());

    let macho64 = [0xfe, 0xed, 0xfa, 0xcf];
    assert_eq!(Platform::detect(&macho64), Platform::MacOSMachO);
    let macho_swapped = [0xcf, 0xfa, 0xed, 0xfe];
    assert_eq!(Platform::detect(&macho_swapped), Platform::MacOSMachO);

    assert_eq!(Platform::detect(&[0x00, 0x01, 0x02, 0x03]), Platform::Unknown);
    assert_eq!(Platform::detect(&[0x7f, 0x45]), Platform::Unknown);
}

#[test]
fn test_platform_names() {
    assert_eq!(Platform::LinuxELF.name(), "Linux ELF");
    assert_eq!(Platform::WindowsPE.name(), "Windows PE");
    assert_eq!(Platform::MacOSMachO.name(), "macOS Mach-O");
    assert_eq!(Platform::Unknown.name(), "Unknown");
}
