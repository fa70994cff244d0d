use killer::platform::{detect_platform, Platform};

#[test]
fn test_detect_platform() {
    let platform = detect_platform("linux", "x86_64");
    println!("Detected platform: {:?}", platform);
    assert_ne!(platform, Platform::Unknown);
}

#[test]
fn platform_table_is_complete() {
    assert_eq!(detect_platform("linux", "x86_64"), Platform::LinuxX64);
    assert_eq!(detect_platform("linux", "x86"), Platform::LinuxX86);
    assert_eq!(detect_platform("linux", "aarch64"), Platform::LinuxArm64);
    assert_eq!(detect_platform("linux", "arm"), Platform::LinuxArmv7);
    assert_eq!(detect_platform("windows", "x86_64"), Platform::WindowsX64);
    assert_eq!(detect_platform("windows", "x86"), Platform::WindowsX86);
    assert_eq!(detect_platform("macos", "x86_64"), Platform::MacOSX64);
    assert_eq!(detect_platform("macos", "aarch64"), Platform::MacOSArm64);
}

#[test]
fn platform_outside_the_table_is_unknown() {
    assert_eq!(detect_platform("linux", "riscv64"), Platform::Unknown);
    assert_eq!(detect_platform("windows", "aarch64"), Platform::Unknown);
    assert_eq!(detect_platform("windows", "arm"), Platform::Unknown);
    assert_eq!(detect_platform("macos", "x86"), Platform::Unknown);
    assert_eq!(detect_platform("freebsd", "x86_64"), Platform::Unknown);
    assert_eq!(detect_platform("Linux", "x86_64"), Platform::Unknown);
    assert_eq!(detect_platform("", ""), Platform::Unknown);
}

#[test]
fn platform_names() {
    assert_eq!(Platform::LinuxX64.name(), "linux-x86_64");
    assert_eq!(Platform::LinuxX86.name(), "linux-x86");
    assert_eq!(Platform::LinuxArm64.name(), "linux-arm64");
    assert_eq!(Platform::LinuxArmv7.name(), "linux-armv7");
    assert_eq!(Platform::WindowsX64.name(), "windows-x86_64");
    assert_eq!(Platform::WindowsX86.name(), "windows-x86");
    assert_eq!(Platform::MacOSX64.name(), "macos-x86_64");
    assert_eq!(Platform::MacOSArm64.name(), "macos-arm64");
    assert_eq!(Platform::Unknown.name(), "unknown");
}
