//! The platforms the agent knows, and the table that names them.

use crate::text::str_eq;
use vstd::prelude::*;

verus! {

/// An operating system paired with a processor architecture.
#[derive(Debug, Clone, Copy, PartialEq, Eq, Structural)]
pub enum Platform {
    LinuxX64,
    LinuxX86,
    LinuxArm64,
    LinuxArmv7,
    WindowsX64,
    WindowsX86,
    MacOSX64,
    MacOSArm64,
    Unknown,
}

/// The platform that an operating system's name and an architecture's name
/// stand for, as the compiler's target names them.
pub open spec fn platform_of(os: Seq<char>, arch: Seq<char>) -> Platform {
    if os == "linux"@ {
        if arch == "x86_64"@ {
            Platform::LinuxX64
        } else if arch == "x86"@ {
            Platform::LinuxX86
        } else if arch == "aarch64"@ {
            Platform::LinuxArm64
        } else if arch == "arm"@ {
            Platform::LinuxArmv7
        } else {
            Platform::Unknown
        }
    } else if os == "windows"@ {
        if arch == "x86_64"@ {
            Platform::WindowsX64
        } else if arch == "x86"@ {
            Platform::WindowsX86
        } else {
            Platform::Unknown
        }
    } else if os == "macos"@ {
        if arch == "x86_64"@ {
            Platform::MacOSX64
        } else if arch == "aarch64"@ {
            Platform::MacOSArm64
        } else {
            Platform::Unknown
        }
    } else {
        Platform::Unknown
    }
}

/// Looks the platform up by the target's operating system and
/// architecture. A pair that the table does not hold is `Unknown`.
pub fn detect_platform(os: &str, arch: &str) -> (platform: Platform)
    ensures
        platform == platform_of(os@, arch@),
{
    if str_eq(os, "linux") {
        if str_eq(arch, "x86_64") {
            Platform::LinuxX64
        } else if str_eq(arch, "x86") {
            Platform::LinuxX86
        } else if str_eq(arch, "aarch64") {
            Platform::LinuxArm64
        } else if str_eq(arch, "arm") {
            Platform::LinuxArmv7
        } else {
            Platform::Unknown
        }
    } else if str_eq(os, "windows") {
        if str_eq(arch, "x86_64") {
            Platform::WindowsX64
        } else if str_eq(arch, "x86") {
            Platform::WindowsX86
        } else {
            Platform::Unknown
        }
    } else if str_eq(os, "macos") {
        if str_eq(arch, "x86_64") {
            Platform::MacOSX64
        } else if str_eq(arch, "aarch64") {
            Platform::MacOSArm64
        } else {
            Platform::Unknown
        }
    } else {
        Platform::Unknown
    }
}

impl Platform {
    /// The platform's name as text.
    pub open spec fn label(self) -> Seq<char> {
        match self {
            Platform::LinuxX64 => "linux-x86_64"@,
            Platform::LinuxX86 => "linux-x86"@,
            Platform::LinuxArm64 => "linux-arm64"@,
            Platform::LinuxArmv7 => "linux-armv7"@,
            Platform::WindowsX64 => "windows-x86_64"@,
            Platform::WindowsX86 => "windows-x86"@,
            Platform::MacOSX64 => "macos-x86_64"@,
            Platform::MacOSArm64 => "macos-arm64"@,
            Platform::Unknown => "unknown"@,
        }
    }

    /// The platform's name.
    pub fn name(&self) -> (label: &'static str)
        ensures
            label@ == self.label(),
    {
        match self {
            Platform::LinuxX64 => "linux-x86_64",
            Platform::LinuxX86 => "linux-x86",
            Platform::LinuxArm64 => "linux-arm64",
            Platform::LinuxArmv7 => "linux-armv7",
            Platform::WindowsX64 => "windows-x86_64",
            Platform::WindowsX86 => "windows-x86",
            Platform::MacOSX64 => "macos-x86_64",
            Platform::MacOSArm64 => "macos-arm64",
            Platform::Unknown => "unknown",
        }
    }
}

} // verus!
