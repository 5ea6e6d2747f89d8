//! The Java runtimes published for each platform.
use crate::text::str_eq;
use crate::time::UtcTime;
use vstd::prelude::*;

verus! {

pub struct Main {
    pub linux: OsVersions,
    pub linux_i386: OsVersions,
    pub mac_os: OsVersions,
    pub windows_x64: OsVersions,
    pub windows_x86: OsVersions,
}

/// The platform key of the runtimes for an operating system and
/// architecture (names of the Rust standard library), if there is one.
pub open spec fn runtime_platform(os: Seq<char>, arch: Seq<char>) -> Option<Seq<char>> {
    if os == "windows"@ {
        if arch == "x86"@ {
            Some("windows-x86"@)
        } else if arch == "x86_64"@ {
            Some("windows-x64"@)
        } else {
            None
        }
    } else if os == "macos"@ {
        Some("mac-os"@)
    } else if arch == "x86"@ {
        Some("linux-i386"@)
    } else {
        Some("linux"@)
    }
}

/// The runtimes a platform key designates.
pub open spec fn runtimes_of_platform(m: Main, platform: Option<Seq<char>>) -> Option<OsVersions> {
    match platform {
        None => None,
        Some(p) => if p == "windows-x86"@ {
            Some(m.windows_x86)
        } else if p == "windows-x64"@ {
            Some(m.windows_x64)
        } else if p == "mac-os"@ {
            Some(m.mac_os)
        } else if p == "linux-i386"@ {
            Some(m.linux_i386)
        } else if p == "linux"@ {
            Some(m.linux)
        } else {
            None
        },
    }
}

impl Main {
    /// The runtimes of the platform the launcher runs on.
    pub fn get_os_version(self, os: &str, arch: &str) -> (r: Option<OsVersions>)
        ensures
            r == runtimes_of_platform(self, runtime_platform(os@, arch@)),
    {
        proof {
            reveal_strlit("windows-x86");
            reveal_strlit("windows-x64");
            reveal_strlit("mac-os");
            reveal_strlit("linux-i386");
            reveal_strlit("linux");
            assert("windows-x64"@[9] != "windows-x86"@[9]);
            assert("mac-os"@.len() == 6);
            assert("linux-i386"@.len() == 10);
            assert("linux"@.len() == 5);
            assert("windows-x86"@.len() == 11);
            assert("windows-x64"@.len() == 11);
        }
        if str_eq(os, "windows") {
            if str_eq(arch, "x86") {
                Some(self.windows_x86)
            } else if str_eq(arch, "x86_64") {
                Some(self.windows_x64)
            } else {
                None
            }
        } else if str_eq(os, "macos") {
            Some(self.mac_os)
        } else if str_eq(arch, "x86") {
            Some(self.linux_i386)
        } else {
            Some(self.linux)
        }
    }
}

pub struct OsVersions {
    pub java_runtime_alpha: Vec<Version>,
    pub jre_legacy: Vec<Version>,
    pub java_exe: Vec<Version>,
}

impl OsVersions {
    /// The builds of a runtime component, by its manifest name.
    pub fn get_java_version(self, version: &String) -> (r: Option<Vec<Version>>)
        ensures
            r == (if version@ == "java-runtime-alpha"@ {
                Some(self.java_runtime_alpha)
            } else if version@ == "jre-legacy"@ {
                Some(self.jre_legacy)
            } else if version@ == "minecraft-java-exe"@ {
                Some(self.java_exe)
            } else {
                None
            }),
    {
        if str_eq(version.as_str(), "java-runtime-alpha") {
            Some(self.java_runtime_alpha)
        } else if str_eq(version.as_str(), "jre-legacy") {
            Some(self.jre_legacy)
        } else if str_eq(version.as_str(), "minecraft-java-exe") {
            Some(self.java_exe)
        } else {
            None
        }
    }
}

pub struct Version {
    pub availability: Availability,
    pub manifest: Manifest,
    pub version: VersionInfo,
}

pub struct Availability {
    pub group: u64,
    pub progress: u64,
}

pub struct Manifest {
    pub sha1: String,
    pub size: u64,
    pub url: String,
}

pub struct VersionInfo {
    pub name: String,
    pub released: UtcTime,
}

} // verus!
