//! The platform tuple and the pure functions from it to the supervised
//! binary's expected file name, release-asset pattern and archive
//! format, evaluated once at construction.

use vstd::prelude::*;

verus! {

/// The operating-system family the application runs on.
#[derive(Clone, Copy, Debug, PartialEq, Eq, Structural)]
pub enum Platform {
    Windows,
    MacOs,
    Linux,
}

/// The processor architecture the application runs on.
#[derive(Clone, Copy, Debug, PartialEq, Eq, Structural)]
pub enum Cpu {
    Amd64,
    Arm64,
}

/// The archive format a release asset comes in.
#[derive(Clone, Copy, Debug, PartialEq, Eq, Structural)]
pub enum ArchiveKind {
    Zip,
    TarGz,
}

/// The file name the installed binary is expected under.
pub open spec fn spec_binary_name(p: Platform) -> Seq<char> {
    match p {
        Platform::Windows => "cliproxyapi.exe"@,
        Platform::MacOs => "cliproxyapi-darwin"@,
        Platform::Linux => "cliproxyapi-linux"@,
    }
}

/// The file name the installed binary is expected under.
pub fn binary_name(p: Platform) -> (r: &'static str)
    ensures
        r@ == spec_binary_name(p),
{
    match p {
        Platform::Windows => "cliproxyapi.exe",
        Platform::MacOs => "cliproxyapi-darwin",
        Platform::Linux => "cliproxyapi-linux",
    }
}

/// The substring that picks this platform's asset out of a release's
/// asset list.
pub open spec fn spec_asset_pattern(p: Platform, c: Cpu) -> Seq<char> {
    match (p, c) {
        (Platform::Windows, Cpu::Amd64) => "windows_amd64.zip"@,
        (Platform::Windows, Cpu::Arm64) => "windows_arm64.zip"@,
        (Platform::MacOs, Cpu::Amd64) => "darwin_amd64.tar.gz"@,
        (Platform::MacOs, Cpu::Arm64) => "darwin_arm64.tar.gz"@,
        (Platform::Linux, Cpu::Amd64) => "linux_amd64.tar.gz"@,
        (Platform::Linux, Cpu::Arm64) => "linux_arm64.tar.gz"@,
    }
}

/// The substring that picks this platform's asset out of a release's
/// asset list.
pub fn asset_pattern(p: Platform, c: Cpu) -> (r: &'static str)
    ensures
        r@ == spec_asset_pattern(p, c),
{
    match (p, c) {
        (Platform::Windows, Cpu::Amd64) => "windows_amd64.zip",
        (Platform::Windows, Cpu::Arm64) => "windows_arm64.zip",
        (Platform::MacOs, Cpu::Amd64) => "darwin_amd64.tar.gz",
        (Platform::MacOs, Cpu::Arm64) => "darwin_arm64.tar.gz",
        (Platform::Linux, Cpu::Amd64) => "linux_amd64.tar.gz",
        (Platform::Linux, Cpu::Arm64) => "linux_arm64.tar.gz",
    }
}

/// The archive format the platform's release asset uses: a zip on
/// Windows, a gzip-compressed tar elsewhere.
pub fn archive_kind(p: Platform) -> (r: ArchiveKind)
    ensures
        r == (match p {
            Platform::Windows => ArchiveKind::Zip,
            _ => ArchiveKind::TarGz,
        }),
{
    match p {
        Platform::Windows => ArchiveKind::Zip,
        _ => ArchiveKind::TarGz,
    }
}

} // verus!
