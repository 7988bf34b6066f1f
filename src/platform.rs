use vstd::prelude::*;

verus! {

/// The operating system family that the host runs on.
#[derive(Clone, Copy, Debug, PartialEq, Eq, Structural)]
pub enum Os {
    Mac,
    Linux,
    Windows,
}

/// The processor architecture that the host runs on.
#[derive(Clone, Copy, Debug, PartialEq, Eq, Structural)]
pub enum Architecture {
    Aarch64,
    X86,
    X8664,
}

/// Archive format of a release asset.
#[derive(Clone, Copy, Debug, PartialEq, Eq, Structural)]
pub enum DownloadedFileType {
    GzipTar,
    Zip,
}

/// Name of the release asset that carries the server for `os` on `arch`,
/// or `None` where no build is published for that pair.
pub open spec fn asset_name_of(os: Os, arch: Architecture) -> Option<Seq<char>> {
    match (os, arch) {
        (Os::Mac, _) => Some("neocmakelsp-universal-apple-darwin.tar.gz"@),
        (Os::Windows, Architecture::Aarch64) => Some("neocmakelsp-aarch64-pc-windows-msvc.zip"@),
        (Os::Windows, Architecture::X8664) => Some("neocmakelsp-x86_64-pc-windows-msvc.zip"@),
        (Os::Linux, Architecture::Aarch64) => Some(
            "neocmakelsp-aarch64-unknown-linux-gnu.tar.gz"@,
        ),
        (Os::Linux, Architecture::X8664) => Some("neocmakelsp-x86_64-unknown-linux-gnu.tar.gz"@),
        _ => None,
    }
}

/// The archive format that the release uses on `os`.
pub open spec fn file_type_of(os: Os) -> DownloadedFileType {
    match os {
        Os::Windows => DownloadedFileType::Zip,
        _ => DownloadedFileType::GzipTar,
    }
}

/// What follows the program name in an executable's file name on `os`.
pub open spec fn exe_suffix_of(os: Os) -> Seq<char> {
    match os {
        Os::Windows => ".exe"@,
        _ => ""@,
    }
}

/// How the host's platform query prints `os`.
pub open spec fn os_label(os: Os) -> Seq<char> {
    match os {
        Os::Mac => "Os::Mac"@,
        Os::Linux => "Os::Linux"@,
        Os::Windows => "Os::Windows"@,
    }
}

/// How the host's platform query prints `arch`.
pub open spec fn arch_label(arch: Architecture) -> Seq<char> {
    match arch {
        Architecture::Aarch64 => "Architecture::Aarch64"@,
        Architecture::X86 => "Architecture::X86"@,
        Architecture::X8664 => "Architecture::X8664"@,
    }
}

/// Name of the release asset to download for `os` on `arch`.
pub fn asset_name_for(os: Os, arch: Architecture) -> (r: Option<String>)
    ensures
        r is Some <==> asset_name_of(os, arch) is Some,
        r is Some ==> r->Some_0@ == asset_name_of(os, arch)->Some_0,
{
    match (os, arch) {
        (Os::Mac, _) => Some(String::from_str("neocmakelsp-universal-apple-darwin.tar.gz")),
        (Os::Windows, Architecture::Aarch64) => Some(
            String::from_str("neocmakelsp-aarch64-pc-windows-msvc.zip"),
        ),
        (Os::Windows, Architecture::X8664) => Some(
            String::from_str("neocmakelsp-x86_64-pc-windows-msvc.zip"),
        ),
        (Os::Linux, Architecture::Aarch64) => Some(
            String::from_str("neocmakelsp-aarch64-unknown-linux-gnu.tar.gz"),
        ),
        (Os::Linux, Architecture::X8664) => Some(
            String::from_str("neocmakelsp-x86_64-unknown-linux-gnu.tar.gz"),
        ),
        _ => None,
    }
}

/// Archive format of the server release for `os`.
pub fn file_type_for(os: Os) -> (r: DownloadedFileType)
    ensures
        r == file_type_of(os),
{
    match os {
        Os::Windows => DownloadedFileType::Zip,
        _ => DownloadedFileType::GzipTar,
    }
}

/// Suffix of an executable's file name on `os`.
pub fn exe_suffix_for(os: Os) -> (r: &'static str)
    ensures
        r@ == exe_suffix_of(os),
{
    match os {
        Os::Windows => ".exe",
        _ => "",
    }
}

/// Printed form of `os`, as in the host's own diagnostics.
pub fn os_label_for(os: Os) -> (r: &'static str)
    ensures
        r@ == os_label(os),
{
    match os {
        Os::Mac => "Os::Mac",
        Os::Linux => "Os::Linux",
        Os::Windows => "Os::Windows",
    }
}

/// Printed form of `arch`, as in the host's own diagnostics.
pub fn arch_label_for(arch: Architecture) -> (r: &'static str)
    ensures
        r@ == arch_label(arch),
{
    match arch {
        Architecture::Aarch64 => "Architecture::Aarch64",
        Architecture::X86 => "Architecture::X86",
        Architecture::X8664 => "Architecture::X8664",
    }
}

} // verus!
