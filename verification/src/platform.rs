//! The platform descriptor and the fixed asset-naming scheme.
//!
//! A release asset is named `azure-mcp-<os>-<arch>-<version>.tgz`, where the
//! operating-system and architecture tokens come from a fixed mapping table.

use vstd::prelude::*;
use vstd::string::StringExecFns;

verus! {

/// The operating systems the artifact publisher ships for.
#[derive(Clone, Copy, PartialEq, Eq, Structural, Debug)]
pub enum Os {
    Linux,
    Mac,
    Windows,
}

/// The processor architectures the artifact publisher ships for.
#[derive(Clone, Copy, PartialEq, Eq, Structural, Debug)]
pub enum Arch {
    Aarch64,
    X8664,
    X86,
}

/// The operating-system token of the asset-naming table.
pub open spec fn os_token(os: Os) -> Seq<char> {
    match os {
        Os::Linux => "linux"@,
        Os::Mac => "darwin"@,
        Os::Windows => "win32"@,
    }
}

/// The architecture token of the asset-naming table.
pub open spec fn arch_token(arch: Arch) -> Seq<char> {
    match arch {
        Arch::Aarch64 => "arm64"@,
        Arch::X8664 => "x64"@,
        Arch::X86 => "x86"@,
    }
}

/// The asset filename for a platform pair and a release version.
pub open spec fn asset_filename_spec(os: Os, arch: Arch, version: Seq<char>) -> Seq<char> {
    "azure-mcp-"@ + os_token(os) + "-"@ + arch_token(arch) + "-"@ + version + ".tgz"@
}

pub fn os_token_str(os: Os) -> (r: &'static str)
    ensures
        r@ == os_token(os),
{
    match os {
        Os::Linux => "linux",
        Os::Mac => "darwin",
        Os::Windows => "win32",
    }
}

pub fn arch_token_str(arch: Arch) -> (r: &'static str)
    ensures
        r@ == arch_token(arch),
{
    match arch {
        Arch::Aarch64 => "arm64",
        Arch::X8664 => "x64",
        Arch::X86 => "x86",
    }
}

/// Computes the asset filename for a platform pair and a release version.
///
/// The naming table is checked exhaustively over the closed platform
/// enumeration: every pair yields a filename.
pub fn asset_filename(os: Os, arch: Arch, version: &str) -> (r: String)
    ensures
        r@ == asset_filename_spec(os, arch, version@),
{
    let mut r = "azure-mcp-".to_owned();
    r.append(os_token_str(os));
    r.append("-");
    r.append(arch_token_str(arch));
    r.append("-");
    r.append(version);
    r.append(".tgz");
    r
}

} // verus!
