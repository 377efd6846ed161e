//! Project-wide data model: target architectures, package formats, and the
//! project metadata record that every generator reads.

use vstd::prelude::*;

use crate::text::str_eq;

verus! {

broadcast use vstd::string::group_string_axioms;

/// A CPU architecture a package can be built for.
#[derive(Debug, Clone, Copy, PartialEq, Eq, Structural)]
pub enum Arch {
    X86,
    X86_64,
    AArch64,
    Mips64,
}

impl Arch {
    /// Parses an architecture from any of its textual aliases.
    pub fn parse(input: &str) -> (r: Option<Arch>)
        ensures
            r == Self::spec_parse(input@),
    {
        if str_eq(input, "x86") || str_eq(input, "i386") || str_eq(input, "i686") {
            Some(Arch::X86)
        } else if str_eq(input, "x86_64") || str_eq(input, "amd64") {
            Some(Arch::X86_64)
        } else if str_eq(input, "arm64") || str_eq(input, "aarch64") {
            Some(Arch::AArch64)
        } else if str_eq(input, "mips64") {
            Some(Arch::Mips64)
        } else {
            None
        }
    }

    /// Which architecture each alias names; unknown names parse to `None`.
    pub open spec fn spec_parse(input: Seq<char>) -> Option<Arch> {
        if input == "x86"@ || input == "i386"@ || input == "i686"@ {
            Some(Arch::X86)
        } else if input == "x86_64"@ || input == "amd64"@ {
            Some(Arch::X86_64)
        } else if input == "arm64"@ || input == "aarch64"@ {
            Some(Arch::AArch64)
        } else if input == "mips64"@ {
            Some(Arch::Mips64)
        } else {
            None
        }
    }

    /// The canonical display name of the architecture.
    pub fn name(&self) -> (r: &'static str)
        ensures
            r@ == self.spec_name(),
    {
        match self {
            Arch::X86 => "x86",
            Arch::X86_64 => "x86_64",
            Arch::AArch64 => "aarch64",
            Arch::Mips64 => "mips64",
        }
    }

    pub open spec fn spec_name(&self) -> Seq<char> {
        match self {
            Arch::X86 => "x86"@,
            Arch::X86_64 => "x86_64"@,
            Arch::AArch64 => "aarch64"@,
            Arch::Mips64 => "mips64"@,
        }
    }
}

/// Maps the name of the architecture this program runs on, as the compiler
/// reports it, to the matching `Arch`; names outside the supported set give
/// `None`. The caller supplies the compile-time architecture string.
pub fn get_target_arch(target_arch: &str) -> (r: Option<Arch>)
    ensures
        target_arch@ == "x86"@ ==> r == Some(Arch::X86),
        target_arch@ == "x86_64"@ ==> r == Some(Arch::X86_64),
        target_arch@ == "aarch64"@ ==> r == Some(Arch::AArch64),
        target_arch@ == "mips64"@ ==> r == Some(Arch::Mips64),
        target_arch@ != "x86"@ && target_arch@ != "x86_64"@ && target_arch@ != "aarch64"@
            && target_arch@ != "mips64"@ ==> r is None,
{
    proof {
        reveal_strlit("x86");
        reveal_strlit("x86_64");
        reveal_strlit("aarch64");
        reveal_strlit("mips64");
        assert("x86"@.len() == 3);
        assert("x86_64"@.len() == 6);
        assert("aarch64"@.len() == 7);
        assert("mips64"@.len() == 6);
        assert("x86_64"@[0] == 'x');
        assert("mips64"@[0] == 'm');
    }
    if str_eq(target_arch, "x86") {
        Some(Arch::X86)
    } else if str_eq(target_arch, "x86_64") {
        Some(Arch::X86_64)
    } else if str_eq(target_arch, "aarch64") {
        Some(Arch::AArch64)
    } else if str_eq(target_arch, "mips64") {
        Some(Arch::Mips64)
    } else {
        None
    }
}

/// An output package format.
#[derive(Debug, Clone, Copy, PartialEq, Eq, Structural)]
pub enum PlatformTarget {
    Deb,
    Rpm,
    AppImage,
    /// The Windows installer format.
    Nsis,
}

impl PlatformTarget {
    /// Parses a format from its textual aliases.
    pub fn parse(input: &str) -> (r: Option<PlatformTarget>)
        ensures
            r == Self::spec_parse(input@),
    {
        if str_eq(input, "deb") {
            Some(PlatformTarget::Deb)
        } else if str_eq(input, "rpm") {
            Some(PlatformTarget::Rpm)
        } else if str_eq(input, "app_image") || str_eq(input, "appImage") || str_eq(
            input,
            "AppImage",
        ) {
            Some(PlatformTarget::AppImage)
        } else if str_eq(input, "nsis") {
            Some(PlatformTarget::Nsis)
        } else {
            None
        }
    }

    pub open spec fn spec_parse(input: Seq<char>) -> Option<PlatformTarget> {
        if input == "deb"@ {
            Some(PlatformTarget::Deb)
        } else if input == "rpm"@ {
            Some(PlatformTarget::Rpm)
        } else if input == "app_image"@ || input == "appImage"@ || input == "AppImage"@ {
            Some(PlatformTarget::AppImage)
        } else if input == "nsis"@ {
            Some(PlatformTarget::Nsis)
        } else {
            None
        }
    }

    /// Returns the extension name of generated artifact files.
    pub fn extension(&self) -> (r: &'static str)
        ensures
            r@ == self.spec_extension(),
    {
        match self {
            PlatformTarget::Deb => "deb",
            PlatformTarget::Rpm => "rpm",
            PlatformTarget::AppImage => "AppImage",
            PlatformTarget::Nsis => "exe",
        }
    }

    pub open spec fn spec_extension(&self) -> Seq<char> {
        match self {
            PlatformTarget::Deb => "deb"@,
            PlatformTarget::Rpm => "rpm"@,
            PlatformTarget::AppImage => "AppImage"@,
            PlatformTarget::Nsis => "exe"@,
        }
    }
}

/// A list of glob patterns used as an allow-list filter.
#[derive(Debug, Clone)]
pub struct GlobPatterns(pub Vec<String>);

/// Project-wide facts, loaded once from the configuration document.
/// The build identifier is expanded exactly once, before any pipeline runs.
#[derive(Debug, Clone)]
pub struct Metadata {
    pub name: String,
    pub product_name: String,
    pub app_id: String,
    pub description: String,
    pub homepage: String,
    pub author: String,
    pub copyright: Option<String>,
    pub company: Option<String>,
    pub version: String,
    pub build_id: String,
    pub license: String,
    pub license_file: Option<String>,
    pub workdir: String,
    pub src_dir: String,
}

} // verus!
