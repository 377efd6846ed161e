//! The configuration records deserialized from the project description:
//! one shared metadata block, one optional section per operating-system
//! family, and one optional record per package format.

use vstd::prelude::*;

use crate::error::{Error, ErrorKind};
use crate::fileset::FileSet;
use crate::platform::{Arch, Metadata, PlatformTarget};

verus! {

/// The whole project configuration.
#[derive(Debug, Clone)]
pub struct Config {
    pub metadata: Metadata,
    pub windows: Option<WindowsConfig>,
    pub linux: Option<LinuxConfig>,
}

/// The Linux section: which architectures and formats to build, the shared
/// file manifest, and the per-format records.
#[derive(Debug, Clone)]
pub struct LinuxConfig {
    pub arch: Vec<Arch>,
    pub targets: Vec<PlatformTarget>,
    pub files: Option<Vec<FileSet>>,
    pub app_image: AppImageConfig,
    pub deb: DebConfig,
    pub rpm: RpmConfig,
}

/// The Windows section.
#[derive(Debug, Clone)]
pub struct WindowsConfig {
    pub arch: Vec<Arch>,
    pub targets: Vec<PlatformTarget>,
    /// File to be run after install, relative to the install directory;
    /// the desktop link refers to it.
    pub exe_file: String,
    pub files: Option<Vec<FileSet>>,
    pub nsis: Option<NsisConfig>,
}

/// The architectures built when the section names none.
pub fn default_arch() -> (r: Vec<Arch>)
    ensures
        r@ =~= seq![Arch::X86_64],
{
    let mut v: Vec<Arch> = Vec::new();
    v.push(Arch::X86_64);
    v
}

/// The formats built for Linux when the section names none.
pub fn default_linux_targets() -> (r: Vec<PlatformTarget>)
    ensures
        r@ =~= seq![PlatformTarget::Deb, PlatformTarget::AppImage],
{
    let mut v: Vec<PlatformTarget> = Vec::new();
    v.push(PlatformTarget::Deb);
    v.push(PlatformTarget::AppImage);
    v
}

/// The formats built for Windows when the section names none.
pub fn default_windows_targets() -> (r: Vec<PlatformTarget>)
    ensures
        r@ =~= seq![PlatformTarget::Nsis],
{
    let mut v: Vec<PlatformTarget> = Vec::new();
    v.push(PlatformTarget::Nsis);
    v
}

pub fn default_true() -> (r: bool)
    ensures
        r,
{
    true
}

pub fn default_false() -> (r: bool)
    ensures
        !r,
{
    false
}

/// The Debian package record: priority, optional relational fields, and an
/// optional file manifest that overrides the shared Linux one.
#[derive(Debug, Clone)]
pub struct DebConfig {
    pub priority: String,
    pub section: Option<String>,
    pub depends: Option<String>,
    pub recommends: Option<String>,
    pub conflicts: Option<String>,
    pub breaks: Option<String>,
    pub replaces: Option<String>,
    pub provides: Option<String>,
    pub files: Option<Vec<FileSet>>,
}

/// The priority used when the record names none.
pub fn default_priority() -> (r: String)
    ensures
        r@ == "utility"@,
{
    "utility".to_owned()
}

impl Default for DebConfig {
    fn default() -> (r: Self)
        ensures
            r.priority@ == "utility"@,
            r.section is None,
            r.depends is None,
            r.recommends is None,
            r.conflicts is None,
            r.breaks is None,
            r.replaces is None,
            r.provides is None,
            r.files is None,
    {
        DebConfig {
            priority: default_priority(),
            section: None,
            depends: None,
            recommends: None,
            conflicts: None,
            breaks: None,
            replaces: None,
            provides: None,
            files: None,
        }
    }
}

/// The RPM package record.
#[derive(Debug, Clone)]
pub struct RpmConfig {
    pub files: Option<Vec<FileSet>>,
    /// Additional required packages.
    pub required_pkgs: Option<Vec<String>>,
}

impl Default for RpmConfig {
    fn default() -> (r: Self)
        ensures
            r.files is None,
            r.required_pkgs is None,
    {
        RpmConfig { files: None, required_pkgs: None }
    }
}

/// The AppImage record.
#[derive(Debug, Clone)]
pub struct AppImageConfig {
    /// ELF executables whose dynamically linked libraries are copied in.
    pub exe_files: Vec<String>,
    /// Whether to copy dependent libraries; they land in the `libs` folder.
    pub embed_libs: bool,
    pub files: Option<Vec<FileSet>>,
    /// Libraries never copied even when embedding.
    pub exclude_libs: Vec<String>,
}

/// The library exclusion list used when the record names none.
pub fn default_exclude_libs() -> (r: Vec<String>)
    ensures
        r@ =~= Seq::<String>::empty(),
{
    Vec::new()
}

impl Default for AppImageConfig {
    fn default() -> (r: Self)
        ensures
            r.exe_files@ =~= Seq::<String>::empty(),
            r.embed_libs,
            r.files is None,
            r.exclude_libs@ =~= Seq::<String>::empty(),
    {
        AppImageConfig {
            exe_files: Vec::new(),
            embed_libs: true,
            files: None,
            exclude_libs: default_exclude_libs(),
        }
    }
}

/// The compression method handed to the Windows installer compiler.
#[derive(Debug, Clone, Copy, PartialEq, Eq, Structural)]
pub enum CompressMethod {
    BZip2,
    Lzma,
    Zlib,
}

impl CompressMethod {
    /// The method's name as the installer script spells it.
    pub fn name(&self) -> (r: &'static str)
        ensures
            r@ == self.spec_name(),
    {
        match self {
            CompressMethod::BZip2 => "bzip2",
            CompressMethod::Lzma => "lzma",
            CompressMethod::Zlib => "zlib",
        }
    }

    pub open spec fn spec_name(&self) -> Seq<char> {
        match self {
            CompressMethod::BZip2 => "bzip2"@,
            CompressMethod::Lzma => "lzma"@,
            CompressMethod::Zlib => "zlib"@,
        }
    }
}

/// The method used when the record names none.
pub fn default_compress_method() -> (r: CompressMethod)
    ensures
        r == CompressMethod::Lzma,
{
    CompressMethod::Lzma
}

/// The Windows installer record, mirroring the common installer UX options.
#[derive(Debug, Clone)]
pub struct NsisConfig {
    pub files: Option<Vec<FileSet>>,
    /// Whether to create a one-click installer or an assisted one.
    pub one_click: bool,
    /// Whether installation is always per-machine.
    pub per_machine: bool,
    /// Assisted installer only: allow requesting elevation.
    pub allow_elevation: bool,
    /// Assisted installer only: allow changing the installation directory.
    pub allow_to_change_installation_directory: bool,
    pub installer_icon: String,
    pub uninstaller_icon: String,
    pub installer_header: Option<String>,
    pub installer_header_icon: Option<String>,
    pub installer_sidebar: Option<String>,
    pub uninstaller_sidebar: Option<String>,
    /// The uninstaller display name in the control panel.
    pub uninstall_display_name: Option<String>,
    /// Path to an installer-script fragment to splice in.
    pub include_script: Option<String>,
    /// Path to a whole replacement installer script.
    pub script: Option<String>,
    /// The artifact file-name template.
    pub artifact_name: String,
    /// One-click installer only: delete app data on uninstall.
    pub delete_app_data_on_uninstall: bool,
    /// Whether to create a Unicode installer.
    pub unicode: bool,
    pub guid: Option<String>,
    /// Whether the installer compiler treats warnings as errors.
    pub warnings_as_errors: bool,
    /// Whether to run the installed application after finishing.
    pub run_after_finish: bool,
    /// Whether to run the application on login.
    pub run_on_startup: bool,
    pub create_desktop_shortcut: bool,
    pub create_start_menu_shortcut: bool,
    pub compress_method: CompressMethod,
}

/// The artifact file-name template used when the record names none.
pub fn default_artifact_name() -> (r: String)
    ensures
        r@ == "${product_name} Setup ${version}.${ext}"@,
{
    "${product_name} Setup ${version}.${ext}".to_owned()
}

/// Relies on directories::ProjectDirs::from with this builder's fixed
/// qualifier, organization and application names: the per-user
/// configuration directory. The result depends on the environment; the
/// lookup fails when no home directory can be determined.
#[verifier::external_body]
fn project_config_dir() -> (r: Result<String, Error>)
    ensures
        r matches Err(e) ==> e.spec_kind() == ErrorKind::HomeDirError,
{
    match directories::ProjectDirs::from("org", "biofan", "pifu") {
        Some(dirs) => Ok(dirs.config_dir().to_string_lossy().into_owned()),
        None => Err(Error::new(ErrorKind::HomeDirError, "Invalid $HOME")),
    }
}

/// The directory the one-time tool downloads land in: `bin` under the
/// per-user configuration directory.
pub fn get_binary_dir() -> (r: Result<String, Error>)
    ensures
        r matches Ok(p) ==> exists|base: Seq<char>| p@ == base + "/bin"@,
        r matches Err(e) ==> e.spec_kind() == ErrorKind::HomeDirError,
{
    match project_config_dir() {
        Ok(dir) => {
            let mut p = dir;
            let ghost base = p@;
            p.append("/bin");
            proof {
                assert(p@ == base + "/bin"@);
            }
            Ok(p)
        },
        Err(e) => Err(e),
    }
}

} // verus!
