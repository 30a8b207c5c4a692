//! The manifest: the tools it declares and their per-platform installation records.

use crate::text::{optional_text, text_eq};
use vstd::prelude::*;

verus! {

/// An operating system that a record can target.
#[derive(Debug, PartialEq, Eq, Structural, Copy, Clone)]
pub enum OS {
    MacOS,
    Linux,
    Windows,
}

/// A processor architecture that a record can target.
#[derive(Debug, PartialEq, Eq, Structural, Copy, Clone)]
pub enum Arch {
    Aarch64,
    X86_64,
}

/// How a tool is delivered: the manifest's `type` field.
#[derive(Debug, PartialEq, Eq, Structural, Copy, Clone)]
pub enum Type {
    Dmg,
    Shell,
    Zip,
    Exe,
    Deb,
}

/// The two ways in which an installation can end well.
#[derive(Debug, PartialEq, Eq, Structural, Copy, Clone)]
pub enum InstallStatus {
    AlreadyInstalled,
    Installed,
}

/// Why a run cannot start: the host names a platform that no record can target.
#[derive(Debug)]
pub enum HostError {
    UnsupportedOs(String),
    UnsupportedArch(String),
}

/// One installation record as the manifest declares it: the platform it is
/// for, the key by which an installed copy is recognised, how the tool is
/// delivered, where it comes from, and a command to run afterwards.
#[derive(Debug)]
pub struct RawInstallationDetailItem {
    pub os: OS,
    pub arch: Option<Arch>,
    pub id: String,
    pub kind: Type,
    pub source: String,
    pub post_install: Option<String>,
}

/// A tool and the records it declares, one per platform it supports.
#[derive(Debug)]
pub struct ToolInstallationManifest {
    pub name: String,
    pub description: String,
    pub installations: Vec<RawInstallationDetailItem>,
}

/// The whole manifest, in the order in which it declares its tools.
#[derive(Debug)]
pub struct ToolkitsManifest {
    pub author: String,
    pub version: String,
    pub description: String,
    pub tools: Vec<ToolInstallationManifest>,
}

/// A tool together with the one record chosen for the running platform.
#[derive(Debug)]
pub struct InstallationDetailItem {
    pub name: String,
    pub description: String,
    pub os: OS,
    pub arch: Option<Arch>,
    pub id: String,
    pub kind: Type,
    pub source: String,
    pub post_install: Option<String>,
}

/// What a [`RawInstallationDetailItem`] stands for.
pub ghost struct InstallationRecord {
    pub os: OS,
    pub arch: Option<Arch>,
    pub id: Seq<char>,
    pub kind: Type,
    pub source: Seq<char>,
    pub post_install: Option<Seq<char>>,
}

/// What a [`ToolInstallationManifest`] stands for.
pub ghost struct ToolEntry {
    pub name: Seq<char>,
    pub description: Seq<char>,
    pub installations: Seq<InstallationRecord>,
}

/// What an [`InstallationDetailItem`] stands for.
pub ghost struct ResolvedInstallation {
    pub name: Seq<char>,
    pub description: Seq<char>,
    pub os: OS,
    pub arch: Option<Arch>,
    pub id: Seq<char>,
    pub kind: Type,
    pub source: Seq<char>,
    pub post_install: Option<Seq<char>>,
}

impl View for RawInstallationDetailItem {
    type V = InstallationRecord;

    open spec fn view(&self) -> InstallationRecord {
        InstallationRecord {
            os: self.os,
            arch: self.arch,
            id: self.id@,
            kind: self.kind,
            source: self.source@,
            post_install: optional_text(self.post_install),
        }
    }
}

impl View for ToolInstallationManifest {
    type V = ToolEntry;

    open spec fn view(&self) -> ToolEntry {
        ToolEntry {
            name: self.name@,
            description: self.description@,
            installations: self.installations@.map_values(|r: RawInstallationDetailItem| r@),
        }
    }
}

impl View for InstallationDetailItem {
    type V = ResolvedInstallation;

    open spec fn view(&self) -> ResolvedInstallation {
        ResolvedInstallation {
            name: self.name@,
            description: self.description@,
            os: self.os,
            arch: self.arch,
            id: self.id@,
            kind: self.kind,
            source: self.source@,
            post_install: optional_text(self.post_install),
        }
    }
}

/// The operating system that a host's name for itself stands for, if any.
pub open spec fn os_named(name: Seq<char>) -> Option<OS> {
    if name == "macos"@ {
        Some(OS::MacOS)
    } else if name == "linux"@ {
        Some(OS::Linux)
    } else if name == "windows"@ {
        Some(OS::Windows)
    } else {
        None
    }
}

/// The architecture that a host's name for its processor stands for, if any.
pub open spec fn arch_named(name: Seq<char>) -> Option<Arch> {
    if name == "aarch64"@ {
        Some(Arch::Aarch64)
    } else if name == "x86_64"@ {
        Some(Arch::X86_64)
    } else {
        None
    }
}

/// The name under which the manifest writes a kind of delivery.
pub open spec fn kind_name(kind: Type) -> Seq<char> {
    match kind {
        Type::Dmg => "dmg"@,
        Type::Shell => "shell"@,
        Type::Zip => "zip"@,
        Type::Exe => "exe"@,
        Type::Deb => "deb"@,
    }
}

impl Type {
    /// The name under which the manifest writes this kind of delivery.
    pub fn name(&self) -> (text: &'static str)
        ensures
            text@ == kind_name(*self),
    {
        match self {
            Type::Dmg => "dmg",
            Type::Shell => "shell",
            Type::Zip => "zip",
            Type::Exe => "exe",
            Type::Deb => "deb",
        }
    }
}

/// The sentence that reports a host error.
pub open spec fn host_error_message(error: HostError) -> Seq<char> {
    match error {
        HostError::UnsupportedOs(name) => "Unsupported OS "@ + name@,
        HostError::UnsupportedArch(name) => "Unsupported Arch "@ + name@,
    }
}

impl HostError {
    /// The sentence that reports this error.
    pub fn message(&self) -> (text: String)
        ensures
            text@ == host_error_message(*self),
    {
        match self {
            HostError::UnsupportedOs(name) => {
                let mut text = String::from_str("Unsupported OS ");
                text.append(name.as_str());
                text
            },
            HostError::UnsupportedArch(name) => {
                let mut text = String::from_str("Unsupported Arch ");
                text.append(name.as_str());
                text
            },
        }
    }
}

impl OS {
    /// Reads an operating system from its lower-case name. Any other text is
    /// refused, and the error carries it.
    pub fn from_str(s: &str) -> (parsed: Result<OS, HostError>)
        ensures
            os_named(s@) matches Some(os) ==> parsed == Ok::<OS, HostError>(os),
            os_named(s@) is None ==> (parsed matches Err(HostError::UnsupportedOs(text)) && text@
                == s@),
    {
        if text_eq(s, "macos") {
            Ok(OS::MacOS)
        } else if text_eq(s, "linux") {
            Ok(OS::Linux)
        } else if text_eq(s, "windows") {
            Ok(OS::Windows)
        } else {
            Err(HostError::UnsupportedOs(s.to_owned()))
        }
    }
}

impl Arch {
    /// Reads an architecture from its lower-case name. Any other text is
    /// refused, and the error carries it.
    pub fn from_str(s: &str) -> (parsed: Result<Arch, HostError>)
        ensures
            arch_named(s@) matches Some(arch) ==> parsed == Ok::<Arch, HostError>(arch),
            arch_named(s@) is None ==> (parsed matches Err(HostError::UnsupportedArch(text))
                && text@ == s@),
    {
        if text_eq(s, "aarch64") {
            Ok(Arch::Aarch64)
        } else if text_eq(s, "x86_64") {
            Ok(Arch::X86_64)
        } else {
            Err(HostError::UnsupportedArch(s.to_owned()))
        }
    }
}

} // verus!
