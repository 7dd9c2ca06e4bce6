//! The host-system model: an immutable snapshot of the capabilities that
//! drive configuration synthesis, and the classification rules that build it.

use vstd::prelude::*;
use vstd::string::StringExecFns;
use crate::text::str_eq;

verus! {

#[derive(Debug, Clone, PartialEq)]
pub enum OperatingSystem {
    MacOS,
    Linux,
    Windows,
    Unknown(String),
}

#[derive(Debug, Clone, PartialEq)]
pub enum Architecture {
    X86_64,
    Aarch64,
    Unknown(String),
}

/// One entry of the auxiliary-tool catalog, with its detected status.
#[derive(Debug, Clone)]
pub struct AvailableTool {
    pub name: String,
    pub version: Option<String>,
    pub path: Option<String>,
    pub is_installed: bool,
}

/// An immutable snapshot of the host: platform, parallelism, detected
/// toolchain versions and auxiliary tools.
#[derive(Debug, Clone)]
pub struct SystemInfo {
    pub os: OperatingSystem,
    pub arch: Architecture,
    pub cpu_cores: usize,
    pub rust_version: Option<String>,
    pub cargo_version: Option<String>,
    pub available_tools: Vec<AvailableTool>,
}

/// How a platform identifier classifies: the three known systems by their
/// exact identifier, anything else preserved verbatim in the catch-all.
pub open spec fn os_matches(os: OperatingSystem, name: Seq<char>) -> bool {
    if name == "macos"@ {
        os == OperatingSystem::MacOS
    } else if name == "linux"@ {
        os == OperatingSystem::Linux
    } else if name == "windows"@ {
        os == OperatingSystem::Windows
    } else {
        os matches OperatingSystem::Unknown(raw) && raw@ == name
    }
}

/// How an architecture identifier classifies.
pub open spec fn arch_matches(arch: Architecture, name: Seq<char>) -> bool {
    if name == "x86_64"@ {
        arch == Architecture::X86_64
    } else if name == "aarch64"@ {
        arch == Architecture::Aarch64
    } else {
        arch matches Architecture::Unknown(raw) && raw@ == name
    }
}

/// Classifies a platform identifier (as the running platform reports it)
/// into the operating-system variant; unrecognized names are kept verbatim.
pub fn classify_os(name: &str) -> (os: OperatingSystem)
    ensures
        os_matches(os, name@),
{
    if str_eq(name, "macos") {
        OperatingSystem::MacOS
    } else if str_eq(name, "linux") {
        OperatingSystem::Linux
    } else if str_eq(name, "windows") {
        OperatingSystem::Windows
    } else {
        OperatingSystem::Unknown(name.to_owned())
    }
}

/// Classifies a CPU-architecture identifier; unrecognized names are kept
/// verbatim.
pub fn classify_arch(name: &str) -> (arch: Architecture)
    ensures
        arch_matches(arch, name@),
{
    if str_eq(name, "x86_64") {
        Architecture::X86_64
    } else if str_eq(name, "aarch64") {
        Architecture::Aarch64
    } else {
        Architecture::Unknown(name.to_owned())
    }
}

/// Relies on num_cpus::get: the number of logical CPUs available to this
/// process, which is always at least one.
#[verifier::external_body]
fn cpu_core_count() -> (n: usize)
    ensures
        n >= 1,
{
    num_cpus::get()
}

/// Relies on which::which: the full path of the named executable when it is
/// found on the search path, and nothing otherwise.  The outcome depends on
/// the live environment, so nothing is promised of it.
#[verifier::external_body]
fn tool_lookup(name: &str) -> (r: Option<String>) {
    match which::which(name) {
        Ok(path) => Some(path.to_string_lossy().to_string()),
        Err(_) => None,
    }
}

/// Check if a tool is available in PATH.
pub fn is_tool_available(tool: &str) -> bool {
    tool_lookup(tool).is_some()
}

impl AvailableTool {
    /// The snapshot invariant: a tool that is not installed carries neither
    /// a path nor a version.
    pub open spec fn wf(self) -> bool {
        !self.is_installed ==> self.path is None && self.version is None
    }

    /// Builds a catalog entry from probe results, establishing the
    /// invariant: absence discards any stray path or version.
    pub fn new(
        name: String,
        path: Option<String>,
        version: Option<String>,
        is_installed: bool,
    ) -> (t: AvailableTool)
        ensures
            t.wf(),
            t.name == name,
            t.is_installed == is_installed,
            is_installed ==> t.path == path && t.version == version,
            !is_installed ==> t.path is None && t.version is None,
    {
        if is_installed {
            AvailableTool { name, version, path, is_installed: true }
        } else {
            AvailableTool { name, version: None, path: None, is_installed: false }
        }
    }
}

impl SystemInfo {
    /// The snapshot invariant: a positive core count, well-formed tool
    /// entries, and at most one entry per tool name.
    pub open spec fn wf(self) -> bool {
        &&& self.cpu_cores >= 1
        &&& forall|i: int|
            0 <= i < self.available_tools@.len() ==> (#[trigger] self.available_tools@[i]).wf()
        &&& forall|i: int, j: int|
            0 <= i < j < self.available_tools@.len() ==> (#[trigger] self.available_tools@[i]).name@
                != (#[trigger] self.available_tools@[j]).name@
    }

    /// Assembles a snapshot from probe results: the platform identifiers
    /// are classified, the core count is read from the live host, and the
    /// probed versions and tools are taken as handed in.
    pub fn assemble(
        os_name: &str,
        arch_name: &str,
        rust_version: Option<String>,
        cargo_version: Option<String>,
        available_tools: Vec<AvailableTool>,
    ) -> (r: SystemInfo)
        requires
            forall|i: int|
                0 <= i < available_tools@.len() ==> (#[trigger] available_tools@[i]).wf(),
            forall|i: int, j: int|
                0 <= i < j < available_tools@.len() ==> (#[trigger] available_tools@[i]).name@ != (
                #[trigger] available_tools@[j]).name@,
        ensures
            r.wf(),
            os_matches(r.os, os_name@),
            arch_matches(r.arch, arch_name@),
            r.cpu_cores >= 1,
            r.rust_version == rust_version,
            r.cargo_version == cargo_version,
            r.available_tools == available_tools,
    {
        SystemInfo {
            os: classify_os(os_name),
            arch: classify_arch(arch_name),
            cpu_cores: cpu_core_count(),
            rust_version,
            cargo_version,
            available_tools,
        }
    }

    /// The linker the platform rule table recommends, by name.
    pub open spec fn spec_recommended_linker(self) -> Option<Seq<char>> {
        match (self.os, self.arch) {
            (OperatingSystem::MacOS, Architecture::Aarch64) => Some("system"@),
            (OperatingSystem::MacOS, _) => Some("zld"@),
            (OperatingSystem::Linux, _) => Some("mold"@),
            (OperatingSystem::Windows, _) => Some("lld"@),
            _ => None,
        }
    }

    /// The recommended fast linker for this platform, when one exists.
    pub fn get_recommended_linker(&self) -> (r: Option<&'static str>)
        ensures
            match r {
                Some(l) => self.spec_recommended_linker() == Some(l@),
                None => self.spec_recommended_linker() is None,
            },
    {
        match (&self.os, &self.arch) {
            (OperatingSystem::MacOS, Architecture::Aarch64) => Some("system"),
            (OperatingSystem::MacOS, _) => Some("zld"),
            (OperatingSystem::Linux, _) => Some("mold"),
            (OperatingSystem::Windows, _) => Some("lld"),
            _ => None,
        }
    }

    /// Whether the platform rule table recommends a fast linker at all.
    pub fn supports_fast_linker(&self) -> (r: bool)
        ensures
            r == (self.spec_recommended_linker() is Some),
    {
        self.get_recommended_linker().is_some()
    }

    /// The package manager to install system tools with.  Fixed per platform
    /// except on Linux, where the distribution is probed on the live system:
    /// there the result is one of the three known managers, or none.
    pub fn get_package_manager(&self) -> (r: Option<&'static str>)
        ensures
            self.os is MacOS ==> (r matches Some(p) && p@ == "brew"@),
            self.os is Windows ==> (r matches Some(p) && p@ == "winget"@),
            self.os is Unknown ==> r is None,
            self.os is Linux ==> match r {
                Some(p) => p@ == "apt"@ || p@ == "yum"@ || p@ == "pacman"@,
                None => true,
            },
    {
        match &self.os {
            OperatingSystem::MacOS => Some("brew"),
            OperatingSystem::Linux => {
                if tool_lookup("apt-get").is_some() {
                    Some("apt")
                } else if tool_lookup("yum").is_some() {
                    Some("yum")
                } else if tool_lookup("pacman").is_some() {
                    Some("pacman")
                } else {
                    None
                }
            },
            OperatingSystem::Windows => Some("winget"),
            OperatingSystem::Unknown(_) => None,
        }
    }

    /// The first catalog entry carrying the given name, when one exists.
    pub fn get_tool(&self, name: &str) -> (r: Option<&AvailableTool>)
        ensures
            match r {
                Some(t) => exists|i: int|
                    0 <= i < self.available_tools@.len() && self.available_tools@[i] == *t
                        && t.name@ == name@ && (forall|j: int|
                        0 <= j < i ==> (#[trigger] self.available_tools@[j]).name@ != name@),
                None => forall|i: int|
                    0 <= i < self.available_tools@.len() ==> (
                    #[trigger] self.available_tools@[i]).name@ != name@,
            },
    {
        let mut i: usize = 0;
        while i < self.available_tools.len()
            invariant
                i <= self.available_tools@.len(),
                forall|j: int|
                    0 <= j < i ==> (#[trigger] self.available_tools@[j]).name@ != name@,
            decreases self.available_tools@.len() - i,
        {
            if str_eq(self.available_tools[i].name.as_str(), name) {
                return Some(&self.available_tools[i]);
            }
            i = i + 1;
        }
        None
    }

    /// Whether the first catalog entry of this name reports the tool
    /// installed; unknown names count as not installed.
    pub open spec fn spec_tool_installed(self, name: Seq<char>) -> bool {
        exists|i: int|
            0 <= i < self.available_tools@.len() && (#[trigger] self.available_tools@[i]).name@
                == name && self.available_tools@[i].is_installed && (forall|j: int|
                0 <= j < i ==> (#[trigger] self.available_tools@[j]).name@ != name)
    }

    /// Whether the named tool was detected as installed.
    pub fn is_tool_installed(&self, name: &str) -> (r: bool)
        ensures
            r == self.spec_tool_installed(name@),
    {
        match self.get_tool(name) {
            Some(tool) => {
                let installed = tool.is_installed;
                proof {
                    if installed {
                        assert(self.spec_tool_installed(name@));
                    } else {
                        if self.spec_tool_installed(name@) {
                            let i1 = choose|i: int|
                                0 <= i < self.available_tools@.len() && (
                                #[trigger] self.available_tools@[i]).name@ == name@
                                    && self.available_tools@[i].is_installed && (forall|j: int|
                                    0 <= j < i ==> (#[trigger] self.available_tools@[j]).name@
                                        != name@);
                            let i2 = choose|i: int|
                                0 <= i < self.available_tools@.len()
                                    && self.available_tools@[i] == *tool && tool.name@ == name@ && (
                                forall|j: int|
                                    0 <= j < i ==> (#[trigger] self.available_tools@[j]).name@
                                        != name@);
                            assert(i1 == i2);
                        }
                    }
                }
                installed
            },
            None => {
                proof {
                    if self.spec_tool_installed(name@) {
                        let i1 = choose|i: int|
                            0 <= i < self.available_tools@.len() && (
                            #[trigger] self.available_tools@[i]).name@ == name@;
                        assert(false);
                    }
                }
                false
            },
        }
    }
}

/// The names of the fixed catalog of auxiliary tools that a probe checks
/// for, in catalog order.
pub open spec fn spec_tool_catalog() -> Seq<Seq<char>> {
    seq![
        "sccache"@,
        "cargo-nextest"@,
        "cargo-udeps"@,
        "cargo-hakari"@,
        "cargo-watch"@,
        "cargo-expand"@,
        "cargo-bloat"@,
        "lld"@,
        "mold"@,
        "zld"@,
        "clang"@,
        "gcc"@,
    ]
}

/// The fixed catalog of auxiliary tool names a probe checks for.
pub fn tool_catalog() -> (r: Vec<String>)
    ensures
        r.deep_view() == spec_tool_catalog(),
{
    let r: Vec<String> = vec![
        "sccache".to_owned(),
        "cargo-nextest".to_owned(),
        "cargo-udeps".to_owned(),
        "cargo-hakari".to_owned(),
        "cargo-watch".to_owned(),
        "cargo-expand".to_owned(),
        "cargo-bloat".to_owned(),
        "lld".to_owned(),
        "mold".to_owned(),
        "zld".to_owned(),
        "clang".to_owned(),
        "gcc".to_owned(),
    ];
    proof {
        assert(r.deep_view() =~= spec_tool_catalog());
    }
    r
}

/// The arguments that query a tool's version: every catalog tool answers
/// to the conventional version flag; no query is known for other names.
pub fn version_query_args(tool: &str) -> (r: Option<Vec<String>>)
    ensures
        match r {
            Some(args) => spec_tool_catalog().contains(tool@) && args.deep_view() == seq![
                "--version"@,
            ],
            None => !spec_tool_catalog().contains(tool@),
        },
{
    let catalog = tool_catalog();
    let mut i: usize = 0;
    let mut known = false;
    while !known && i < catalog.len()
        invariant
            catalog.deep_view() == spec_tool_catalog(),
            i <= catalog@.len(),
            known ==> spec_tool_catalog().contains(tool@),
            !known ==> (forall|j: int| 0 <= j < i ==> spec_tool_catalog()[j] != tool@),
        decreases catalog@.len() - i + (if known { 0int } else { 1int }),
    {
        if str_eq(catalog[i].as_str(), tool) {
            proof {
                assert(spec_tool_catalog()[i as int] == tool@);
            }
            known = true;
        } else {
            i = i + 1;
        }
    }
    if known {
        let args: Vec<String> = vec!["--version".to_owned()];
        proof {
            assert(args.deep_view() =~= seq!["--version"@]);
        }
        Some(args)
    } else {
        proof {
            if spec_tool_catalog().contains(tool@) {
                let j = choose|j: int|
                    0 <= j < spec_tool_catalog().len() && spec_tool_catalog()[j] == tool@;
                assert(spec_tool_catalog()[j] != tool@);
            }
        }
        None
    }
}

/// The operating-system variant as text, for reporting.
impl OperatingSystem {
    pub open spec fn spec_describe(self) -> Seq<char> {
        match self {
            OperatingSystem::MacOS => "macOS"@,
            OperatingSystem::Linux => "Linux"@,
            OperatingSystem::Windows => "Windows"@,
            OperatingSystem::Unknown(raw) => "Unknown ("@ + raw@ + ")"@,
        }
    }

    /// Renders the variant as text.
    pub fn describe(&self) -> (s: String)
        ensures
            s@ == self.spec_describe(),
    {
        match self {
            OperatingSystem::MacOS => "macOS".to_owned(),
            OperatingSystem::Linux => "Linux".to_owned(),
            OperatingSystem::Windows => "Windows".to_owned(),
            OperatingSystem::Unknown(raw) => {
                let mut s = "Unknown (".to_owned();
                s.append(raw.as_str());
                s.append(")");
                s
            },
        }
    }
}

/// The architecture variant as text, for reporting.
impl Architecture {
    pub open spec fn spec_describe(self) -> Seq<char> {
        match self {
            Architecture::X86_64 => "x86_64"@,
            Architecture::Aarch64 => "aarch64"@,
            Architecture::Unknown(raw) => "Unknown ("@ + raw@ + ")"@,
        }
    }

    /// Renders the variant as text.
    pub fn describe(&self) -> (s: String)
        ensures
            s@ == self.spec_describe(),
    {
        match self {
            Architecture::X86_64 => "x86_64".to_owned(),
            Architecture::Aarch64 => "aarch64".to_owned(),
            Architecture::Unknown(raw) => {
                let mut s = "Unknown (".to_owned();
                s.append(raw.as_str());
                s.append(")");
                s
            },
        }
    }
}

} // verus!
