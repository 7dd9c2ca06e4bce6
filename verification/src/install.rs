//! Decision tables for tool installation: which strategy a tool name maps
//! to, and which commands carry it out on a given platform.  Running the
//! commands is the caller's business; everything decided here is pure.

use vstd::prelude::*;
use vstd::string::StringExecFns;
use crate::error::OptimizerError;
use crate::system::{Architecture, OperatingSystem, SystemInfo};
use crate::text::str_eq;

verus! {

/// One executable invocation: a program and its arguments.
#[derive(Debug, Clone)]
pub struct CommandSpec {
    pub program: String,
    pub args: Vec<String>,
}

/// How to install one tool.
///
/// `Single(c)` runs `c`; its failure is the installation's failure.
/// `WithFallback(first, second)` runs `first` and, only when it fails,
/// `second`.  `UpdateThenInstall(update, install, fallback)` runs `update`
/// first: when it succeeds, `install` decides the outcome; when it fails,
/// `fallback` decides it.
#[derive(Debug, Clone)]
pub enum InstallPlan {
    Single(CommandSpec),
    WithFallback(CommandSpec, CommandSpec),
    UpdateThenInstall(CommandSpec, CommandSpec, CommandSpec),
}

/// The installation strategy a tool name selects.
#[derive(Debug, Clone, Copy, PartialEq, Eq, Structural)]
pub enum InstallStrategy {
    Sccache,
    CargoTool,
    Mold,
    Zld,
    Lld,
}

/// A command, described at the specification level.
pub struct CmdShape {
    pub program: Seq<char>,
    pub args: Seq<Seq<char>>,
}

/// An installation plan, described at the specification level.
pub enum PlanShape {
    Single(CmdShape),
    WithFallback(CmdShape, CmdShape),
    UpdateThenInstall(CmdShape, CmdShape, CmdShape),
}

/// An installation failure, described at the specification level.
pub enum ErrShape {
    ToolNotFound(Seq<char>),
    Unsupported(Seq<char>),
}

pub open spec fn cmd_matches(c: CommandSpec, d: CmdShape) -> bool {
    c.program@ == d.program && c.args.deep_view() == d.args
}

pub open spec fn plan_matches(p: InstallPlan, d: PlanShape) -> bool {
    match (p, d) {
        (InstallPlan::Single(c), PlanShape::Single(dc)) => cmd_matches(c, dc),
        (InstallPlan::WithFallback(c1, c2), PlanShape::WithFallback(d1, d2)) => cmd_matches(c1, d1)
            && cmd_matches(c2, d2),
        (
            InstallPlan::UpdateThenInstall(c1, c2, c3),
            PlanShape::UpdateThenInstall(d1, d2, d3),
        ) => cmd_matches(c1, d1) && cmd_matches(c2, d2) && cmd_matches(c3, d3),
        _ => false,
    }
}

pub open spec fn err_matches(e: OptimizerError, d: ErrShape) -> bool {
    match d {
        ErrShape::ToolNotFound(m) => e matches OptimizerError::ToolNotFound(s) && s@ == m,
        ErrShape::Unsupported(m) => e matches OptimizerError::UnsupportedPlatform(s) && s@ == m,
    }
}

/// The strategy each known tool name selects; unknown names select none.
pub open spec fn spec_installer_for(tool: Seq<char>) -> Option<InstallStrategy> {
    if tool == "sccache"@ {
        Some(InstallStrategy::Sccache)
    } else if tool == "cargo-nextest"@ || tool == "cargo-udeps"@ || tool == "cargo-hakari"@ || tool
        == "cargo-watch"@ || tool == "cargo-expand"@ || tool == "cargo-bloat"@ {
        Some(InstallStrategy::CargoTool)
    } else if tool == "mold"@ {
        Some(InstallStrategy::Mold)
    } else if tool == "zld"@ {
        Some(InstallStrategy::Zld)
    } else if tool == "lld"@ {
        Some(InstallStrategy::Lld)
    } else {
        None
    }
}

/// Maps a tool name to its installation strategy; an unknown name is a
/// tool-not-found error naming the tool.
pub fn installer_for(tool: &str) -> (r: Result<InstallStrategy, OptimizerError>)
    ensures
        match spec_installer_for(tool@) {
            Some(strategy) => r == Ok::<InstallStrategy, OptimizerError>(strategy),
            None => (r matches Err(e) && e matches OptimizerError::ToolNotFound(m) && m@
                == "Unknown tool: "@ + tool@),
        },
{
    if str_eq(tool, "sccache") {
        Ok(InstallStrategy::Sccache)
    } else if str_eq(tool, "cargo-nextest") || str_eq(tool, "cargo-udeps") || str_eq(
        tool,
        "cargo-hakari",
    ) || str_eq(tool, "cargo-watch") || str_eq(tool, "cargo-expand") || str_eq(
        tool,
        "cargo-bloat",
    ) {
        Ok(InstallStrategy::CargoTool)
    } else if str_eq(tool, "mold") {
        Ok(InstallStrategy::Mold)
    } else if str_eq(tool, "zld") {
        Ok(InstallStrategy::Zld)
    } else if str_eq(tool, "lld") {
        Ok(InstallStrategy::Lld)
    } else {
        let mut m = "Unknown tool: ".to_owned();
        m.append(tool);
        Err(OptimizerError::ToolNotFound(m))
    }
}

fn cmd2(program: &str, a0: &str, a1: &str) -> (c: CommandSpec)
    ensures
        cmd_matches(c, CmdShape { program: program@, args: seq![a0@, a1@] }),
{
    let c = CommandSpec {
        program: program.to_owned(),
        args: vec![a0.to_owned(), a1.to_owned()],
    };
    proof {
        assert(c.args.deep_view() =~= seq![a0@, a1@]);
    }
    c
}

fn cmd3(program: &str, a0: &str, a1: &str, a2: &str) -> (c: CommandSpec)
    ensures
        cmd_matches(c, CmdShape { program: program@, args: seq![a0@, a1@, a2@] }),
{
    let c = CommandSpec {
        program: program.to_owned(),
        args: vec![a0.to_owned(), a1.to_owned(), a2.to_owned()],
    };
    proof {
        assert(c.args.deep_view() =~= seq![a0@, a1@, a2@]);
    }
    c
}

fn cmd4(program: &str, a0: &str, a1: &str, a2: &str, a3: &str) -> (c: CommandSpec)
    ensures
        cmd_matches(c, CmdShape { program: program@, args: seq![a0@, a1@, a2@, a3@] }),
{
    let c = CommandSpec {
        program: program.to_owned(),
        args: vec![a0.to_owned(), a1.to_owned(), a2.to_owned(), a3.to_owned()],
    };
    proof {
        assert(c.args.deep_view() =~= seq![a0@, a1@, a2@, a3@]);
    }
    c
}

/// The shape of `cargo install <tool> --locked`.
pub open spec fn spec_cargo_install(tool: Seq<char>) -> CmdShape {
    CmdShape { program: "cargo"@, args: seq!["install"@, tool, "--locked"@] }
}

/// The plan for installing a compile cache, per platform: the platform's
/// package manager where one is known, falling back to a cargo
/// installation.
pub open spec fn spec_sccache_plan(os: OperatingSystem, pm: Option<Seq<char>>) -> PlanShape {
    let cargo = spec_cargo_install("sccache"@);
    match os {
        OperatingSystem::MacOS => PlanShape::Single(
            CmdShape { program: "brew"@, args: seq!["install"@, "sccache"@] },
        ),
        OperatingSystem::Linux => {
            if pm == Some("apt"@) {
                PlanShape::UpdateThenInstall(
                    CmdShape { program: "sudo"@, args: seq!["apt-get"@, "update"@] },
                    CmdShape {
                        program: "sudo"@,
                        args: seq!["apt-get"@, "install"@, "-y"@, "sccache"@],
                    },
                    cargo,
                )
            } else if pm == Some("yum"@) {
                PlanShape::WithFallback(
                    CmdShape { program: "sudo"@, args: seq!["yum"@, "install"@, "-y"@, "sccache"@] },
                    cargo,
                )
            } else if pm == Some("pacman"@) {
                PlanShape::WithFallback(
                    CmdShape {
                        program: "sudo"@,
                        args: seq!["pacman"@, "-S"@, "--noconfirm"@, "sccache"@],
                    },
                    cargo,
                )
            } else {
                PlanShape::Single(cargo)
            }
        },
        OperatingSystem::Windows => PlanShape::WithFallback(
            CmdShape { program: "winget"@, args: seq!["install"@, "Mozilla.sccache"@] },
            cargo,
        ),
        OperatingSystem::Unknown(_) => PlanShape::Single(cargo),
    }
}

/// The plan for installing the Linux fast linker: package manager only.
pub open spec fn spec_mold_plan(os: OperatingSystem, pm: Option<Seq<char>>) -> Result<
    PlanShape,
    ErrShape,
> {
    match os {
        OperatingSystem::Linux => {
            if pm == Some("apt"@) {
                Ok(
                    PlanShape::Single(
                        CmdShape {
                            program: "sudo"@,
                            args: seq!["apt-get"@, "install"@, "-y"@, "mold"@],
                        },
                    ),
                )
            } else if pm == Some("yum"@) {
                Ok(
                    PlanShape::Single(
                        CmdShape {
                            program: "sudo"@,
                            args: seq!["yum"@, "install"@, "-y"@, "mold"@],
                        },
                    ),
                )
            } else if pm == Some("pacman"@) {
                Ok(
                    PlanShape::Single(
                        CmdShape {
                            program: "sudo"@,
                            args: seq!["pacman"@, "-S"@, "--noconfirm"@, "mold"@],
                        },
                    ),
                )
            } else if pm is Some {
                Err(ErrShape::Unsupported("Package manager not supported for mold installation"@))
            } else {
                Err(ErrShape::Unsupported("No package manager found for mold installation"@))
            }
        },
        _ => Err(ErrShape::Unsupported("mold is only available on Linux"@)),
    }
}

/// The plan for installing the macOS fast linker.
pub open spec fn spec_zld_plan(os: OperatingSystem) -> Result<PlanShape, ErrShape> {
    match os {
        OperatingSystem::MacOS => Ok(
            PlanShape::Single(CmdShape { program: "brew"@, args: seq!["install"@, "zld"@] }),
        ),
        _ => Err(ErrShape::Unsupported("zld is only available on macOS"@)),
    }
}

/// The plan for installing the LLVM linker, per platform.
pub open spec fn spec_lld_plan(os: OperatingSystem, pm: Option<Seq<char>>) -> Result<
    PlanShape,
    ErrShape,
> {
    match os {
        OperatingSystem::MacOS => Ok(
            PlanShape::Single(CmdShape { program: "brew"@, args: seq!["install"@, "llvm"@] }),
        ),
        OperatingSystem::Linux => {
            if pm == Some("apt"@) {
                Ok(
                    PlanShape::Single(
                        CmdShape {
                            program: "sudo"@,
                            args: seq!["apt-get"@, "install"@, "-y"@, "lld"@],
                        },
                    ),
                )
            } else if pm == Some("yum"@) {
                Ok(
                    PlanShape::Single(
                        CmdShape { program: "sudo"@, args: seq!["yum"@, "install"@, "-y"@, "lld"@] },
                    ),
                )
            } else if pm == Some("pacman"@) {
                Ok(
                    PlanShape::Single(
                        CmdShape {
                            program: "sudo"@,
                            args: seq!["pacman"@, "-S"@, "--noconfirm"@, "lld"@],
                        },
                    ),
                )
            } else if pm is Some {
                Err(ErrShape::Unsupported("Package manager not supported for lld installation"@))
            } else {
                Err(ErrShape::Unsupported("No package manager found for lld installation"@))
            }
        },
        OperatingSystem::Windows => Ok(
            PlanShape::Single(CmdShape { program: "winget"@, args: seq!["install"@, "LLVM.LLVM"@] }),
        ),
        OperatingSystem::Unknown(_) => Err(
            ErrShape::Unsupported("lld installation not supported on this platform"@),
        ),
    }
}

/// The whole decision table: what installing `tool` on `os` with the given
/// package manager means.
pub open spec fn spec_install_plan(
    tool: Seq<char>,
    os: OperatingSystem,
    pm: Option<Seq<char>>,
) -> Result<PlanShape, ErrShape> {
    match spec_installer_for(tool) {
        None => Err(ErrShape::ToolNotFound("Unknown tool: "@ + tool)),
        Some(InstallStrategy::Sccache) => Ok(spec_sccache_plan(os, pm)),
        Some(InstallStrategy::CargoTool) => Ok(PlanShape::Single(spec_cargo_install(tool))),
        Some(InstallStrategy::Mold) => spec_mold_plan(os, pm),
        Some(InstallStrategy::Zld) => spec_zld_plan(os),
        Some(InstallStrategy::Lld) => spec_lld_plan(os, pm),
    }
}

/// The specification-level reading of an optional package-manager name.
pub open spec fn spec_pm(pm: Option<&str>) -> Option<Seq<char>> {
    match pm {
        Some(p) => Some(p@),
        None => None,
    }
}

fn sccache_plan(os: &OperatingSystem, pm: Option<&str>) -> (r: InstallPlan)
    ensures
        plan_matches(r, spec_sccache_plan(*os, spec_pm(pm))),
{
    match os {
        OperatingSystem::MacOS => InstallPlan::Single(cmd2("brew", "install", "sccache")),
        OperatingSystem::Linux => {
            match pm {
                Some(p) => {
                    if str_eq(p, "apt") {
                        InstallPlan::UpdateThenInstall(
                            cmd2("sudo", "apt-get", "update"),
                            cmd4("sudo", "apt-get", "install", "-y", "sccache"),
                            cmd3("cargo", "install", "sccache", "--locked"),
                        )
                    } else if str_eq(p, "yum") {
                        InstallPlan::WithFallback(
                            cmd4("sudo", "yum", "install", "-y", "sccache"),
                            cmd3("cargo", "install", "sccache", "--locked"),
                        )
                    } else if str_eq(p, "pacman") {
                        InstallPlan::WithFallback(
                            cmd4("sudo", "pacman", "-S", "--noconfirm", "sccache"),
                            cmd3("cargo", "install", "sccache", "--locked"),
                        )
                    } else {
                        InstallPlan::Single(cmd3("cargo", "install", "sccache", "--locked"))
                    }
                },
                None => InstallPlan::Single(cmd3("cargo", "install", "sccache", "--locked")),
            }
        },
        OperatingSystem::Windows => InstallPlan::WithFallback(
            cmd2("winget", "install", "Mozilla.sccache"),
            cmd3("cargo", "install", "sccache", "--locked"),
        ),
        OperatingSystem::Unknown(_) => InstallPlan::Single(
            cmd3("cargo", "install", "sccache", "--locked"),
        ),
    }
}

fn mold_plan(os: &OperatingSystem, pm: Option<&str>) -> (r: Result<InstallPlan, OptimizerError>)
    ensures
        match (r, spec_mold_plan(*os, spec_pm(pm))) {
            (Ok(p), Ok(d)) => plan_matches(p, d),
            (Err(e), Err(d)) => err_matches(e, d),
            _ => false,
        },
{
    match os {
        OperatingSystem::Linux => {
            match pm {
                Some(p) => {
                    if str_eq(p, "apt") {
                        Ok(InstallPlan::Single(cmd4("sudo", "apt-get", "install", "-y", "mold")))
                    } else if str_eq(p, "yum") {
                        Ok(InstallPlan::Single(cmd4("sudo", "yum", "install", "-y", "mold")))
                    } else if str_eq(p, "pacman") {
                        Ok(InstallPlan::Single(cmd4("sudo", "pacman", "-S", "--noconfirm", "mold")))
                    } else {
                        Err(
                            OptimizerError::unsupported_platform(
                                "Package manager not supported for mold installation",
                            ),
                        )
                    }
                },
                None => Err(
                    OptimizerError::unsupported_platform(
                        "No package manager found for mold installation",
                    ),
                ),
            }
        },
        _ => Err(OptimizerError::unsupported_platform("mold is only available on Linux")),
    }
}

fn lld_plan(os: &OperatingSystem, pm: Option<&str>) -> (r: Result<InstallPlan, OptimizerError>)
    ensures
        match (r, spec_lld_plan(*os, spec_pm(pm))) {
            (Ok(p), Ok(d)) => plan_matches(p, d),
            (Err(e), Err(d)) => err_matches(e, d),
            _ => false,
        },
{
    match os {
        OperatingSystem::MacOS => Ok(InstallPlan::Single(cmd2("brew", "install", "llvm"))),
        OperatingSystem::Linux => {
            match pm {
                Some(p) => {
                    if str_eq(p, "apt") {
                        Ok(InstallPlan::Single(cmd4("sudo", "apt-get", "install", "-y", "lld")))
                    } else if str_eq(p, "yum") {
                        Ok(InstallPlan::Single(cmd4("sudo", "yum", "install", "-y", "lld")))
                    } else if str_eq(p, "pacman") {
                        Ok(InstallPlan::Single(cmd4("sudo", "pacman", "-S", "--noconfirm", "lld")))
                    } else {
                        Err(
                            OptimizerError::unsupported_platform(
                                "Package manager not supported for lld installation",
                            ),
                        )
                    }
                },
                None => Err(
                    OptimizerError::unsupported_platform(
                        "No package manager found for lld installation",
                    ),
                ),
            }
        },
        OperatingSystem::Windows => Ok(InstallPlan::Single(cmd2("winget", "install", "LLVM.LLVM"))),
        OperatingSystem::Unknown(_) => Err(
            OptimizerError::unsupported_platform("lld installation not supported on this platform"),
        ),
    }
}

/// Decides how to install `tool` on the platform `os` with the given
/// package manager, without running anything.
pub fn plan_install(tool: &str, os: &OperatingSystem, pm: Option<&str>) -> (r: Result<
    InstallPlan,
    OptimizerError,
>)
    ensures
        match (r, spec_install_plan(tool@, *os, spec_pm(pm))) {
            (Ok(p), Ok(d)) => plan_matches(p, d),
            (Err(e), Err(d)) => err_matches(e, d),
            _ => false,
        },
{
    let strategy = match installer_for(tool) {
        Ok(s) => s,
        Err(e) => {
            return Err(e);
        },
    };
    match strategy {
        InstallStrategy::Sccache => Ok(sccache_plan(os, pm)),
        InstallStrategy::CargoTool => Ok(
            InstallPlan::Single(
                {
                    let c = CommandSpec {
                        program: "cargo".to_owned(),
                        args: vec!["install".to_owned(), tool.to_owned(), "--locked".to_owned()],
                    };
                    proof {
                        assert(c.args.deep_view() =~= seq!["install"@, tool@, "--locked"@]);
                    }
                    c
                },
            ),
        ),
        InstallStrategy::Mold => mold_plan(os, pm),
        InstallStrategy::Zld => {
            match os {
                OperatingSystem::MacOS => Ok(InstallPlan::Single(cmd2("brew", "install", "zld"))),
                _ => Err(OptimizerError::unsupported_platform("zld is only available on macOS")),
            }
        },
        InstallStrategy::Lld => lld_plan(os, pm),
    }
}

/// The tools recommended for a platform: the preferred set, plus the
/// platform's fast linker where the rule table names an installable one.
pub open spec fn spec_recommended_tools(os: OperatingSystem, arch: Architecture) -> Seq<Seq<char>> {
    let base = seq!["sccache"@, "cargo-nextest"@, "cargo-udeps"@, "cargo-hakari"@, "cargo-watch"@];
    match os {
        OperatingSystem::MacOS => {
            if arch == Architecture::X86_64 {
                base.push("zld"@)
            } else {
                base
            }
        },
        OperatingSystem::Linux => base.push("mold"@),
        OperatingSystem::Windows => base.push("lld"@),
        OperatingSystem::Unknown(_) => base,
    }
}

/// Lists the recommended tools for the snapshot's platform.
pub fn get_recommended_tools(system_info: &SystemInfo) -> (r: Vec<String>)
    ensures
        r.deep_view() == spec_recommended_tools(system_info.os, system_info.arch),
{
    let mut tools: Vec<String> = vec![
        "sccache".to_owned(),
        "cargo-nextest".to_owned(),
        "cargo-udeps".to_owned(),
        "cargo-hakari".to_owned(),
        "cargo-watch".to_owned(),
    ];
    proof {
        assert(tools.deep_view() =~= seq![
            "sccache"@,
            "cargo-nextest"@,
            "cargo-udeps"@,
            "cargo-hakari"@,
            "cargo-watch"@,
        ]);
    }
    match &system_info.os {
        OperatingSystem::MacOS => {
            if matches!(&system_info.arch, Architecture::X86_64) {
                tools.push("zld".to_owned());
            }
        },
        OperatingSystem::Linux => {
            tools.push("mold".to_owned());
        },
        OperatingSystem::Windows => {
            tools.push("lld".to_owned());
        },
        OperatingSystem::Unknown(_) => {},
    }
    proof {
        assert(tools.deep_view() =~= spec_recommended_tools(system_info.os, system_info.arch));
    }
    tools
}

/// Whether the platform supports the named tool at all: the two dedicated
/// fast linkers are platform-bound, everything else is cross-platform.
pub open spec fn spec_tool_supported(tool: Seq<char>, os: OperatingSystem) -> bool {
    if tool == "mold"@ {
        os is Linux
    } else if tool == "zld"@ {
        os is MacOS
    } else {
        true
    }
}

pub fn is_tool_supported(tool: &str, system_info: &SystemInfo) -> (r: bool)
    ensures
        r == spec_tool_supported(tool@, system_info.os),
{
    if str_eq(tool, "mold") {
        matches!(&system_info.os, OperatingSystem::Linux)
    } else if str_eq(tool, "zld") {
        matches!(&system_info.os, OperatingSystem::MacOS)
    } else {
        true
    }
}

} // verus!
