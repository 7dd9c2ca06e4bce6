//! The system snapshot: classification, the platform rule tables, the tool
//! catalog, and install planning.

use rust_build_optimizer::install::{
    get_recommended_tools, installer_for, is_tool_supported, plan_install, CommandSpec,
    InstallPlan, InstallStrategy,
};
use rust_build_optimizer::error::OptimizerError;
use rust_build_optimizer::system::{
    classify_arch, classify_os, is_tool_available, tool_catalog, version_query_args, Architecture,
    AvailableTool, OperatingSystem, SystemInfo,
};

fn snapshot(os: OperatingSystem, arch: Architecture) -> SystemInfo {
    SystemInfo {
        os,
        arch,
        cpu_cores: 4,
        rust_version: Some("rustc 1.75.0".to_string()),
        cargo_version: Some("cargo 1.75.0".to_string()),
        available_tools: vec![],
    }
}

#[test]
fn platform_identifiers_classify() {
    assert_eq!(classify_os("macos"), OperatingSystem::MacOS);
    assert_eq!(classify_os("linux"), OperatingSystem::Linux);
    assert_eq!(classify_os("windows"), OperatingSystem::Windows);
    assert_eq!(
        classify_os("freebsd"),
        OperatingSystem::Unknown("freebsd".to_string())
    );
    assert_eq!(classify_arch("x86_64"), Architecture::X86_64);
    assert_eq!(classify_arch("aarch64"), Architecture::Aarch64);
    assert_eq!(
        classify_arch("riscv64"),
        Architecture::Unknown("riscv64".to_string())
    );
}

#[test]
fn platform_variants_describe_themselves() {
    assert_eq!(OperatingSystem::MacOS.describe(), "macOS");
    assert_eq!(OperatingSystem::Linux.describe(), "Linux");
    assert_eq!(OperatingSystem::Windows.describe(), "Windows");
    assert_eq!(
        OperatingSystem::Unknown("freebsd".to_string()).describe(),
        "Unknown (freebsd)"
    );
    assert_eq!(Architecture::X86_64.describe(), "x86_64");
    assert_eq!(Architecture::Aarch64.describe(), "aarch64");
    assert_eq!(
        Architecture::Unknown("riscv64".to_string()).describe(),
        "Unknown (riscv64)"
    );
}

#[test]
fn linker_rule_table() {
    let mac_arm = snapshot(OperatingSystem::MacOS, Architecture::Aarch64);
    assert_eq!(mac_arm.get_recommended_linker(), Some("system"));
    let mac_x86 = snapshot(OperatingSystem::MacOS, Architecture::X86_64);
    assert_eq!(mac_x86.get_recommended_linker(), Some("zld"));
    let linux = snapshot(OperatingSystem::Linux, Architecture::X86_64);
    assert_eq!(linux.get_recommended_linker(), Some("mold"));
    let windows = snapshot(OperatingSystem::Windows, Architecture::X86_64);
    assert_eq!(windows.get_recommended_linker(), Some("lld"));
    let other = snapshot(
        OperatingSystem::Unknown("freebsd".to_string()),
        Architecture::X86_64,
    );
    assert_eq!(other.get_recommended_linker(), None);
    assert!(mac_arm.supports_fast_linker());
    assert!(!other.supports_fast_linker());
}

#[test]
fn tool_entries_keep_their_invariant() {
    let installed = AvailableTool::new(
        "mold".to_string(),
        Some("/usr/bin/mold".to_string()),
        Some("mold 2.0".to_string()),
        true,
    );
    assert!(installed.is_installed);
    assert_eq!(installed.path.as_deref(), Some("/usr/bin/mold"));
    assert_eq!(installed.version.as_deref(), Some("mold 2.0"));
    // Absence discards any stray path or version.
    let absent = AvailableTool::new(
        "zld".to_string(),
        Some("/stray/path".to_string()),
        Some("stray".to_string()),
        false,
    );
    assert!(!absent.is_installed);
    assert_eq!(absent.path, None);
    assert_eq!(absent.version, None);
}

#[test]
fn tool_lookup_finds_the_first_entry() {
    let mut s = snapshot(OperatingSystem::Linux, Architecture::X86_64);
    s.available_tools = vec![
        AvailableTool::new("sccache".to_string(), None, None, false),
        AvailableTool::new(
            "mold".to_string(),
            Some("/usr/bin/mold".to_string()),
            None,
            true,
        ),
    ];
    assert!(s.get_tool("missing").is_none());
    let mold = s.get_tool("mold").expect("catalog entry");
    assert_eq!(mold.path.as_deref(), Some("/usr/bin/mold"));
    assert!(s.is_tool_installed("mold"));
    assert!(!s.is_tool_installed("sccache"));
    assert!(!s.is_tool_installed("missing"));
}

#[test]
fn catalog_lists_the_fixed_tools() {
    let catalog = tool_catalog();
    assert_eq!(
        catalog,
        vec![
            "sccache",
            "cargo-nextest",
            "cargo-udeps",
            "cargo-hakari",
            "cargo-watch",
            "cargo-expand",
            "cargo-bloat",
            "lld",
            "mold",
            "zld",
            "clang",
            "gcc",
        ]
    );
}

#[test]
fn version_queries_cover_the_catalog_only() {
    assert_eq!(version_query_args("sccache"), Some(vec!["--version".to_string()]));
    assert_eq!(version_query_args("gcc"), Some(vec!["--version".to_string()]));
    assert_eq!(version_query_args("not-a-tool"), None);
}

#[test]
fn lookup_tolerates_missing_executables() {
    // The probe itself promises nothing about the live machine; this only
    // exercises that an absurd name does not disturb it.
    let _ = is_tool_available("surely-not-an-installed-tool-name");
}

#[test]
fn strategies_follow_the_tool_name() {
    assert!(matches!(installer_for("sccache"), Ok(InstallStrategy::Sccache)));
    assert!(matches!(installer_for("cargo-nextest"), Ok(InstallStrategy::CargoTool)));
    assert!(matches!(installer_for("cargo-bloat"), Ok(InstallStrategy::CargoTool)));
    assert!(matches!(installer_for("mold"), Ok(InstallStrategy::Mold)));
    assert!(matches!(installer_for("zld"), Ok(InstallStrategy::Zld)));
    assert!(matches!(installer_for("lld"), Ok(InstallStrategy::Lld)));
    match installer_for("frobnicator") {
        Err(OptimizerError::ToolNotFound(m)) => assert_eq!(m, "Unknown tool: frobnicator"),
        other => panic!("expected tool-not-found, got {:?}", other),
    }
}

fn assert_cmd(c: &CommandSpec, program: &str, args: &[&str]) {
    assert_eq!(c.program, program);
    assert_eq!(c.args, args);
}

#[test]
fn install_plans_follow_the_platform() {
    // A cargo-distributed tool installs through cargo everywhere.
    match plan_install("cargo-watch", &OperatingSystem::Windows, None) {
        Ok(InstallPlan::Single(c)) => {
            assert_cmd(&c, "cargo", &["install", "cargo-watch", "--locked"])
        }
        other => panic!("unexpected plan: {:?}", other),
    }
    // The compile cache prefers the platform package manager.
    match plan_install("sccache", &OperatingSystem::MacOS, Some("brew")) {
        Ok(InstallPlan::Single(c)) => assert_cmd(&c, "brew", &["install", "sccache"]),
        other => panic!("unexpected plan: {:?}", other),
    }
    match plan_install("sccache", &OperatingSystem::Linux, Some("apt")) {
        Ok(InstallPlan::UpdateThenInstall(update, install, fallback)) => {
            assert_cmd(&update, "sudo", &["apt-get", "update"]);
            assert_cmd(&install, "sudo", &["apt-get", "install", "-y", "sccache"]);
            assert_cmd(&fallback, "cargo", &["install", "sccache", "--locked"]);
        }
        other => panic!("unexpected plan: {:?}", other),
    }
    match plan_install("sccache", &OperatingSystem::Linux, Some("yum")) {
        Ok(InstallPlan::WithFallback(first, second)) => {
            assert_cmd(&first, "sudo", &["yum", "install", "-y", "sccache"]);
            assert_cmd(&second, "cargo", &["install", "sccache", "--locked"]);
        }
        other => panic!("unexpected plan: {:?}", other),
    }
    match plan_install("sccache", &OperatingSystem::Linux, None) {
        Ok(InstallPlan::Single(c)) => {
            assert_cmd(&c, "cargo", &["install", "sccache", "--locked"])
        }
        other => panic!("unexpected plan: {:?}", other),
    }
    match plan_install("sccache", &OperatingSystem::Windows, None) {
        Ok(InstallPlan::WithFallback(first, second)) => {
            assert_cmd(&first, "winget", &["install", "Mozilla.sccache"]);
            assert_cmd(&second, "cargo", &["install", "sccache", "--locked"]);
        }
        other => panic!("unexpected plan: {:?}", other),
    }
}

#[test]
fn linker_install_plans_are_platform_bound() {
    match plan_install("mold", &OperatingSystem::Linux, Some("pacman")) {
        Ok(InstallPlan::Single(c)) => {
            assert_cmd(&c, "sudo", &["pacman", "-S", "--noconfirm", "mold"])
        }
        other => panic!("unexpected plan: {:?}", other),
    }
    match plan_install("mold", &OperatingSystem::MacOS, Some("brew")) {
        Err(OptimizerError::UnsupportedPlatform(m)) => {
            assert_eq!(m, "mold is only available on Linux")
        }
        other => panic!("expected unsupported platform, got {:?}", other),
    }
    match plan_install("mold", &OperatingSystem::Linux, None) {
        Err(OptimizerError::UnsupportedPlatform(m)) => {
            assert_eq!(m, "No package manager found for mold installation")
        }
        other => panic!("expected unsupported platform, got {:?}", other),
    }
    match plan_install("zld", &OperatingSystem::MacOS, Some("brew")) {
        Ok(InstallPlan::Single(c)) => assert_cmd(&c, "brew", &["install", "zld"]),
        other => panic!("unexpected plan: {:?}", other),
    }
    match plan_install("zld", &OperatingSystem::Linux, Some("apt")) {
        Err(OptimizerError::UnsupportedPlatform(m)) => {
            assert_eq!(m, "zld is only available on macOS")
        }
        other => panic!("expected unsupported platform, got {:?}", other),
    }
    match plan_install("lld", &OperatingSystem::Windows, None) {
        Ok(InstallPlan::Single(c)) => assert_cmd(&c, "winget", &["install", "LLVM.LLVM"]),
        other => panic!("unexpected plan: {:?}", other),
    }
    match plan_install("lld", &OperatingSystem::MacOS, Some("brew")) {
        Ok(InstallPlan::Single(c)) => assert_cmd(&c, "brew", &["install", "llvm"]),
        other => panic!("unexpected plan: {:?}", other),
    }
    match plan_install(
        "lld",
        &OperatingSystem::Unknown("plan9".to_string()),
        None,
    ) {
        Err(OptimizerError::UnsupportedPlatform(m)) => {
            assert_eq!(m, "lld installation not supported on this platform")
        }
        other => panic!("expected unsupported platform, got {:?}", other),
    }
}

#[test]
fn recommended_tools_add_the_platform_linker() {
    let base = vec![
        "sccache".to_string(),
        "cargo-nextest".to_string(),
        "cargo-udeps".to_string(),
        "cargo-hakari".to_string(),
        "cargo-watch".to_string(),
    ];
    let linux = snapshot(OperatingSystem::Linux, Architecture::X86_64);
    let mut expected = base.clone();
    expected.push("mold".to_string());
    assert_eq!(get_recommended_tools(&linux), expected);

    let mac_x86 = snapshot(OperatingSystem::MacOS, Architecture::X86_64);
    let mut expected = base.clone();
    expected.push("zld".to_string());
    assert_eq!(get_recommended_tools(&mac_x86), expected);

    // The ARM Mac needs no extra linker.
    let mac_arm = snapshot(OperatingSystem::MacOS, Architecture::Aarch64);
    assert_eq!(get_recommended_tools(&mac_arm), base);

    let windows = snapshot(OperatingSystem::Windows, Architecture::X86_64);
    let mut expected = base.clone();
    expected.push("lld".to_string());
    assert_eq!(get_recommended_tools(&windows), expected);

    let other = snapshot(
        OperatingSystem::Unknown("freebsd".to_string()),
        Architecture::X86_64,
    );
    assert_eq!(get_recommended_tools(&other), base);
}

#[test]
fn platform_support_is_linker_specific() {
    let linux = snapshot(OperatingSystem::Linux, Architecture::X86_64);
    let mac = snapshot(OperatingSystem::MacOS, Architecture::Aarch64);
    assert!(is_tool_supported("mold", &linux));
    assert!(!is_tool_supported("mold", &mac));
    assert!(is_tool_supported("zld", &mac));
    assert!(!is_tool_supported("zld", &linux));
    assert!(is_tool_supported("sccache", &linux));
    assert!(is_tool_supported("sccache", &mac));
}
