//! Deterministic synthesis of the settings and profile documents.

use rust_build_optimizer::config::OptimizerConfig;
use rust_build_optimizer::synth::{generate_cargo_config, generate_cargo_profiles, synthesize};
use rust_build_optimizer::system::{Architecture, OperatingSystem, SystemInfo};
use rust_build_optimizer::textfmt::format_duration;

fn snapshot(os: OperatingSystem, arch: Architecture, cpu_cores: usize) -> SystemInfo {
    SystemInfo {
        os,
        arch,
        cpu_cores,
        rust_version: None,
        cargo_version: None,
        available_tools: vec![],
    }
}

#[test]
fn synthesis_is_deterministic() {
    let c = OptimizerConfig::default();
    let s = snapshot(OperatingSystem::Linux, Architecture::X86_64, 4);
    let a1 = synthesize(&c, &s);
    let a2 = synthesize(&c, &s);
    assert_eq!(a1.settings_doc, a2.settings_doc);
    assert_eq!(a1.profile_doc, a2.profile_doc);
    assert_eq!(generate_cargo_config(&c, &s), generate_cargo_config(&c, &s));
    assert_eq!(generate_cargo_profiles(), generate_cargo_profiles());
}

#[test]
fn effective_parallelism_prefers_the_setting() {
    let mut c = OptimizerConfig::default();
    let s = snapshot(OperatingSystem::Linux, Architecture::X86_64, 8);
    c.build.parallel_jobs = None;
    assert_eq!(c.get_effective_parallel_jobs(&s), 8);
    c.build.parallel_jobs = Some(3);
    assert_eq!(c.get_effective_parallel_jobs(&s), 3);
}

#[test]
fn settings_doc_carries_the_effective_jobs() {
    let c = OptimizerConfig::default();
    let s = snapshot(OperatingSystem::Linux, Architecture::X86_64, 8);
    let doc = generate_cargo_config(&c, &s);
    assert!(doc.contains("[build]\njobs = 8\n"));
}

#[test]
fn mac_arm_uses_the_system_linker() {
    let c = OptimizerConfig::default();
    let s = snapshot(OperatingSystem::MacOS, Architecture::Aarch64, 8);
    let doc = generate_cargo_config(&c, &s);
    assert!(doc.contains("[target.aarch64-apple-darwin]"));
    assert!(doc.contains("codegen-units=16"));
    assert!(doc.contains("link-arg=-Wl,-dead_strip"));
    // The system linker branch names no explicit linker.
    assert!(!doc.contains("linker = "));
}

#[test]
fn linux_uses_the_fast_linker() {
    let c = OptimizerConfig::default();
    let s = snapshot(OperatingSystem::Linux, Architecture::X86_64, 8);
    let doc = generate_cargo_config(&c, &s);
    assert!(doc.contains("[target.x86_64-unknown-linux-gnu]"));
    assert!(doc.contains("linker = \"clang\""));
    assert!(doc.contains("link-arg=-fuse-ld=mold"));
    assert!(doc.contains("target-cpu=native"));
    assert!(doc.contains("codegen-units=1"));
}

#[test]
fn mac_x86_uses_the_fast_linker() {
    let c = OptimizerConfig::default();
    let s = snapshot(OperatingSystem::MacOS, Architecture::X86_64, 8);
    let doc = generate_cargo_config(&c, &s);
    assert!(doc.contains("[target.x86_64-apple-darwin]"));
    assert!(doc.contains("link-arg=-fuse-ld=/usr/local/bin/zld"));
}

#[test]
fn unknown_platform_omits_the_linker_block() {
    let c = OptimizerConfig::default();
    assert!(c.build.use_fast_linker);
    let s = snapshot(
        OperatingSystem::Unknown("freebsd".to_string()),
        Architecture::X86_64,
        8,
    );
    let doc = generate_cargo_config(&c, &s);
    assert!(!doc.contains("[target."));
    // The fixed sections are still emitted.
    assert!(doc.contains("[registries.crates-io]\nprotocol = \"sparse\"\n"));
    assert!(doc.contains("[net]\nretry = 3\ngit-fetch-with-cli = true\n"));
}

#[test]
fn fast_linker_can_be_disabled() {
    let mut c = OptimizerConfig::default();
    c.build.use_fast_linker = false;
    let s = snapshot(OperatingSystem::Linux, Architecture::X86_64, 8);
    let doc = generate_cargo_config(&c, &s);
    assert!(!doc.contains("[target."));
}

#[test]
fn env_section_follows_the_configuration() {
    let mut c = OptimizerConfig::default();
    let s = snapshot(OperatingSystem::Linux, Architecture::X86_64, 8);
    let doc = generate_cargo_config(&c, &s);
    assert!(doc.contains("CARGO_INCREMENTAL = \"1\"\n"));
    assert!(doc.contains(
        "CARGO_TARGET_DIR = { value = \"target/rust-analyzer\", condition = \"cfg(rust_analyzer)\" }\n"
    ));
    c.build.incremental = false;
    c.build.separate_rust_analyzer_target = false;
    let doc2 = generate_cargo_config(&c, &s);
    assert!(doc2.contains("CARGO_INCREMENTAL = \"0\"\n"));
    assert!(!doc2.contains("CARGO_TARGET_DIR"));
}

#[test]
fn profiles_doc_holds_the_four_profiles() {
    let doc = generate_cargo_profiles();
    assert!(doc.starts_with(
        "# Optimized build profiles for better performance and faster compilation\n[profile.dev]\n"
    ));
    assert_eq!(doc.matches("[profile.dev]").count(), 1);
    assert!(doc.contains("[profile.dev.package.\"*\"]"));
    assert!(doc.contains("[profile.release]"));
    assert!(doc.contains("[profile.release-with-debug]"));
    assert!(doc.contains("[profile.test]"));
    assert!(doc.contains("panic = \"unwind\""));
    assert!(doc.contains("panic = \"abort\""));
    assert!(doc.contains("lto = \"thin\""));
    assert!(doc.contains("strip = \"symbols\""));
    assert!(doc.ends_with("codegen-units = 512\n"));
}

#[test]
fn test_format_duration() {
    assert_eq!(format_duration(500), "500ms");
    assert_eq!(format_duration(1000), "1.0s");
    assert_eq!(format_duration(65000), "1m 5s");
}

#[test]
fn durations_cover_each_shape() {
    assert_eq!(format_duration(0), "0ms");
    assert_eq!(format_duration(999), "999ms");
    assert_eq!(format_duration(1500), "1.5s");
    assert_eq!(format_duration(59999), "59.9s");
    assert_eq!(format_duration(60000), "1m 0s");
    assert_eq!(format_duration(3600000), "60m 0s");
}
