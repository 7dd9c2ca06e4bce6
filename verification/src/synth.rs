//! Deterministic synthesis of the two configuration artifacts: the
//! build-settings document and the build-profile document.

use vstd::prelude::*;
use vstd::string::StringExecFns;
use crate::config::OptimizerConfig;
use crate::system::{Architecture, OperatingSystem, SystemInfo};
use crate::textfmt::{append_decimal, dec_str};

verus! {

/// The generated documents: a settings document and a profile document.
#[derive(Debug, Clone)]
pub struct SynthesizedArtifact {
    pub settings_doc: String,
    pub profile_doc: String,
}

/// The heading of the settings document.
pub open spec fn spec_settings_intro() -> Seq<char> {
    "# Cargo Configuration for Optimized Builds\n"@ + "# Generated by rust-build-optimizer\n\n"@
}

/// The global build section, carrying the effective parallelism.
pub open spec fn spec_build_section(jobs: nat) -> Seq<char> {
    "[build]\n"@ + "jobs = "@ + dec_str(jobs) + "\n"@ + "target-dir = \"target\"\n"@
        + "pipelining = true\n\n"@
}

/// The environment section: incremental compilation on or off, and an
/// analyzer-scoped output redirection when configured.
pub open spec fn spec_env_section(c: OptimizerConfig) -> Seq<char> {
    "[env]\n"@ + (if c.build.separate_rust_analyzer_target {
        "CARGO_TARGET_DIR = { value = \"target/rust-analyzer\", condition = \"cfg(rust_analyzer)\" }\n"@
    } else {
        Seq::<char>::empty()
    }) + "CARGO_INCREMENTAL = \""@ + (if c.build.incremental {
        "1"@
    } else {
        "0"@
    }) + "\"\n"@ + "CARGO_PROFILE_DEV_INCREMENTAL = \"true\"\n"@ + "CARGO_BUILD_CACHE = \"1\"\n"@
        + "CARGO_NET_RETRY = \"3\"\n"@ + "CARGO_NET_GIT_FETCH_WITH_CLI = \"true\"\n\n"@
}

/// The target block for macOS on 64-bit ARM: system linker, moderate
/// codegen-unit count, dead-code stripping.
pub open spec fn spec_target_block_mac_arm(target_cpu: Seq<char>) -> Seq<char> {
    "[target.aarch64-apple-darwin]\n"@ + "rustflags = [\n"@ + "    \"-C\", \"target-cpu="@
        + target_cpu + "\",\n"@ + "    \"-C\", \"codegen-units=16\",\n"@
        + "    \"-C\", \"link-arg=-Wl,-dead_strip\",\n"@
        + "    \"-C\", \"link-arg=-Wl,-no_compact_unwind\",\n"@ + "]\n\n"@
}

/// The target block for macOS on other architectures: the C compiler as
/// linker driver with a fast linker, single codegen unit.
pub open spec fn spec_target_block_mac_x86(target_cpu: Seq<char>) -> Seq<char> {
    "[target.x86_64-apple-darwin]\n"@ + "linker = \"clang\"\n"@ + "rustflags = [\n"@
        + "    \"-C\", \"link-arg=-fuse-ld=/usr/local/bin/zld\",\n"@
        + "    \"-C\", \"target-cpu="@ + target_cpu + "\",\n"@
        + "    \"-C\", \"codegen-units=1\",\n"@ + "]\n\n"@
}

/// The target block for Linux: the C compiler as linker driver with a fast
/// linker, single codegen unit.
pub open spec fn spec_target_block_linux(target_cpu: Seq<char>) -> Seq<char> {
    "[target.x86_64-unknown-linux-gnu]\n"@ + "linker = \"clang\"\n"@ + "rustflags = [\n"@
        + "    \"-C\", \"link-arg=-fuse-ld=mold\",\n"@ + "    \"-C\", \"target-cpu="@
        + target_cpu + "\",\n"@ + "    \"-C\", \"codegen-units=1\",\n"@ + "]\n\n"@
}

/// The platform-conditional linker block: present only when the fast linker
/// is requested and the rule table recommends one, and keyed on the
/// platform pair; platforms without a dedicated block emit nothing.
pub open spec fn spec_linker_section(c: OptimizerConfig, s: SystemInfo) -> Seq<char> {
    if c.build.use_fast_linker && s.spec_recommended_linker() is Some {
        match (s.os, s.arch) {
            (OperatingSystem::MacOS, Architecture::Aarch64) => spec_target_block_mac_arm(
                c.build.target_cpu@,
            ),
            (OperatingSystem::MacOS, _) => spec_target_block_mac_x86(c.build.target_cpu@),
            (OperatingSystem::Linux, _) => spec_target_block_linux(c.build.target_cpu@),
            _ => Seq::<char>::empty(),
        }
    } else {
        Seq::<char>::empty()
    }
}

/// The fixed registry and network settings, constant across platforms.
pub open spec fn spec_registry_section() -> Seq<char> {
    "[registries.crates-io]\n"@ + "protocol = \"sparse\"\n\n"@ + "[net]\n"@ + "retry = 3\n"@
        + "git-fetch-with-cli = true\n"@
}

/// The whole settings document, in fixed section order.
pub open spec fn spec_settings_doc(c: OptimizerConfig, s: SystemInfo) -> Seq<char> {
    spec_settings_intro() + spec_build_section(c.spec_effective_parallel_jobs(s) as nat)
        + spec_env_section(c) + spec_linker_section(c, s) + spec_registry_section()
}

fn append_build_section(out: &mut String, jobs: usize)
    ensures
        final(out)@ == old(out)@ + spec_build_section(jobs as nat),
{
    out.append("[build]\n");
    out.append("jobs = ");
    append_decimal(out, jobs as u64);
    out.append("\n");
    out.append("target-dir = \"target\"\n");
    out.append("pipelining = true\n\n");
    proof {
        assert(out@ =~= old(out)@ + spec_build_section(jobs as nat));
    }
}

fn append_env_section(out: &mut String, c: &OptimizerConfig)
    ensures
        final(out)@ == old(out)@ + spec_env_section(*c),
{
    out.append("[env]\n");
    if c.build.separate_rust_analyzer_target {
        out.append(
            "CARGO_TARGET_DIR = { value = \"target/rust-analyzer\", condition = \"cfg(rust_analyzer)\" }\n",
        );
    }
    out.append("CARGO_INCREMENTAL = \"");
    if c.build.incremental {
        out.append("1");
    } else {
        out.append("0");
    }
    out.append("\"\n");
    out.append("CARGO_PROFILE_DEV_INCREMENTAL = \"true\"\n");
    out.append("CARGO_BUILD_CACHE = \"1\"\n");
    out.append("CARGO_NET_RETRY = \"3\"\n");
    out.append("CARGO_NET_GIT_FETCH_WITH_CLI = \"true\"\n\n");
    proof {
        assert(out@ =~= old(out)@ + spec_env_section(*c));
    }
}

fn append_linker_section(out: &mut String, c: &OptimizerConfig, s: &SystemInfo)
    ensures
        final(out)@ == old(out)@ + spec_linker_section(*c, *s),
{
    if c.build.use_fast_linker {
        if s.get_recommended_linker().is_some() {
            match (&s.os, &s.arch) {
                (OperatingSystem::MacOS, Architecture::Aarch64) => {
                    out.append("[target.aarch64-apple-darwin]\n");
                    out.append("rustflags = [\n");
                    out.append("    \"-C\", \"target-cpu=");
                    out.append(c.build.target_cpu.as_str());
                    out.append("\",\n");
                    out.append("    \"-C\", \"codegen-units=16\",\n");
                    out.append("    \"-C\", \"link-arg=-Wl,-dead_strip\",\n");
                    out.append("    \"-C\", \"link-arg=-Wl,-no_compact_unwind\",\n");
                    out.append("]\n\n");
                },
                (OperatingSystem::MacOS, _) => {
                    out.append("[target.x86_64-apple-darwin]\n");
                    out.append("linker = \"clang\"\n");
                    out.append("rustflags = [\n");
                    out.append("    \"-C\", \"link-arg=-fuse-ld=/usr/local/bin/zld\",\n");
                    out.append("    \"-C\", \"target-cpu=");
                    out.append(c.build.target_cpu.as_str());
                    out.append("\",\n");
                    out.append("    \"-C\", \"codegen-units=1\",\n");
                    out.append("]\n\n");
                },
                (OperatingSystem::Linux, _) => {
                    out.append("[target.x86_64-unknown-linux-gnu]\n");
                    out.append("linker = \"clang\"\n");
                    out.append("rustflags = [\n");
                    out.append("    \"-C\", \"link-arg=-fuse-ld=mold\",\n");
                    out.append("    \"-C\", \"target-cpu=");
                    out.append(c.build.target_cpu.as_str());
                    out.append("\",\n");
                    out.append("    \"-C\", \"codegen-units=1\",\n");
                    out.append("]\n\n");
                },
                _ => {},
            }
        }
    }
    proof {
        assert(out@ =~= old(out)@ + spec_linker_section(*c, *s));
    }
}

fn append_registry_section(out: &mut String)
    ensures
        final(out)@ == old(out)@ + spec_registry_section(),
{
    out.append("[registries.crates-io]\n");
    out.append("protocol = \"sparse\"\n\n");
    out.append("[net]\n");
    out.append("retry = 3\n");
    out.append("git-fetch-with-cli = true\n");
    proof {
        assert(out@ =~= old(out)@ + spec_registry_section());
    }
}

/// Generate Cargo configuration content.
pub fn generate_cargo_config(config: &OptimizerConfig, system_info: &SystemInfo) -> (content:
    String)
    ensures
        content@ == spec_settings_doc(*config, *system_info),
{
    let mut content = String::new();
    content.append("# Cargo Configuration for Optimized Builds\n");
    content.append("# Generated by rust-build-optimizer\n\n");
    let jobs = config.get_effective_parallel_jobs(system_info);
    append_build_section(&mut content, jobs);
    append_env_section(&mut content, config);
    append_linker_section(&mut content, config, system_info);
    append_registry_section(&mut content);
    proof {
        assert(content@ =~= spec_settings_doc(*config, *system_info));
    }
    content
}

/// The heading that opens the profile document.
pub open spec fn spec_profiles_heading() -> Seq<char> {
    "# Optimized build profiles for better performance and faster compilation\n"@
}

/// The section header that marks a development profile; the merge guard
/// scans for exactly this text.
pub open spec fn spec_profile_marker() -> Seq<char> {
    "[profile.dev]"@
}

/// The body of the development profile: compile speed over runtime speed.
pub open spec fn spec_dev_profile_body() -> Seq<char> {
    "# Enable incremental compilation for faster rebuilds\nincremental = true\n# Optimize for compilation speed in development\nopt-level = 0\n# Enable debug info for better debugging experience\ndebug = true\n# Reduce binary size in development\nstrip = false\n# Use more codegen units for faster parallel compilation\ncodegen-units = 512\n# Enable overflow checks in development\noverflow-checks = true\n# Enable debug assertions\ndebug-assertions = true\n# Faster compilation with less optimization\nlto = false\n# Enable panic unwinding for better error messages\npanic = \"unwind\"\n\n"@
}

/// The development override for third-party packages: optimized, without
/// debug info.
pub open spec fn spec_dev_package_override() -> Seq<char> {
    "[profile.dev.package.\"*\"]\n# Optimize dependencies even in dev mode for better performance\nopt-level = 3\n# Disable debug info for dependencies to speed up compilation\ndebug = false\n\n"@
}

/// The release profile: runtime performance over compile speed, overflow
/// checks retained.
pub open spec fn spec_release_profile() -> Seq<char> {
    "[profile.release]\n# Maximum optimization for production builds\nopt-level = 3\n# Disable debug info in release builds\ndebug = false\n# Strip symbols to reduce binary size\nstrip = \"symbols\"\n# Use single codegen unit for better optimization\ncodegen-units = 1\n# Enable Link Time Optimization for better performance\nlto = \"thin\"\n# Enable overflow checks even in release (security)\noverflow-checks = true\n# Disable debug assertions in release\ndebug-assertions = false\n# Abort on panic for smaller binary size\npanic = \"abort\"\n\n"@
}

/// The release variant that keeps debug info, for profiling.
pub open spec fn spec_release_with_debug_profile() -> Seq<char> {
    "[profile.release-with-debug]\n# Release profile with debug info for profiling\ninherits = \"release\"\ndebug = true\nstrip = false\n\n"@
}

/// The fast test-compilation profile, inheriting from development.
pub open spec fn spec_test_profile() -> Seq<char> {
    "[profile.test]\n# Optimized profile for testing\ninherits = \"dev\"\nopt-level = 1\n# Faster test compilation\n"@
        + "codegen-units = 512\n"@
}

/// The whole profile document: the four named profiles with the package
/// override, under a recognizable heading.
pub open spec fn spec_profiles_doc() -> Seq<char> {
    spec_profiles_heading() + spec_profile_marker() + "\n"@ + spec_dev_profile_body()
        + spec_dev_package_override() + spec_release_profile() + spec_release_with_debug_profile()
        + spec_test_profile()
}

/// Generate optimized Cargo.toml profiles.
pub fn generate_cargo_profiles() -> (content: String)
    ensures
        content@ == spec_profiles_doc(),
{
    let mut content = String::new();
    content.append("# Optimized build profiles for better performance and faster compilation\n");
    content.append("[profile.dev]");
    content.append("\n");
    content.append(
        "# Enable incremental compilation for faster rebuilds\nincremental = true\n# Optimize for compilation speed in development\nopt-level = 0\n# Enable debug info for better debugging experience\ndebug = true\n# Reduce binary size in development\nstrip = false\n# Use more codegen units for faster parallel compilation\ncodegen-units = 512\n# Enable overflow checks in development\noverflow-checks = true\n# Enable debug assertions\ndebug-assertions = true\n# Faster compilation with less optimization\nlto = false\n# Enable panic unwinding for better error messages\npanic = \"unwind\"\n\n",
    );
    content.append(
        "[profile.dev.package.\"*\"]\n# Optimize dependencies even in dev mode for better performance\nopt-level = 3\n# Disable debug info for dependencies to speed up compilation\ndebug = false\n\n",
    );
    content.append(
        "[profile.release]\n# Maximum optimization for production builds\nopt-level = 3\n# Disable debug info in release builds\ndebug = false\n# Strip symbols to reduce binary size\nstrip = \"symbols\"\n# Use single codegen unit for better optimization\ncodegen-units = 1\n# Enable Link Time Optimization for better performance\nlto = \"thin\"\n# Enable overflow checks even in release (security)\noverflow-checks = true\n# Disable debug assertions in release\ndebug-assertions = false\n# Abort on panic for smaller binary size\npanic = \"abort\"\n\n",
    );
    content.append(
        "[profile.release-with-debug]\n# Release profile with debug info for profiling\ninherits = \"release\"\ndebug = true\nstrip = false\n\n",
    );
    content.append(
        "[profile.test]\n# Optimized profile for testing\ninherits = \"dev\"\nopt-level = 1\n# Faster test compilation\n",
    );
    content.append("codegen-units = 512\n");
    proof {
        assert(content@ =~= spec_profiles_doc());
    }
    content
}

/// Produces both artifacts for a configuration and a snapshot.  The
/// contracts pin each document to a function of the inputs alone, so
/// synthesis is deterministic.
pub fn synthesize(config: &OptimizerConfig, system_info: &SystemInfo) -> (a: SynthesizedArtifact)
    ensures
        a.settings_doc@ == spec_settings_doc(*config, *system_info),
        a.profile_doc@ == spec_profiles_doc(),
{
    SynthesizedArtifact {
        settings_doc: generate_cargo_config(config, system_info),
        profile_doc: generate_cargo_profiles(),
    }
}

/// The profile document is nonempty and ends with a newline, so appending
/// it leaves a well-terminated manifest.
pub proof fn lemma_profiles_doc_ends_with_newline()
    ensures
        spec_profiles_doc().len() > 0,
        spec_profiles_doc().last() == '\n',
{
    let last_chunk = "codegen-units = 512\n"@;
    reveal_strlit("codegen-units = 512\n");
    assert(last_chunk.len() > 0 && last_chunk.last() == '\n');
    let tail = spec_test_profile();
    assert(tail.last() == last_chunk.last());
    assert(spec_profiles_doc().last() == tail.last());
}

/// Determinism law: any two artifacts synthesized from the same
/// configuration and snapshot are byte-identical, document for document.
pub proof fn lemma_synthesize_deterministic(
    c: OptimizerConfig,
    s: SystemInfo,
    a1: SynthesizedArtifact,
    a2: SynthesizedArtifact,
)
    requires
        a1.settings_doc@ == spec_settings_doc(c, s),
        a1.profile_doc@ == spec_profiles_doc(),
        a2.settings_doc@ == spec_settings_doc(c, s),
        a2.profile_doc@ == spec_profiles_doc(),
    ensures
        a1.settings_doc@ == a2.settings_doc@,
        a1.profile_doc@ == a2.profile_doc@,
{
}

} // verus!
