//! The user-tunable configuration schema, its documented defaults, and the
//! bounded validation rules.

use vstd::prelude::*;
use vstd::string::StringExecFns;
use crate::error::{OptimizerError, OptimizerResult};
use crate::system::SystemInfo;

verus! {

#[derive(Debug, Clone)]
pub struct OptimizerConfig {
    pub build: BuildConfig,
    pub tools: ToolsConfig,
    pub optimization: OptimizationConfig,
    pub development: DevelopmentConfig,
}

#[derive(Debug, Clone)]
pub struct BuildConfig {
    pub parallel_jobs: Option<usize>,
    pub incremental: bool,
    pub target_cpu: String,
    pub use_fast_linker: bool,
    pub separate_rust_analyzer_target: bool,
    pub enable_sccache: bool,
}

#[derive(Debug, Clone)]
pub struct ToolsConfig {
    pub auto_install: bool,
    pub preferred_tools: Vec<String>,
    pub install_timeout_seconds: u64,
}

#[derive(Debug, Clone)]
pub struct OptimizationConfig {
    pub clean_old_artifacts: bool,
    pub artifact_retention_days: u32,
    pub check_unused_deps: bool,
    pub optimize_profiles: bool,
}

#[derive(Debug, Clone)]
pub struct DevelopmentConfig {
    pub watch_mode_enabled: bool,
    pub watch_paths: Vec<String>,
    pub auto_test_on_change: bool,
    pub quick_check_on_save: bool,
}

/// The tools preferred by default, in preference order.
pub open spec fn spec_default_preferred_tools() -> Seq<Seq<char>> {
    seq!["sccache"@, "cargo-nextest"@, "cargo-udeps"@, "cargo-hakari"@, "cargo-watch"@]
}

/// The documented default configuration: parallelism auto-detected,
/// incremental builds with a fast linker and a compile cache, a week of
/// artifact retention, and watch mode over the sources and the manifest.
pub open spec fn spec_is_default_config(c: OptimizerConfig) -> bool {
    &&& c.build.parallel_jobs is None
    &&& c.build.incremental
    &&& c.build.target_cpu@ == "native"@
    &&& c.build.use_fast_linker
    &&& c.build.separate_rust_analyzer_target
    &&& c.build.enable_sccache
    &&& c.tools.auto_install
    &&& c.tools.preferred_tools.deep_view() == spec_default_preferred_tools()
    &&& c.tools.install_timeout_seconds == 300
    &&& c.optimization.clean_old_artifacts
    &&& c.optimization.artifact_retention_days == 7
    &&& c.optimization.check_unused_deps
    &&& c.optimization.optimize_profiles
    &&& c.development.watch_mode_enabled
    &&& c.development.watch_paths.deep_view() == seq!["src"@, "Cargo.toml"@]
    &&& !c.development.auto_test_on_change
    &&& c.development.quick_check_on_save
}

impl core::default::Default for OptimizerConfig {
    /// Returns a fully populated configuration with the documented defaults.
    fn default() -> (r: Self)
        ensures
            spec_is_default_config(r),
    {
        let preferred_tools: Vec<String> = vec![
            "sccache".to_owned(),
            "cargo-nextest".to_owned(),
            "cargo-udeps".to_owned(),
            "cargo-hakari".to_owned(),
            "cargo-watch".to_owned(),
        ];
        let watch_paths: Vec<String> = vec!["src".to_owned(), "Cargo.toml".to_owned()];
        proof {
            assert(preferred_tools.deep_view() =~= spec_default_preferred_tools());
            assert(watch_paths.deep_view() =~= seq!["src"@, "Cargo.toml"@]);
        }
        OptimizerConfig {
            build: BuildConfig {
                parallel_jobs: None,  // Auto-detect
                incremental: true,
                target_cpu: "native".to_owned(),
                use_fast_linker: true,
                separate_rust_analyzer_target: true,
                enable_sccache: true,
            },
            tools: ToolsConfig {
                auto_install: true,
                preferred_tools,
                install_timeout_seconds: 300,
            },
            optimization: OptimizationConfig {
                clean_old_artifacts: true,
                artifact_retention_days: 7,
                check_unused_deps: true,
                optimize_profiles: true,
            },
            development: DevelopmentConfig {
                watch_mode_enabled: true,
                watch_paths,
                auto_test_on_change: false,
                quick_check_on_save: true,
            },
        }
    }
}

/// The validation bounds: parallel jobs, when set, within [1, 64];
/// artifact retention at most a year; install timeout at least half a
/// minute.
pub open spec fn spec_config_valid(c: OptimizerConfig) -> bool {
    &&& match c.build.parallel_jobs {
        Some(jobs) => 1 <= jobs <= 64,
        None => true,
    }
    &&& c.optimization.artifact_retention_days <= 365
    &&& c.tools.install_timeout_seconds >= 30
}

/// The violation messages a configuration earns, in checking order.
pub open spec fn spec_violation_msgs(c: OptimizerConfig) -> Seq<Seq<char>> {
    (match c.build.parallel_jobs {
        Some(jobs) => {
            if jobs == 0 {
                seq!["Parallel jobs cannot be zero"@]
            } else if jobs > 64 {
                seq!["Parallel jobs cannot exceed 64"@]
            } else {
                Seq::<Seq<char>>::empty()
            }
        },
        None => Seq::<Seq<char>>::empty(),
    }) + (if c.optimization.artifact_retention_days > 365 {
        seq!["Artifact retention cannot exceed 365 days"@]
    } else {
        Seq::<Seq<char>>::empty()
    }) + (if c.tools.install_timeout_seconds < 30 {
        seq!["Tool install timeout must be at least 30 seconds"@]
    } else {
        Seq::<Seq<char>>::empty()
    })
}

impl OptimizerConfig {
    /// Checks every bound independently and reports all violations at once:
    /// a single violation is returned directly, several are aggregated.
    pub fn validate(&self) -> (r: OptimizerResult<()>)
        ensures
            r.is_ok() <==> spec_config_valid(*self),
            match r {
                Ok(_) => true,
                Err(e) => {
                    let msgs = spec_violation_msgs(*self);
                    if msgs.len() == 1 {
                        e matches OptimizerError::Config(m) && m@ == msgs[0]
                    } else {
                        e matches OptimizerError::Multiple(es) && es@.len() == msgs.len() && (
                        forall|i: int|
                            0 <= i < msgs.len() ==> ((#[trigger] es@[i]) matches
                                OptimizerError::Config(m) && m@ == msgs[i]))
                    }
                },
            },
    {
        let mut violations: Vec<OptimizerError> = Vec::new();

        // Validate parallel jobs
        if let Some(jobs) = self.build.parallel_jobs {
            if jobs == 0 {
                violations.push(OptimizerError::config("Parallel jobs cannot be zero"));
            } else if jobs > 64 {
                violations.push(OptimizerError::config("Parallel jobs cannot exceed 64"));
            }
        }

        // Validate artifact retention
        if self.optimization.artifact_retention_days > 365 {
            violations.push(OptimizerError::config("Artifact retention cannot exceed 365 days"));
        }

        // Validate tool install timeout
        if self.tools.install_timeout_seconds < 30 {
            violations.push(
                OptimizerError::config("Tool install timeout must be at least 30 seconds"),
            );
        }

        proof {
            let msgs = spec_violation_msgs(*self);
            assert(violations@.len() == msgs.len());
            assert forall|i: int| 0 <= i < msgs.len() implies (#[trigger] violations@[i]) matches
                OptimizerError::Config(m) && m@ == msgs[i] by {}
            assert(msgs.len() == 0 <==> spec_config_valid(*self));
        }

        if violations.len() == 0 {
            Ok(())
        } else if violations.len() == 1 {
            let e = violations.remove(0);
            Err(e)
        } else {
            Err(OptimizerError::Multiple(violations))
        }
    }

    /// The parallelism to build with: the configured job count when one is
    /// set, the snapshot's core count otherwise.
    pub open spec fn spec_effective_parallel_jobs(self, system: SystemInfo) -> usize {
        match self.build.parallel_jobs {
            Some(jobs) => jobs,
            None => system.cpu_cores,
        }
    }

    pub fn get_effective_parallel_jobs(&self, system: &SystemInfo) -> (n: usize)
        ensures
            n == self.spec_effective_parallel_jobs(*system),
    {
        match self.build.parallel_jobs {
            Some(jobs) => jobs,
            None => system.cpu_cores,
        }
    }

    /// The location of the persisted configuration under a per-user
    /// configuration directory, which the caller supplies.
    pub fn get_config_path(config_dir: &str) -> (p: String)
        ensures
            p@ == config_dir@ + "/rust-build-optimizer/config.toml"@,
    {
        let mut p = config_dir.to_owned();
        p.append("/rust-build-optimizer/config.toml");
        p
    }
}

} // verus!
