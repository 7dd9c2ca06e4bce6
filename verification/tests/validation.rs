//! Configuration defaults, validation bounds, and error rendering.

use rust_build_optimizer::config::OptimizerConfig;
use rust_build_optimizer::error::OptimizerError;

fn default_config() -> OptimizerConfig {
    OptimizerConfig::default()
}

#[test]
fn defaults_are_documented() {
    let c = default_config();
    assert_eq!(c.build.parallel_jobs, None);
    assert!(c.build.incremental);
    assert_eq!(c.build.target_cpu, "native");
    assert!(c.build.use_fast_linker);
    assert!(c.build.separate_rust_analyzer_target);
    assert!(c.build.enable_sccache);
    assert!(c.tools.auto_install);
    assert_eq!(
        c.tools.preferred_tools,
        vec!["sccache", "cargo-nextest", "cargo-udeps", "cargo-hakari", "cargo-watch"]
    );
    assert_eq!(c.tools.install_timeout_seconds, 300);
    assert!(c.optimization.clean_old_artifacts);
    assert_eq!(c.optimization.artifact_retention_days, 7);
    assert!(c.optimization.check_unused_deps);
    assert!(c.optimization.optimize_profiles);
    assert!(c.development.watch_mode_enabled);
    assert_eq!(c.development.watch_paths, vec!["src", "Cargo.toml"]);
    assert!(!c.development.auto_test_on_change);
    assert!(c.development.quick_check_on_save);
    assert!(c.validate().is_ok());
}

#[test]
fn parallel_jobs_boundaries() {
    let mut c = default_config();
    c.build.parallel_jobs = Some(0);
    assert!(c.validate().is_err());
    c.build.parallel_jobs = Some(65);
    assert!(c.validate().is_err());
    c.build.parallel_jobs = Some(1);
    assert!(c.validate().is_ok());
    c.build.parallel_jobs = Some(64);
    assert!(c.validate().is_ok());
}

#[test]
fn retention_boundaries() {
    let mut c = default_config();
    c.optimization.artifact_retention_days = 366;
    assert!(c.validate().is_err());
    c.optimization.artifact_retention_days = 365;
    assert!(c.validate().is_ok());
}

#[test]
fn timeout_boundaries() {
    let mut c = default_config();
    c.tools.install_timeout_seconds = 29;
    assert!(c.validate().is_err());
    c.tools.install_timeout_seconds = 30;
    assert!(c.validate().is_ok());
}

#[test]
fn single_violation_is_reported_directly() {
    let mut c = default_config();
    c.build.parallel_jobs = Some(0);
    match c.validate() {
        Err(OptimizerError::Config(m)) => assert_eq!(m, "Parallel jobs cannot be zero"),
        other => panic!("expected a configuration error, got {:?}", other),
    }
}

#[test]
fn all_violations_are_collected() {
    let mut c = default_config();
    c.build.parallel_jobs = Some(65);
    c.optimization.artifact_retention_days = 400;
    c.tools.install_timeout_seconds = 10;
    match c.validate() {
        Err(OptimizerError::Multiple(errors)) => {
            assert_eq!(errors.len(), 3);
            match &errors[0] {
                OptimizerError::Config(m) => assert_eq!(m, "Parallel jobs cannot exceed 64"),
                other => panic!("unexpected first violation: {:?}", other),
            }
            match &errors[1] {
                OptimizerError::Config(m) => {
                    assert_eq!(m, "Artifact retention cannot exceed 365 days")
                }
                other => panic!("unexpected second violation: {:?}", other),
            }
            match &errors[2] {
                OptimizerError::Config(m) => {
                    assert_eq!(m, "Tool install timeout must be at least 30 seconds")
                }
                other => panic!("unexpected third violation: {:?}", other),
            }
        }
        other => panic!("expected an aggregate error, got {:?}", other),
    }
}

#[test]
fn config_path_is_under_the_given_directory() {
    let p = OptimizerConfig::get_config_path("/home/user/.config");
    assert_eq!(p, "/home/user/.config/rust-build-optimizer/config.toml");
}

#[test]
fn error_messages_render_each_kind() {
    assert_eq!(
        OptimizerError::config("bad value").message(),
        "Configuration error: bad value"
    );
    assert_eq!(
        OptimizerError::command_failed("exit 1").message(),
        "Command execution failed: exit 1"
    );
    assert_eq!(OptimizerError::Cancelled.message(), "Operation cancelled by user");
    assert_eq!(
        OptimizerError::tool_installation("mold", "no network").message(),
        "Tool installation failed: mold - no network"
    );
    assert_eq!(
        OptimizerError::file_not_found("Cargo.toml").message(),
        "File not found: Cargo.toml"
    );
}

#[test]
fn user_messages_carry_remediation_hints() {
    assert_eq!(
        OptimizerError::tool_not_found("sccache").user_message(),
        "Tool 'sccache' is not installed. Run 'rust-build-optimizer install-tools' to install it."
    );
    assert_eq!(
        OptimizerError::project_validation("no manifest").user_message(),
        "Project validation failed: no manifest. Make sure you're in a Rust project directory."
    );
    assert_eq!(
        OptimizerError::permission("/etc").user_message(),
        "Permission denied: /etc. You may need to run with elevated privileges."
    );
    assert_eq!(
        OptimizerError::unsupported_platform("plan9").user_message(),
        "Platform 'plan9' is not supported. Please check the documentation for supported platforms."
    );
    assert_eq!(
        OptimizerError::tool_installation("zld", "brew missing").user_message(),
        "Failed to install 'zld': brew missing. Please install it manually or check your internet connection."
    );
    // A kind without a dedicated hint falls back to the plain message.
    assert_eq!(
        OptimizerError::network("timed out").user_message(),
        "Network error: timed out"
    );
}

#[test]
fn recoverability_follows_the_kind() {
    assert!(!OptimizerError::Io("disk".to_string()).is_recoverable());
    assert!(OptimizerError::config("x").is_recoverable());
    assert!(OptimizerError::tool_not_found("x").is_recoverable());
    assert!(!OptimizerError::Serialization("x".to_string()).is_recoverable());
    assert!(!OptimizerError::permission("x").is_recoverable());
    assert!(!OptimizerError::unsupported_platform("x").is_recoverable());
    assert!(OptimizerError::Cancelled.is_recoverable());
    // An aggregate is recoverable exactly when one member is.
    let mixed = OptimizerError::Multiple(vec![
        OptimizerError::Io("disk".to_string()),
        OptimizerError::config("x"),
    ]);
    assert!(mixed.is_recoverable());
    let hopeless = OptimizerError::Multiple(vec![OptimizerError::Io("disk".to_string())]);
    assert!(!hopeless.is_recoverable());
    let empty = OptimizerError::Multiple(vec![]);
    assert!(!empty.is_recoverable());
}
