//! The error model: one kind per failure class, each carrying enough
//! context to render a user-facing remediation hint.

use vstd::prelude::*;
use vstd::string::StringExecFns;

verus! {

broadcast use vstd::std_specs::vec::axiom_vec_decreases_to_view;

pub type OptimizerResult<T> = Result<T, OptimizerError>;

/// Every failure the tool distinguishes, each carrying the context a
/// user-facing hint needs; `Multiple` aggregates independently collected
/// failures, as validation produces them.
#[derive(Debug)]
pub enum OptimizerError {
    Io(String),
    Config(String),
    ToolNotFound(String),
    CommandFailed(String),
    ProjectValidation(String),
    Serialization(String),
    TomlParsing(String),
    TomlSerialization(String),
    Network(String),
    Permission(String),
    FileNotFound(String),
    InvalidInput(String),
    Cancelled,
    UnsupportedPlatform(String),
    ToolInstallation { tool: String, reason: String },
    BuildFailed(String),
    TestFailed(String),
    OptimizationFailed(String),
    Multiple(Vec<OptimizerError>),
}

impl OptimizerError {
    pub fn config(msg: &str) -> (r: Self)
        ensures
            r matches OptimizerError::Config(m) && m@ == msg@,
    {
        OptimizerError::Config(msg.to_owned())
    }

    pub fn tool_not_found(tool: &str) -> (r: Self)
        ensures
            r matches OptimizerError::ToolNotFound(m) && m@ == tool@,
    {
        OptimizerError::ToolNotFound(tool.to_owned())
    }

    pub fn command_failed(msg: &str) -> (r: Self)
        ensures
            r matches OptimizerError::CommandFailed(m) && m@ == msg@,
    {
        OptimizerError::CommandFailed(msg.to_owned())
    }

    pub fn project_validation(msg: &str) -> (r: Self)
        ensures
            r matches OptimizerError::ProjectValidation(m) && m@ == msg@,
    {
        OptimizerError::ProjectValidation(msg.to_owned())
    }

    pub fn network(msg: &str) -> (r: Self)
        ensures
            r matches OptimizerError::Network(m) && m@ == msg@,
    {
        OptimizerError::Network(msg.to_owned())
    }

    pub fn permission(msg: &str) -> (r: Self)
        ensures
            r matches OptimizerError::Permission(m) && m@ == msg@,
    {
        OptimizerError::Permission(msg.to_owned())
    }

    pub fn file_not_found(path: &str) -> (r: Self)
        ensures
            r matches OptimizerError::FileNotFound(m) && m@ == path@,
    {
        OptimizerError::FileNotFound(path.to_owned())
    }

    pub fn invalid_input(msg: &str) -> (r: Self)
        ensures
            r matches OptimizerError::InvalidInput(m) && m@ == msg@,
    {
        OptimizerError::InvalidInput(msg.to_owned())
    }

    pub fn unsupported_platform(platform: &str) -> (r: Self)
        ensures
            r matches OptimizerError::UnsupportedPlatform(m) && m@ == platform@,
    {
        OptimizerError::UnsupportedPlatform(platform.to_owned())
    }

    pub fn tool_installation(tool: &str, reason: &str) -> (r: Self)
        ensures
            r matches OptimizerError::ToolInstallation { tool: t, reason: w } && t@ == tool@ && w@
                == reason@,
    {
        OptimizerError::ToolInstallation { tool: tool.to_owned(), reason: reason.to_owned() }
    }

    pub fn build_failed(msg: &str) -> (r: Self)
        ensures
            r matches OptimizerError::BuildFailed(m) && m@ == msg@,
    {
        OptimizerError::BuildFailed(msg.to_owned())
    }

    pub fn test_failed(msg: &str) -> (r: Self)
        ensures
            r matches OptimizerError::TestFailed(m) && m@ == msg@,
    {
        OptimizerError::TestFailed(msg.to_owned())
    }

    pub fn optimization_failed(msg: &str) -> (r: Self)
        ensures
            r matches OptimizerError::OptimizationFailed(m) && m@ == msg@,
    {
        OptimizerError::OptimizationFailed(msg.to_owned())
    }

    /// The plain rendering of this error, one line per kind.
    pub open spec fn spec_message(self) -> Seq<char> {
        match self {
            OptimizerError::Io(m) => "IO error: "@ + m@,
            OptimizerError::Config(m) => "Configuration error: "@ + m@,
            OptimizerError::ToolNotFound(m) => "Tool not found: "@ + m@,
            OptimizerError::CommandFailed(m) => "Command execution failed: "@ + m@,
            OptimizerError::ProjectValidation(m) => "Project validation failed: "@ + m@,
            OptimizerError::Serialization(m) => "Serialization error: "@ + m@,
            OptimizerError::TomlParsing(m) => "TOML parsing error: "@ + m@,
            OptimizerError::TomlSerialization(m) => "TOML serialization error: "@ + m@,
            OptimizerError::Network(m) => "Network error: "@ + m@,
            OptimizerError::Permission(m) => "Permission denied: "@ + m@,
            OptimizerError::FileNotFound(m) => "File not found: "@ + m@,
            OptimizerError::InvalidInput(m) => "Invalid input: "@ + m@,
            OptimizerError::Cancelled => "Operation cancelled by user"@,
            OptimizerError::UnsupportedPlatform(m) => "Unsupported platform: "@ + m@,
            OptimizerError::ToolInstallation { tool, reason } => "Tool installation failed: "@
                + tool@ + " - "@ + reason@,
            OptimizerError::BuildFailed(m) => "Build failed: "@ + m@,
            OptimizerError::TestFailed(m) => "Test failed: "@ + m@,
            OptimizerError::OptimizationFailed(m) => "Optimization failed: "@ + m@,
            OptimizerError::Multiple(_) => "Multiple errors occurred"@,
        }
    }

    /// Renders this error as a single line of text.
    pub fn message(&self) -> (s: String)
        ensures
            s@ == self.spec_message(),
    {
        match self {
            OptimizerError::Io(m) => {
                let mut s = "IO error: ".to_owned();
                s.append(m.as_str());
                s
            },
            OptimizerError::Config(m) => {
                let mut s = "Configuration error: ".to_owned();
                s.append(m.as_str());
                s
            },
            OptimizerError::ToolNotFound(m) => {
                let mut s = "Tool not found: ".to_owned();
                s.append(m.as_str());
                s
            },
            OptimizerError::CommandFailed(m) => {
                let mut s = "Command execution failed: ".to_owned();
                s.append(m.as_str());
                s
            },
            OptimizerError::ProjectValidation(m) => {
                let mut s = "Project validation failed: ".to_owned();
                s.append(m.as_str());
                s
            },
            OptimizerError::Serialization(m) => {
                let mut s = "Serialization error: ".to_owned();
                s.append(m.as_str());
                s
            },
            OptimizerError::TomlParsing(m) => {
                let mut s = "TOML parsing error: ".to_owned();
                s.append(m.as_str());
                s
            },
            OptimizerError::TomlSerialization(m) => {
                let mut s = "TOML serialization error: ".to_owned();
                s.append(m.as_str());
                s
            },
            OptimizerError::Network(m) => {
                let mut s = "Network error: ".to_owned();
                s.append(m.as_str());
                s
            },
            OptimizerError::Permission(m) => {
                let mut s = "Permission denied: ".to_owned();
                s.append(m.as_str());
                s
            },
            OptimizerError::FileNotFound(m) => {
                let mut s = "File not found: ".to_owned();
                s.append(m.as_str());
                s
            },
            OptimizerError::InvalidInput(m) => {
                let mut s = "Invalid input: ".to_owned();
                s.append(m.as_str());
                s
            },
            OptimizerError::Cancelled => "Operation cancelled by user".to_owned(),
            OptimizerError::UnsupportedPlatform(m) => {
                let mut s = "Unsupported platform: ".to_owned();
                s.append(m.as_str());
                s
            },
            OptimizerError::ToolInstallation { tool, reason } => {
                let mut s = "Tool installation failed: ".to_owned();
                s.append(tool.as_str());
                s.append(" - ");
                s.append(reason.as_str());
                s
            },
            OptimizerError::BuildFailed(m) => {
                let mut s = "Build failed: ".to_owned();
                s.append(m.as_str());
                s
            },
            OptimizerError::TestFailed(m) => {
                let mut s = "Test failed: ".to_owned();
                s.append(m.as_str());
                s
            },
            OptimizerError::OptimizationFailed(m) => {
                let mut s = "Optimization failed: ".to_owned();
                s.append(m.as_str());
                s
            },
            OptimizerError::Multiple(_) => "Multiple errors occurred".to_owned(),
        }
    }

    /// The user-facing rendering of this error: the kinds with a known
    /// remedy carry a suggestion, the rest fall back to the plain message.
    pub open spec fn spec_user_message(self) -> Seq<char> {
        match self {
            OptimizerError::ToolNotFound(tool) => "Tool '"@ + tool@
                + "' is not installed. Run 'rust-build-optimizer install-tools' to install it."@,
            OptimizerError::ProjectValidation(m) => "Project validation failed: "@ + m@
                + ". Make sure you're in a Rust project directory."@,
            OptimizerError::CommandFailed(m) => "Command failed: "@ + m@
                + ". Check your project configuration and try again."@,
            OptimizerError::Permission(m) => "Permission denied: "@ + m@
                + ". You may need to run with elevated privileges."@,
            OptimizerError::UnsupportedPlatform(platform) => "Platform '"@ + platform@
                + "' is not supported. Please check the documentation for supported platforms."@,
            OptimizerError::ToolInstallation { tool, reason } => "Failed to install '"@ + tool@
                + "': "@ + reason@
                + ". Please install it manually or check your internet connection."@,
            _ => self.spec_message(),
        }
    }

    /// Get user-friendly error message with suggestions.
    pub fn user_message(&self) -> (s: String)
        ensures
            s@ == self.spec_user_message(),
    {
        match self {
            OptimizerError::ToolNotFound(tool) => {
                let mut s = "Tool '".to_owned();
                s.append(tool.as_str());
                s.append(
                    "' is not installed. Run 'rust-build-optimizer install-tools' to install it.",
                );
                s
            },
            OptimizerError::ProjectValidation(m) => {
                let mut s = "Project validation failed: ".to_owned();
                s.append(m.as_str());
                s.append(". Make sure you're in a Rust project directory.");
                s
            },
            OptimizerError::CommandFailed(m) => {
                let mut s = "Command failed: ".to_owned();
                s.append(m.as_str());
                s.append(". Check your project configuration and try again.");
                s
            },
            OptimizerError::Permission(m) => {
                let mut s = "Permission denied: ".to_owned();
                s.append(m.as_str());
                s.append(". You may need to run with elevated privileges.");
                s
            },
            OptimizerError::UnsupportedPlatform(platform) => {
                let mut s = "Platform '".to_owned();
                s.append(platform.as_str());
                s.append(
                    "' is not supported. Please check the documentation for supported platforms.",
                );
                s
            },
            OptimizerError::ToolInstallation { tool, reason } => {
                let mut s = "Failed to install '".to_owned();
                s.append(tool.as_str());
                s.append("': ");
                s.append(reason.as_str());
                s.append(". Please install it manually or check your internet connection.");
                s
            },
            _ => self.message(),
        }
    }

    /// Whether the operation that produced this error may sensibly be retried:
    /// environmental and input mistakes are recoverable, while IO faults,
    /// serialization faults, permission and platform limits are not.  An
    /// aggregate is recoverable when any of its members is.
    pub open spec fn spec_is_recoverable(self) -> bool
        decreases self,
    {
        match self {
            OptimizerError::Io(_) => false,
            OptimizerError::Config(_) => true,
            OptimizerError::ToolNotFound(_) => true,
            OptimizerError::CommandFailed(_) => true,
            OptimizerError::ProjectValidation(_) => true,
            OptimizerError::Serialization(_) => false,
            OptimizerError::TomlParsing(_) => true,
            OptimizerError::TomlSerialization(_) => false,
            OptimizerError::Network(_) => true,
            OptimizerError::Permission(_) => false,
            OptimizerError::FileNotFound(_) => true,
            OptimizerError::InvalidInput(_) => true,
            OptimizerError::Cancelled => true,
            OptimizerError::UnsupportedPlatform(_) => false,
            OptimizerError::ToolInstallation { .. } => true,
            OptimizerError::BuildFailed(_) => true,
            OptimizerError::TestFailed(_) => true,
            OptimizerError::OptimizationFailed(_) => true,
            OptimizerError::Multiple(errors) => exists|i: int|
                0 <= i < errors@.len() && errors@[i].spec_is_recoverable(),
        }
    }

    /// Check if this error is recoverable.
    #[verifier::loop_isolation(false)]
    pub fn is_recoverable(&self) -> (r: bool)
        ensures
            r == self.spec_is_recoverable(),
        decreases *self,
    {
        match self {
            OptimizerError::Io(_) => false,
            OptimizerError::Config(_) => true,
            OptimizerError::ToolNotFound(_) => true,
            OptimizerError::CommandFailed(_) => true,
            OptimizerError::ProjectValidation(_) => true,
            OptimizerError::Serialization(_) => false,
            OptimizerError::TomlParsing(_) => true,
            OptimizerError::TomlSerialization(_) => false,
            OptimizerError::Network(_) => true,
            OptimizerError::Permission(_) => false,
            OptimizerError::FileNotFound(_) => true,
            OptimizerError::InvalidInput(_) => true,
            OptimizerError::Cancelled => true,
            OptimizerError::UnsupportedPlatform(_) => false,
            OptimizerError::ToolInstallation { .. } => true,
            OptimizerError::BuildFailed(_) => true,
            OptimizerError::TestFailed(_) => true,
            OptimizerError::OptimizationFailed(_) => true,
            OptimizerError::Multiple(errors) => {
                let mut i: usize = 0;
                let mut found = false;
                while !found && i < errors.len()
                    invariant
                        0 <= i <= errors@.len(),
                        found ==> exists|j: int|
                            0 <= j < errors@.len() && errors@[j].spec_is_recoverable(),
                        !found ==> forall|j: int|
                            0 <= j < i ==> !errors@[j].spec_is_recoverable(),
                    decreases errors@.len() - i, (if found { 0int } else { 1int }),
                {
                    if errors[i].is_recoverable() {
                        found = true;
                    } else {
                        i = i + 1;
                    }
                }
                found
            },
        }
    }
}

} // verus!
