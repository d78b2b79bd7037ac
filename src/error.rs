//! Failure kinds, their user-facing messages and their process exit codes.
use vstd::prelude::*;
use vstd::string::StringExecFns;

verus! {

/// The closed set of process exit codes that scripts may depend on.
#[derive(Clone, Copy, Debug, PartialEq, Eq, Structural)]
pub enum ExitCode {
    UnknownError,
    InvalidArguments,
    ExecutionFailure,
    NotYetImplemented,
    FileSystemError,
    NetworkError,
    NoVersionMatch,
    EnvironmentError,
    ConfigurationError,
    ExecutableNotFound,
}

/// Every failure this core reports. Payloads hold the already-rendered text of
/// whatever they describe (a tool spec, a version requirement, a process
/// status).
#[derive(Debug)]
pub enum ErrorDetails {
    /// Thrown when package tries to install a binary that is already installed.
    BinaryAlreadyInstalled { bin_name: String, package: String, version: String },
    BinaryExecError { error: String },
    /// Thrown when a user tries to `notion pin` something other than node/yarn/npm.
    CannotPinPackage,
    CliParseError,
    CommandNotImplemented { command_name: String },
    CouldNotDetermineTool,
    CreateDirError { dir: String, error: String },
    DepPackageReadError { error: String },
    DeprecatedCommandError { command: String, advice: String },
    DownloadToolNetworkError { tool: String, from_url: String, error: String },
    DownloadToolNotFound { tool: String },
    InvalidHookCommand { command: String },
    /// Thrown when BinConfig (read from file) does not contain Platform info.
    NoBinPlatform { binary: String },
    /// Thrown when there is no Node version matching a requested semver specifier.
    NodeVersionNotFound { matching: String },
    NoGlobalInstalls,
    NoHomeEnvironmentVar,
    NoLocalDataDir,
    /// Thrown when a user tries to install or fetch a package with no executables.
    NoPackageExecutables,
    /// Thrown when there is no package version matching a requested semver specifier.
    NoPackageFound { name: String, matching: String },
    /// Thrown when a user tries to pin a Yarn version before pinning a Node version.
    NoPinnedNodeVersion,
    NoSuchTool { tool: String },
    /// Thrown when the user tries to pin Node or Yarn versions outside of a package.
    NotInPackage,
    NoToolChain { shim_name: String },
    NoVersionsFound,
    NpxNotAvailable { version: String },
    /// Thrown when package install command is not successful.
    PackageInstallFailed { cmd: String, status: String },
    /// Thrown when package install command fails to execute.
    PackageInstallIoError { error: String },
    PackageReadError { error: String },
    /// Thrown when a package has been unpacked but is not formed correctly.
    PackageUnpackError,
    PathError,
    /// Thrown when the public registry for Node or Yarn could not be downloaded.
    RegistryFetchError { error: String },
    SymlinkError { error: String },
    ToolNotImplemented,
    /// Thrown when the shell name specified in the Notion environment is not supported.
    UnrecognizedShell { name: String },
    /// Thrown when the postscript file was not specified in the Notion environment.
    UnspecifiedPostscript,
    /// Thrown when the shell name was not specified in the Notion environment.
    UnspecifiedShell,
    VersionParseError { error: String },
    /// Thrown when there is no Yarn version matching a requested semver specifier.
    YarnVersionNotFound { matching: String },
}

/// The exit code assigned to each failure kind.
pub open spec fn exit_code_of(e: ErrorDetails) -> ExitCode {
    match e {
        ErrorDetails::BinaryAlreadyInstalled { .. } => ExitCode::FileSystemError,
        ErrorDetails::BinaryExecError { .. } => ExitCode::ExecutionFailure,
        ErrorDetails::CannotPinPackage => ExitCode::InvalidArguments,
        ErrorDetails::CliParseError => ExitCode::UnknownError,
        ErrorDetails::CommandNotImplemented { .. } => ExitCode::NotYetImplemented,
        ErrorDetails::CouldNotDetermineTool => ExitCode::UnknownError,
        ErrorDetails::CreateDirError { .. } => ExitCode::FileSystemError,
        ErrorDetails::DepPackageReadError { .. } => ExitCode::FileSystemError,
        ErrorDetails::DeprecatedCommandError { .. } => ExitCode::InvalidArguments,
        ErrorDetails::DownloadToolNetworkError { .. } => ExitCode::NetworkError,
        ErrorDetails::DownloadToolNotFound { .. } => ExitCode::NoVersionMatch,
        ErrorDetails::InvalidHookCommand { .. } => ExitCode::UnknownError,
        ErrorDetails::NoBinPlatform { .. } => ExitCode::ExecutionFailure,
        ErrorDetails::NodeVersionNotFound { .. } => ExitCode::NoVersionMatch,
        ErrorDetails::NoGlobalInstalls => ExitCode::InvalidArguments,
        ErrorDetails::NoHomeEnvironmentVar => ExitCode::EnvironmentError,
        ErrorDetails::NoLocalDataDir => ExitCode::EnvironmentError,
        ErrorDetails::NoPackageExecutables => ExitCode::InvalidArguments,
        ErrorDetails::NoPackageFound { .. } => ExitCode::NoVersionMatch,
        ErrorDetails::NoPinnedNodeVersion => ExitCode::ConfigurationError,
        ErrorDetails::NoSuchTool { .. } => ExitCode::NoVersionMatch,
        ErrorDetails::NotInPackage => ExitCode::ConfigurationError,
        ErrorDetails::NoToolChain { .. } => ExitCode::ExecutionFailure,
        ErrorDetails::NoVersionsFound => ExitCode::NoVersionMatch,
        ErrorDetails::NpxNotAvailable { .. } => ExitCode::ExecutableNotFound,
        ErrorDetails::PackageInstallFailed { .. } => ExitCode::FileSystemError,
        ErrorDetails::PackageInstallIoError { .. } => ExitCode::FileSystemError,
        ErrorDetails::PackageReadError { .. } => ExitCode::FileSystemError,
        ErrorDetails::PackageUnpackError => ExitCode::ConfigurationError,
        ErrorDetails::PathError => ExitCode::UnknownError,
        ErrorDetails::RegistryFetchError { .. } => ExitCode::NetworkError,
        ErrorDetails::SymlinkError { .. } => ExitCode::FileSystemError,
        ErrorDetails::ToolNotImplemented => ExitCode::ExecutableNotFound,
        ErrorDetails::UnrecognizedShell { .. } => ExitCode::EnvironmentError,
        ErrorDetails::UnspecifiedPostscript => ExitCode::EnvironmentError,
        ErrorDetails::UnspecifiedShell => ExitCode::EnvironmentError,
        ErrorDetails::VersionParseError { .. } => ExitCode::NoVersionMatch,
        ErrorDetails::YarnVersionNotFound { .. } => ExitCode::NoVersionMatch,
    }
}

/// The user-facing message of each failure kind.
pub open spec fn message_of(e: ErrorDetails) -> Seq<char> {
    match e {
        ErrorDetails::BinaryAlreadyInstalled { bin_name, package, version } =>
            "Conflict with bin '"@ + bin_name@ + "' already installed by '"@ + package@
                + "' version "@ + version@,
        ErrorDetails::BinaryExecError { error } => text_or(error@, "Could not execute the binary"@),
        ErrorDetails::CannotPinPackage => "Only node, yarn, and npm can be pinned in a project"@,
        ErrorDetails::CliParseError => "There was a problem parsing the command line input"@,
        ErrorDetails::CommandNotImplemented { command_name } =>
            "command `"@ + command_name@ + "` is not yet implemented"@,
        ErrorDetails::CouldNotDetermineTool => "Tool name could not be determined"@,
        ErrorDetails::CreateDirError { dir, error } =>
            "Could not create directory "@ + dir@ + ": "@ + error@,
        ErrorDetails::DepPackageReadError { error } =>
            "Could not read dependent package info: "@ + error@,
        ErrorDetails::DeprecatedCommandError { command, advice } =>
            "The subcommand `"@ + command@ + "` is deprecated.\n"@ + advice@,
        ErrorDetails::DownloadToolNetworkError { tool, from_url, error } =>
            "Failed to download "@ + tool@ + " from "@ + from_url@ + "\n"@ + error@,
        ErrorDetails::DownloadToolNotFound { tool } => tool@ + " not found"@,
        ErrorDetails::InvalidHookCommand { command } =>
            "Invalid hook command: '"@ + command@ + "'"@,
        ErrorDetails::NoBinPlatform { binary } =>
            "Platform info for executable `"@ + binary@ + "` is missing"@,
        ErrorDetails::NodeVersionNotFound { matching } => "No Node version found for "@ + matching@,
        ErrorDetails::NoGlobalInstalls => "\nGlobal package installs are not recommended.\n\nConsider using `notion install` to add a package to your toolchain (see `notion help install` for more info)."@,
        ErrorDetails::NoHomeEnvironmentVar => "environment variable 'HOME' is not set"@,
        ErrorDetails::NoLocalDataDir => "Windows LocalAppData directory not found"@,
        ErrorDetails::NoPackageExecutables =>
            "Package has no binaries or executables - nothing to do"@,
        ErrorDetails::NoPackageFound { name, matching } =>
            "No version of '"@ + name@ + "' found for "@ + matching@,
        ErrorDetails::NoPinnedNodeVersion => "There is no pinned node version for this project"@,
        ErrorDetails::NoSuchTool { tool } =>
            "\nNo "@ + tool@ + " version selected.\n\nSee `notion help pin` for help adding "@ + tool@
                + " to a project toolchain.\n\nSee `notion help install` for help adding "@ + tool@
                + " to your personal toolchain."@,
        ErrorDetails::NotInPackage => "Not in a node package"@,
        ErrorDetails::NoToolChain { shim_name } => "No toolchain available to run "@ + shim_name@,
        ErrorDetails::NoVersionsFound => "no versions found"@,
        ErrorDetails::NpxNotAvailable { version } =>
            "\n'npx' is only available with npm >= 5.2.0\n\nThis project is configured to use version "@
                + version@ + " of npm."@,
        ErrorDetails::PackageInstallFailed { cmd, status } =>
            "Command `"@ + cmd@ + "` failed with status "@ + status@,
        ErrorDetails::PackageInstallIoError { error } =>
            "Error executing package install command: "@ + error@,
        ErrorDetails::PackageReadError { error } => "Could not read package info: "@ + error@,
        ErrorDetails::PackageUnpackError =>
            "Package unpack error: Could not determine unpack directory name"@,
        ErrorDetails::PathError => "`path` internal error"@,
        ErrorDetails::RegistryFetchError { error } => "Could not fetch public registry\n"@ + error@,
        ErrorDetails::SymlinkError { error } => text_or(error@, "Could not create the symlink"@),
        ErrorDetails::ToolNotImplemented => "this tool is not yet implemented"@,
        ErrorDetails::UnrecognizedShell { name } => "Unrecognized shell: "@ + name@,
        ErrorDetails::UnspecifiedPostscript => "Notion postscript file not specified"@,
        ErrorDetails::UnspecifiedShell => "Notion shell not specified"@,
        ErrorDetails::VersionParseError { error } => text_or(error@, "Could not parse the version"@),
        ErrorDetails::YarnVersionNotFound { matching } => "No Yarn version found for "@ + matching@,
    }
}

/// `text`, or `fallback` when `text` is empty.
pub open spec fn text_or(text: Seq<char>, fallback: Seq<char>) -> Seq<char> {
    if text.len() == 0 {
        fallback
    } else {
        text
    }
}

/// A copy of `text`, or `fallback` when `text` is empty.
fn text_or_else(text: &String, fallback: &str) -> (r: String)
    ensures
        r@ == text_or(text@, fallback@),
{
    if text.as_str().is_empty() {
        String::from_str(fallback)
    } else {
        text.clone()
    }
}

/// `a`, then `x`.
fn prefixed(a: &str, x: &String) -> (r: String)
    ensures
        r@ == a@ + x@,
{
    let mut r = String::from_str(a);
    r.append(x.as_str());
    r
}

/// `x`, then `b`.
fn suffixed(x: &String, b: &str) -> (r: String)
    ensures
        r@ == x@ + b@,
{
    let mut r = x.clone();
    r.append(b);
    r
}

/// `a`, then `x`, then `b`.
fn around(a: &str, x: &String, b: &str) -> (r: String)
    ensures
        r@ == a@ + x@ + b@,
{
    let mut r = String::from_str(a);
    r.append(x.as_str());
    r.append(b);
    r
}

/// `a`, then `x`, then `b`, then `y`.
fn around2(a: &str, x: &String, b: &str, y: &String) -> (r: String)
    ensures
        r@ == a@ + x@ + b@ + y@,
{
    let mut r = around(a, x, b);
    r.append(y.as_str());
    r
}

impl ErrorDetails {
    /// The user-facing message for this failure.
    pub fn to_string(&self) -> (r: String)
        ensures
            r@ == message_of(*self),
    {
        match self {
            ErrorDetails::BinaryAlreadyInstalled { bin_name, package, version } => {
                let mut r = around2("Conflict with bin '", bin_name, "' already installed by '", package);
                r.append("' version ");
                r.append(version.as_str());
                r
            },
            ErrorDetails::BinaryExecError { error } => text_or_else(error, "Could not execute the binary"),
            ErrorDetails::CannotPinPackage => String::from_str(
                "Only node, yarn, and npm can be pinned in a project",
            ),
            ErrorDetails::CliParseError => String::from_str(
                "There was a problem parsing the command line input",
            ),
            ErrorDetails::CommandNotImplemented { command_name } => around(
                "command `",
                command_name,
                "` is not yet implemented",
            ),
            ErrorDetails::CouldNotDetermineTool => String::from_str(
                "Tool name could not be determined",
            ),
            ErrorDetails::CreateDirError { dir, error } => around2(
                "Could not create directory ",
                dir,
                ": ",
                error,
            ),
            ErrorDetails::DepPackageReadError { error } => prefixed("Could not read dependent package info: ", error),
            ErrorDetails::DeprecatedCommandError { command, advice } => around2(
                "The subcommand `",
                command,
                "` is deprecated.\n",
                advice,
            ),
            ErrorDetails::DownloadToolNetworkError { tool, from_url, error } => {
                let mut r = around2("Failed to download ", tool, " from ", from_url);
                r.append("\n");
                r.append(error.as_str());
                r
            },
            ErrorDetails::DownloadToolNotFound { tool } => suffixed(tool, " not found"),
            ErrorDetails::InvalidHookCommand { command } => around(
                "Invalid hook command: '",
                command,
                "'",
            ),
            ErrorDetails::NoBinPlatform { binary } => around(
                "Platform info for executable `",
                binary,
                "` is missing",
            ),
            ErrorDetails::NodeVersionNotFound { matching } => prefixed("No Node version found for ", matching),
            ErrorDetails::NoGlobalInstalls => String::from_str(
                "\nGlobal package installs are not recommended.\n\nConsider using `notion install` to add a package to your toolchain (see `notion help install` for more info).",
            ),
            ErrorDetails::NoHomeEnvironmentVar => String::from_str(
                "environment variable 'HOME' is not set",
            ),
            ErrorDetails::NoLocalDataDir => String::from_str(
                "Windows LocalAppData directory not found",
            ),
            ErrorDetails::NoPackageExecutables => String::from_str(
                "Package has no binaries or executables - nothing to do",
            ),
            ErrorDetails::NoPackageFound { name, matching } => around2(
                "No version of '",
                name,
                "' found for ",
                matching,
            ),
            ErrorDetails::NoPinnedNodeVersion => String::from_str(
                "There is no pinned node version for this project",
            ),
            ErrorDetails::NoSuchTool { tool } => {
                let mut r = around2(
                    "\nNo ",
                    tool,
                    " version selected.\n\nSee `notion help pin` for help adding ",
                    tool,
                );
                r.append(" to a project toolchain.\n\nSee `notion help install` for help adding ");
                r.append(tool.as_str());
                r.append(" to your personal toolchain.");
                r
            },
            ErrorDetails::NotInPackage => String::from_str("Not in a node package"),
            ErrorDetails::NoToolChain { shim_name } => prefixed("No toolchain available to run ", shim_name),
            ErrorDetails::NoVersionsFound => String::from_str("no versions found"),
            ErrorDetails::NpxNotAvailable { version } => around(
                "\n'npx' is only available with npm >= 5.2.0\n\nThis project is configured to use version ",
                version,
                " of npm.",
            ),
            ErrorDetails::PackageInstallFailed { cmd, status } => around2(
                "Command `",
                cmd,
                "` failed with status ",
                status,
            ),
            ErrorDetails::PackageInstallIoError { error } => prefixed("Error executing package install command: ", error),
            ErrorDetails::PackageReadError { error } => prefixed("Could not read package info: ", error),
            ErrorDetails::PackageUnpackError => String::from_str(
                "Package unpack error: Could not determine unpack directory name",
            ),
            ErrorDetails::PathError => String::from_str("`path` internal error"),
            ErrorDetails::RegistryFetchError { error } => prefixed("Could not fetch public registry\n", error),
            ErrorDetails::SymlinkError { error } => text_or_else(error, "Could not create the symlink"),
            ErrorDetails::ToolNotImplemented => String::from_str("this tool is not yet implemented"),
            ErrorDetails::UnrecognizedShell { name } => prefixed("Unrecognized shell: ", name),
            ErrorDetails::UnspecifiedPostscript => String::from_str(
                "Notion postscript file not specified",
            ),
            ErrorDetails::UnspecifiedShell => String::from_str("Notion shell not specified"),
            ErrorDetails::VersionParseError { error } => text_or_else(error, "Could not parse the version"),
            ErrorDetails::YarnVersionNotFound { matching } => prefixed("No Yarn version found for ", matching),
        }
    }
    /// The exit code the process ends with when this failure reaches the top.
    pub fn exit_code(&self) -> (r: ExitCode)
        ensures
            r == exit_code_of(*self),
    {
        match self {
            ErrorDetails::BinaryAlreadyInstalled { .. } => ExitCode::FileSystemError,
            ErrorDetails::BinaryExecError { .. } => ExitCode::ExecutionFailure,
            ErrorDetails::CannotPinPackage => ExitCode::InvalidArguments,
            ErrorDetails::CliParseError => ExitCode::UnknownError,
            ErrorDetails::CommandNotImplemented { .. } => ExitCode::NotYetImplemented,
            ErrorDetails::CouldNotDetermineTool => ExitCode::UnknownError,
            ErrorDetails::CreateDirError { .. } => ExitCode::FileSystemError,
            ErrorDetails::DepPackageReadError { .. } => ExitCode::FileSystemError,
            ErrorDetails::DeprecatedCommandError { .. } => ExitCode::InvalidArguments,
            ErrorDetails::DownloadToolNetworkError { .. } => ExitCode::NetworkError,
            ErrorDetails::DownloadToolNotFound { .. } => ExitCode::NoVersionMatch,
            ErrorDetails::InvalidHookCommand { .. } => ExitCode::UnknownError,
            ErrorDetails::NoBinPlatform { .. } => ExitCode::ExecutionFailure,
            ErrorDetails::NodeVersionNotFound { .. } => ExitCode::NoVersionMatch,
            ErrorDetails::NoGlobalInstalls => ExitCode::InvalidArguments,
            ErrorDetails::NoHomeEnvironmentVar => ExitCode::EnvironmentError,
            ErrorDetails::NoLocalDataDir => ExitCode::EnvironmentError,
            ErrorDetails::NoPackageExecutables => ExitCode::InvalidArguments,
            ErrorDetails::NoPackageFound { .. } => ExitCode::NoVersionMatch,
            ErrorDetails::NoPinnedNodeVersion => ExitCode::ConfigurationError,
            ErrorDetails::NoSuchTool { .. } => ExitCode::NoVersionMatch,
            ErrorDetails::NotInPackage => ExitCode::ConfigurationError,
            ErrorDetails::NoToolChain { .. } => ExitCode::ExecutionFailure,
            ErrorDetails::NoVersionsFound => ExitCode::NoVersionMatch,
            ErrorDetails::NpxNotAvailable { .. } => ExitCode::ExecutableNotFound,
            ErrorDetails::PackageInstallFailed { .. } => ExitCode::FileSystemError,
            ErrorDetails::PackageInstallIoError { .. } => ExitCode::FileSystemError,
            ErrorDetails::PackageReadError { .. } => ExitCode::FileSystemError,
            ErrorDetails::PackageUnpackError => ExitCode::ConfigurationError,
            ErrorDetails::PathError => ExitCode::UnknownError,
            ErrorDetails::RegistryFetchError { .. } => ExitCode::NetworkError,
            ErrorDetails::SymlinkError { .. } => ExitCode::FileSystemError,
            ErrorDetails::ToolNotImplemented => ExitCode::ExecutableNotFound,
            ErrorDetails::UnrecognizedShell { .. } => ExitCode::EnvironmentError,
            ErrorDetails::UnspecifiedPostscript => ExitCode::EnvironmentError,
            ErrorDetails::UnspecifiedShell => ExitCode::EnvironmentError,
            ErrorDetails::VersionParseError { .. } => ExitCode::NoVersionMatch,
            ErrorDetails::YarnVersionNotFound { .. } => ExitCode::NoVersionMatch,
        }
    }

    /// Whether the message alone is fit to show a user; every failure of
    /// this core folds its diagnostic detail into the message.
    pub fn is_user_friendly(&self) -> (r: bool)
        ensures
            r,
    {
        true
    }
}

/// Every failure renders to a non-empty message.
pub proof fn lemma_message_nonempty(e: ErrorDetails)
    ensures
        message_of(e).len() > 0,
{
    reveal_strlit("Could not execute the binary");
    reveal_strlit("Could not create the symlink");
    reveal_strlit("Could not parse the version");
    reveal_strlit("Conflict with bin '");
    reveal_strlit("Only node, yarn, and npm can be pinned in a project");
    reveal_strlit("There was a problem parsing the command line input");
    reveal_strlit("command `");
    reveal_strlit("Tool name could not be determined");
    reveal_strlit("Could not create directory ");
    reveal_strlit("Could not read dependent package info: ");
    reveal_strlit("The subcommand `");
    reveal_strlit("Failed to download ");
    reveal_strlit(" not found");
    reveal_strlit("Invalid hook command: '");
    reveal_strlit("Platform info for executable `");
    reveal_strlit("No Node version found for ");
    reveal_strlit("\nGlobal package installs are not recommended.\n\nConsider using `notion install` to add a package to your toolchain (see `notion help install` for more info).");
    reveal_strlit("environment variable 'HOME' is not set");
    reveal_strlit("Windows LocalAppData directory not found");
    reveal_strlit("Package has no binaries or executables - nothing to do");
    reveal_strlit("No version of '");
    reveal_strlit("There is no pinned node version for this project");
    reveal_strlit("\nNo ");
    reveal_strlit("Not in a node package");
    reveal_strlit("No toolchain available to run ");
    reveal_strlit("no versions found");
    reveal_strlit("\n'npx' is only available with npm >= 5.2.0\n\nThis project is configured to use version ");
    reveal_strlit("Command `");
    reveal_strlit("Error executing package install command: ");
    reveal_strlit("Could not read package info: ");
    reveal_strlit("Package unpack error: Could not determine unpack directory name");
    reveal_strlit("`path` internal error");
    reveal_strlit("Could not fetch public registry\n");
    reveal_strlit("this tool is not yet implemented");
    reveal_strlit("Unrecognized shell: ");
    reveal_strlit("Notion postscript file not specified");
    reveal_strlit("Notion shell not specified");
    reveal_strlit("No Yarn version found for ");
}

} // verus!
