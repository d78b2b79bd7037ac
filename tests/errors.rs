use notion_core::error::{ErrorDetails, ExitCode};

fn s(text: &str) -> String {
    String::from(text)
}

fn every_variant() -> Vec<(ErrorDetails, ExitCode)> {
    vec![
        (ErrorDetails::BinaryAlreadyInstalled { bin_name: s("tsc"), package: s("typescript"), version: s("3.1.0") }, ExitCode::FileSystemError),
        (ErrorDetails::BinaryExecError { error: s("boom") }, ExitCode::ExecutionFailure),
        (ErrorDetails::CannotPinPackage, ExitCode::InvalidArguments),
        (ErrorDetails::CliParseError, ExitCode::UnknownError),
        (ErrorDetails::CommandNotImplemented { command_name: s("use") }, ExitCode::NotYetImplemented),
        (ErrorDetails::CouldNotDetermineTool, ExitCode::UnknownError),
        (ErrorDetails::CreateDirError { dir: s("C:\\x"), error: s("denied") }, ExitCode::FileSystemError),
        (ErrorDetails::DepPackageReadError { error: s("bad") }, ExitCode::FileSystemError),
        (ErrorDetails::DeprecatedCommandError { command: s("use"), advice: s("use pin") }, ExitCode::InvalidArguments),
        (ErrorDetails::DownloadToolNetworkError { tool: s("node v10.13.0"), from_url: s("https://nodejs.org"), error: s("timeout") }, ExitCode::NetworkError),
        (ErrorDetails::DownloadToolNotFound { tool: s("node v99.0.0") }, ExitCode::NoVersionMatch),
        (ErrorDetails::InvalidHookCommand { command: s("rm") }, ExitCode::UnknownError),
        (ErrorDetails::NoBinPlatform { binary: s("tsc") }, ExitCode::ExecutionFailure),
        (ErrorDetails::NodeVersionNotFound { matching: s("^99") }, ExitCode::NoVersionMatch),
        (ErrorDetails::NoGlobalInstalls, ExitCode::InvalidArguments),
        (ErrorDetails::NoHomeEnvironmentVar, ExitCode::EnvironmentError),
        (ErrorDetails::NoLocalDataDir, ExitCode::EnvironmentError),
        (ErrorDetails::NoPackageExecutables, ExitCode::InvalidArguments),
        (ErrorDetails::NoPackageFound { name: s("ember-cli"), matching: s("^9") }, ExitCode::NoVersionMatch),
        (ErrorDetails::NoPinnedNodeVersion, ExitCode::ConfigurationError),
        (ErrorDetails::NoSuchTool { tool: s("Yarn") }, ExitCode::NoVersionMatch),
        (ErrorDetails::NotInPackage, ExitCode::ConfigurationError),
        (ErrorDetails::NoToolChain { shim_name: s("node") }, ExitCode::ExecutionFailure),
        (ErrorDetails::NoVersionsFound, ExitCode::NoVersionMatch),
        (ErrorDetails::NpxNotAvailable { version: s("5.1.0") }, ExitCode::ExecutableNotFound),
        (ErrorDetails::PackageInstallFailed { cmd: s("npm install"), status: s("exit code: 1") }, ExitCode::FileSystemError),
        (ErrorDetails::PackageInstallIoError { error: s("no npm") }, ExitCode::FileSystemError),
        (ErrorDetails::PackageReadError { error: s("bad json") }, ExitCode::FileSystemError),
        (ErrorDetails::PackageUnpackError, ExitCode::ConfigurationError),
        (ErrorDetails::PathError, ExitCode::UnknownError),
        (ErrorDetails::RegistryFetchError { error: s("offline") }, ExitCode::NetworkError),
        (ErrorDetails::SymlinkError { error: s("not permitted") }, ExitCode::FileSystemError),
        (ErrorDetails::ToolNotImplemented, ExitCode::ExecutableNotFound),
        (ErrorDetails::UnrecognizedShell { name: s("tcsh") }, ExitCode::EnvironmentError),
        (ErrorDetails::UnspecifiedPostscript, ExitCode::EnvironmentError),
        (ErrorDetails::UnspecifiedShell, ExitCode::EnvironmentError),
        (ErrorDetails::VersionParseError { error: s("unexpected character") }, ExitCode::NoVersionMatch),
        (ErrorDetails::YarnVersionNotFound { matching: s("^9") }, ExitCode::NoVersionMatch),
    ]
}

#[test]
fn every_variant_has_its_exit_code() {
    let all = every_variant();
    assert_eq!(all.len(), 38);
    for (e, code) in all {
        assert_eq!(e.exit_code(), code, "{:?}", e);
    }
}

#[test]
fn every_variant_renders_non_empty_and_is_user_friendly() {
    for (e, _) in every_variant() {
        assert!(!e.to_string().is_empty(), "{:?}", e);
        assert!(e.is_user_friendly());
    }
}

#[test]
fn messages_fill_in_their_payload() {
    let e = ErrorDetails::BinaryAlreadyInstalled { bin_name: s("tsc"), package: s("typescript"), version: s("3.1.0") };
    assert_eq!(e.to_string(), "Conflict with bin 'tsc' already installed by 'typescript' version 3.1.0");
    let e = ErrorDetails::CreateDirError { dir: s("C:\\x"), error: s("denied") };
    assert_eq!(e.to_string(), "Could not create directory C:\\x: denied");
    let e = ErrorDetails::DownloadToolNotFound { tool: s("node v99.0.0") };
    assert_eq!(e.to_string(), "node v99.0.0 not found");
    let e = ErrorDetails::RegistryFetchError { error: s("offline") };
    assert_eq!(e.to_string(), "Could not fetch public registry\noffline");
    assert_eq!(ErrorDetails::NoLocalDataDir.to_string(), "Windows LocalAppData directory not found");
    assert_eq!(ErrorDetails::NoHomeEnvironmentVar.to_string(), "environment variable 'HOME' is not set");
}

#[test]
fn multi_line_messages() {
    let e = ErrorDetails::NoSuchTool { tool: s("Yarn") };
    assert_eq!(
        e.to_string(),
        "\nNo Yarn version selected.\n\nSee `notion help pin` for help adding Yarn to a project toolchain.\n\nSee `notion help install` for help adding Yarn to your personal toolchain."
    );
    let e = ErrorDetails::NpxNotAvailable { version: s("5.1.0") };
    assert_eq!(
        e.to_string(),
        "\n'npx' is only available with npm >= 5.2.0\n\nThis project is configured to use version 5.1.0 of npm."
    );
    assert!(ErrorDetails::NoGlobalInstalls.to_string().starts_with("\nGlobal package installs are not recommended."));
}

#[test]
fn pass_through_message_is_the_error_text() {
    let e = ErrorDetails::SymlinkError { error: s("not permitted") };
    assert_eq!(e.to_string(), "not permitted");
}

#[test]
fn empty_error_text_renders_a_fallback() {
    assert_eq!(ErrorDetails::BinaryExecError { error: s("") }.to_string(), "Could not execute the binary");
    assert_eq!(ErrorDetails::SymlinkError { error: s("") }.to_string(), "Could not create the symlink");
    assert_eq!(ErrorDetails::VersionParseError { error: s("") }.to_string(), "Could not parse the version");
}
