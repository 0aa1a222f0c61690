use devcheck::error::DevCheckError;

#[test]
fn messages() {
    assert_eq!(
        DevCheckError::CargoNotFound.message(),
        "cargo command not found - please install Rust and cargo"
    );
    assert_eq!(DevCheckError::Timeout { timeout: 300 }.message(), "check timed out after 300 seconds");
    assert_eq!(
        DevCheckError::ConfigError("invalid format: xml".to_string()).message(),
        "invalid configuration: invalid format: xml"
    );
    assert_eq!(DevCheckError::ManifestNotFound("/p".to_string()).message(), "Cargo.toml not found in /p");
    assert_eq!(DevCheckError::Other("boom".to_string()).message(), "boom");
}

#[test]
fn execution_error_message() {
    let source = std::io::Error::new(std::io::ErrorKind::NotFound, "no such program");
    let e = DevCheckError::ExecutionError { command: "cargo".to_string(), source };
    assert_eq!(e.message(), "failed to execute cargo: no such program");
}
