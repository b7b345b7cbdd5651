use codequest_judge::error::{ConfigurationError, SandboxError};

#[test]
fn configuration_error_texts() {
    assert_eq!(
        ConfigurationError::UnknownLanguage("ruby".to_string()).to_string(),
        "Unsupported language: ruby"
    );
    assert_eq!(
        ConfigurationError::MissingRuntime("python".to_string()).to_string(),
        "No runtime module loaded for language: python"
    );
    assert_eq!(
        ConfigurationError::InvalidRuntime("bad magic".to_string()).to_string(),
        "Invalid runtime module: bad magic"
    );
}

#[test]
fn sandbox_error_texts() {
    assert_eq!(
        SandboxError::Configuration(ConfigurationError::UnknownLanguage("ruby".to_string()))
            .to_string(),
        "Unsupported language: ruby"
    );
    assert_eq!(
        SandboxError::Compilation("line 1: syntax error".to_string()).to_string(),
        "Compilation failed: line 1: syntax error"
    );
    assert_eq!(
        SandboxError::Host("out of memory".to_string()).to_string(),
        "Sandbox host error: out of memory"
    );
}

#[test]
fn only_configuration_errors_are_configuration_errors() {
    assert!(SandboxError::Configuration(ConfigurationError::MissingRuntime("go".to_string()))
        .is_configuration());
    assert!(!SandboxError::Compilation(String::new()).is_configuration());
    assert!(!SandboxError::Host(String::new()).is_configuration());
}
