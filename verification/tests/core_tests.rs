use deva::config::DevaConfig;
use deva::errors::DevaError;
use deva::generator::GeneratorError;

#[test]
fn test_error_display_not_found() {
    let err = DevaError::NotFound("file.txt".to_string());
    assert_eq!(err.message(), "Not found: file.txt");
}

#[test]
fn test_error_from_io() {
    let io_err = std::io::Error::new(std::io::ErrorKind::NotFound, "test");
    let err = DevaError::from(io_err);
    assert!(matches!(err, DevaError::Io(_)));
}

#[test]
fn default_config_values() {
    let config = DevaConfig::default_config();
    assert_eq!(config.github.owner, "stringao");
    assert_eq!(config.github.repo, "deva");
    assert_eq!(config.github.token, "");
    assert_eq!(config.azure_devops.organization, "");
    assert_eq!(config.azure_devops.token, "");
    assert_eq!(config.azure_devops.project, "");
    assert_eq!(config.telegram.bot_token, "");
    assert_eq!(config.telegram.chat_id, "");
    assert_eq!(config.database.url, "sqlite:./deva.db");
    assert_eq!(config.auth.jwt_secret, "");
    assert_eq!(config.auth.encryption_key, "");
}

#[test]
fn deva_error_messages_have_their_prefixes() {
    assert_eq!(DevaError::Config("x".to_string()).message(), "Config error: x");
    assert_eq!(DevaError::Network("x".to_string()).message(), "Network error: x");
    assert_eq!(DevaError::Auth("x".to_string()).message(), "Auth error: x");
    assert_eq!(DevaError::Validation("x".to_string()).message(), "Validation error: x");
    assert_eq!(DevaError::GitHub("x".to_string()).message(), "GitHub error: x");
    assert_eq!(DevaError::AzureDevOps("x".to_string()).message(), "Azure DevOps error: x");
    assert_eq!(DevaError::Telegram("x".to_string()).message(), "Telegram error: x");
    assert_eq!(DevaError::Scaffolding("x".to_string()).message(), "Scaffolding error: x");
}

#[test]
fn io_error_message_shows_the_io_error() {
    let err = DevaError::from(std::io::Error::new(std::io::ErrorKind::Other, "disk full"));
    assert_eq!(err.message(), "IO error: disk full");
}

#[test]
fn json_error_converts_and_shows() {
    let json_err = serde_json::from_str::<serde_json::Value>("{").unwrap_err();
    let text = json_err.to_string();
    let err = DevaError::from(json_err);
    assert!(matches!(err, DevaError::Json(_)));
    assert_eq!(err.message(), format!("JSON error: {}", text));
}

#[test]
fn generator_error_messages() {
    assert_eq!(GeneratorError::Template("bad".to_string()).message(), "Template error: bad");
    assert_eq!(GeneratorError::Generation("bad".to_string()).message(), "Generation error: bad");
    let io = GeneratorError::from(std::io::Error::new(std::io::ErrorKind::Other, "gone"));
    assert!(matches!(io, GeneratorError::Io(_)));
    assert_eq!(io.message(), "IO error: gone");
}
