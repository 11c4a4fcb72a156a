//! The configuration, its builder, and what becomes of it.
use rustic_core::repofile::MasterKey;
use rustic_core::{
    CommandInput, ConfigOptions, Credentials, ErrorKind as RusticKind, KeyOptions,
    RepositoryOptions, RusticError,
};
use rustic_vfs::backend::VfsBackend;
use rustic_vfs::config::{BackendOptions, RusticVfsBuilder, RusticVfsConfig};
use rustic_vfs::error::{ErrorKind, ErrorStatus, VfsError};
use rustic_vfs::repository::RepositoryRequest;
use rustic_vfs::storage::backends_resolved;
use std::time::Duration;

fn password() -> Credentials {
    Credentials::password("s3cr3t")
}

fn at(location: &str) -> BackendOptions {
    BackendOptions { repository: Some(location.to_string()), ..BackendOptions::default() }
}

fn config_at(location: &str) -> RusticVfsConfig {
    RusticVfsConfig {
        backend: at(location),
        credentials: Some(password()),
        ..RusticVfsConfig::default()
    }
}

#[test]
fn default_configuration_is_blank() {
    let config = RusticVfsConfig::default();
    assert_eq!(config.backend.repository, None);
    assert_eq!(config.backend.repo_hot, None);
    assert!(config.backend.options.is_empty());
    assert!(config.backend.options_hot.is_empty());
    assert!(config.backend.options_cold.is_empty());
    assert!(config.credentials.is_none());
    assert_eq!(config.refresh_interval, None);
    assert_eq!(
        format!("{:?}", config.options),
        format!("{:?}", RepositoryOptions::default())
    );
}

#[test]
fn builder_sets_one_field_at_a_time() {
    let mut options = RepositoryOptions::default();
    options.no_cache = true;
    let builder = RusticVfsBuilder::default()
        .with_options(options)
        .with_backend(at("/repo"))
        .with_credentials(password())
        .with_refresh_interval(Duration::from_secs(30));
    assert!(builder.config.options.no_cache);
    assert_eq!(builder.config.backend.repository, Some("/repo".to_string()));
    assert!(matches!(&builder.config.credentials, Some(Credentials::Password(p)) if p == "s3cr3t"));
    assert_eq!(builder.config.refresh_interval, Some(Duration::from_secs(30)));
    let builder = builder.with_refresh_interval(None);
    assert_eq!(builder.config.refresh_interval, None);
    assert_eq!(builder.config.backend.repository, Some("/repo".to_string()));
}

#[test]
fn builder_starts_from_a_configuration() {
    let builder = config_at("/repo").into_builder();
    assert_eq!(builder.config.backend.repository, Some("/repo".to_string()));
    assert!(builder.config.credentials.is_some());
}

#[test]
fn configurations_can_be_cloned() {
    let config = config_at("/repo");
    let copy = config.clone();
    assert_eq!(format!("{copy:?}"), format!("{config:?}"));
    assert_eq!(copy.backend.repository, Some("/repo".to_string()));
}

#[test]
fn missing_credentials_are_refused() {
    let error = RusticVfsBuilder::default().with_backend(at("/repo")).build().expect_err("refused");
    assert!(matches!(error, VfsError::MissingCredentials));
    assert_eq!(error.kind(), ErrorKind::ConfigInvalid);
    let error = VfsBackend::from_config(RusticVfsConfig::default()).expect_err("refused");
    assert!(matches!(error, VfsError::MissingCredentials));
}

#[test]
fn missing_location_is_refused() {
    let config = RusticVfsConfig { credentials: Some(password()), ..RusticVfsConfig::default() };
    let error = VfsBackend::from_config(config).expect_err("refused");
    assert_eq!(error.kind(), ErrorKind::ConfigInvalid);
    assert_eq!(error.status(), ErrorStatus::Permanent);
    assert_eq!(
        error.context(),
        vec![("repo", String::new()), ("repo_hot", String::new())]
    );
    let source = error.into_source().expect("rustic said why");
    assert!(format!("{source:?}").contains("No repository given"));
}

#[test]
fn unknown_scheme_is_refused() {
    let mut config = config_at("carrier-pigeon:coop");
    config.backend.repo_hot = Some("/hot".to_string());
    let error = VfsBackend::from_config(config).expect_err("refused");
    assert_eq!(error.kind(), ErrorKind::ConfigInvalid);
    assert_eq!(
        error.context(),
        vec![("repo", "carrier-pigeon:coop".to_string()), ("repo_hot", "/hot".to_string())]
    );
}

#[test]
fn unknown_scheme_of_the_hot_part_is_refused() {
    let mut config = config_at("/repo");
    config.backend.repo_hot = Some("carrier-pigeon:coop".to_string());
    let error = VfsBackend::from_config(config).expect_err("refused");
    assert!(matches!(error, VfsError::BackendConfig { .. }));
}

#[test]
fn local_repository_is_accepted() {
    let request = config_at("/some/repo").into_builder().build().expect("accepted");
    assert_eq!(request.repository.name, "local:/some/repo");
    assert!(matches!(&request.credentials, Credentials::Password(p) if p == "s3cr3t"));
    let request = VfsBackend::from_config(config_at("local:/some/repo")).expect("accepted");
    assert_eq!(request.repository.name, "local:/some/repo");
}

#[test]
fn hot_part_reaches_the_storage() {
    let mut config = config_at("/cold");
    config.backend.repo_hot = Some("/hot".to_string());
    let request = VfsBackend::from_config(config).expect("accepted");
    assert_eq!(request.repository.name, "local:/cold#local:/hot");
}

#[test]
fn options_reach_the_part_they_are_for() {
    let dir = tempfile::tempdir().expect("tempdir");
    let path = |name: &str| dir.path().join(name).to_string_lossy().to_string();
    let command = |name: &str| format!("touch {}", path(name));
    let created = "post-create-command".to_string();
    let mut config = config_at(&path("cold"));
    config.credentials = Some(Credentials::Masterkey(MasterKey::default()));
    config.backend.repo_hot = Some(path("hot"));
    config.backend.options.insert(created.clone(), command("both_marker"));
    config.backend.options_hot.insert(created.clone(), command("hot_marker"));
    let request = VfsBackend::from_config(config).expect("accepted");
    request
        .repository
        .init(&request.credentials, &KeyOptions::default(), &ConfigOptions::default())
        .expect("a new repository");
    // The cold part goes by the options for both, the hot part by its own.
    assert!(dir.path().join("both_marker").exists());
    assert!(dir.path().join("hot_marker").exists());

    let mut config = config_at(&path("alone"));
    config.credentials = Some(Credentials::Masterkey(MasterKey::default()));
    config.backend.options.insert(created.clone(), command("unused_marker"));
    config.backend.options_cold.insert(created, command("cold_marker"));
    let request = VfsBackend::from_config(config).expect("accepted");
    request
        .repository
        .init(&request.credentials, &KeyOptions::default(), &ConfigOptions::default())
        .expect("a new repository");
    assert!(dir.path().join("cold_marker").exists());
    assert!(!dir.path().join("unused_marker").exists());
}

#[test]
fn refresh_interval_defaults_to_five_minutes() {
    let request = VfsBackend::from_config(config_at("/repo")).expect("accepted");
    assert_eq!(request.refresh_interval, Duration::from_secs(300));
    let mut config = config_at("/repo");
    config.refresh_interval = Some(Duration::from_millis(1500));
    let request = VfsBackend::from_config(config).expect("accepted");
    assert_eq!(request.refresh_interval, Duration::from_millis(1500));
}

#[test]
fn malformed_options_are_unexpected() {
    let mut config = config_at("/repo");
    config.options.warm_up_command = Some("no placeholder".parse::<CommandInput>().expect("command"));
    let error = VfsBackend::from_config(config).expect_err("refused");
    assert!(matches!(error, VfsError::OpenRepository { .. }));
    assert_eq!(error.kind(), ErrorKind::Unexpected);
    assert_eq!(error.status(), ErrorStatus::Temporary);
}

#[test]
fn failed_opening_is_unexpected() {
    let failed: Result<(), Box<RusticError>> =
        Err(RusticError::new(RusticKind::Credentials, "wrong password"));
    let error = RepositoryRequest::opened(failed).expect_err("not opened");
    assert!(matches!(error, VfsError::OpenRepository { .. }));
    assert_eq!(error.kind(), ErrorKind::Unexpected);
    assert_eq!(RepositoryRequest::opened(Ok(3)).expect("opened"), 3);
}

#[test]
fn failed_storage_names_the_locations() {
    let mut backend = at("/cold");
    backend.repo_hot = Some("/hot".to_string());
    let error = backends_resolved(
        backend,
        Err(RusticError::new(RusticKind::Backend, "unplugged")),
    )
    .expect_err("no storage");
    assert_eq!(
        error.context(),
        vec![("repo", "/cold".to_string()), ("repo_hot", "/hot".to_string())]
    );
    let source = error.into_source().expect("rustic said why");
    assert!(format!("{source:?}").contains("unplugged"));
}
