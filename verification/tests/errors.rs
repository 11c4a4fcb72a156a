//! How errors are reported.
use rustic_core::{ErrorKind as RusticKind, RusticError};
use rustic_vfs::error::{ErrorKind, ErrorStatus, VfsError};

fn cause() -> Box<RusticError> {
    RusticError::new(RusticKind::Backend, "the disk is on fire")
}

fn all() -> Vec<(VfsError, ErrorKind, ErrorStatus, &'static str, bool)> {
    vec![
        (
            VfsError::MissingCredentials,
            ErrorKind::ConfigInvalid,
            ErrorStatus::Permanent,
            "Credentials must be supplied via `RusticVfsConfig::credentials`.",
            false,
        ),
        (
            VfsError::BackendConfig {
                repo: "r".to_string(),
                repo_hot: "h".to_string(),
                source: cause(),
            },
            ErrorKind::ConfigInvalid,
            ErrorStatus::Permanent,
            "Failed to parse backend config.",
            true,
        ),
        (
            VfsError::OpenRepository { source: cause() },
            ErrorKind::Unexpected,
            ErrorStatus::Temporary,
            "Failed to open rustic repository. Check that options and credentials are correct.",
            true,
        ),
        (
            VfsError::BuildVfs { source: cause() },
            ErrorKind::Unexpected,
            ErrorStatus::Temporary,
            "Failed to build VFS.",
            true,
        ),
        (
            VfsError::PathNotFound { source: cause() },
            ErrorKind::NotFound,
            ErrorStatus::Permanent,
            "Path not found in VFS.",
            true,
        ),
        (
            VfsError::DirectoryNotFound { source: cause() },
            ErrorKind::NotFound,
            ErrorStatus::Permanent,
            "Directory not found in VFS.",
            true,
        ),
        (
            VfsError::NotADirectory,
            ErrorKind::NotFound,
            ErrorStatus::Permanent,
            "Directory not found in VFS.",
            false,
        ),
        (
            VfsError::OpenFile { source: cause() },
            ErrorKind::Unexpected,
            ErrorStatus::Temporary,
            "Failed to open file in rustic backend.",
            true,
        ),
        (
            VfsError::BlobLengths,
            ErrorKind::Unexpected,
            ErrorStatus::Temporary,
            "Failed to open file in rustic backend.",
            false,
        ),
        (
            VfsError::ReadFile { source: cause() },
            ErrorKind::Unexpected,
            ErrorStatus::Temporary,
            "Failed to read file from rustic backend.",
            true,
        ),
    ]
}

#[test]
fn errors_have_their_kind_status_message_and_cause() {
    for (error, kind, status, message, has_source) in all() {
        assert_eq!(error.kind(), kind);
        assert_eq!(error.status(), status);
        assert_eq!(error.message(), message);
        match error.into_source() {
            Some(source) => {
                assert!(has_source);
                assert!(format!("{source:?}").contains("the disk is on fire"));
            }
            None => assert!(!has_source),
        }
    }
}

#[test]
fn only_a_bad_backend_config_has_context() {
    for (error, ..) in all() {
        let context = error.context();
        if matches!(error, VfsError::BackendConfig { .. }) {
            assert_eq!(context, vec![("repo", "r".to_string()), ("repo_hot", "h".to_string())]);
        } else {
            assert!(context.is_empty());
        }
    }
}

#[test]
fn unexpected_errors_are_the_temporary_ones() {
    for (error, ..) in all() {
        assert_eq!(
            error.kind() == ErrorKind::Unexpected,
            error.status() == ErrorStatus::Temporary
        );
    }
}
