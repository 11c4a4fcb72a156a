//! The errors of the service, and how each is reported to OpenDAL.
use rustic_core::RusticError;
use vstd::prelude::*;

verus! {

/// The error type of rustic. It is carried along as the cause of an error and
/// never looked into.
#[verifier::external_type_specification]
#[verifier::external_body]
pub struct ExRusticError(rustic_core::RusticError);

/// The OpenDAL error kinds that the service reports.
#[derive(Clone, Copy, Debug, PartialEq, Eq, Structural)]
pub enum ErrorKind {
    /// Something in the repository layer went wrong.
    Unexpected,
    /// The configuration cannot be used.
    ConfigInvalid,
    /// The path does not exist.
    NotFound,
}

/// Whether an operation that failed is worth retrying.
#[derive(Clone, Copy, Debug, PartialEq, Eq, Structural)]
pub enum ErrorStatus {
    /// A retry fails in the same way.
    Permanent,
    /// A retry may succeed.
    Temporary,
}

/// What the service can fail with, each with the rustic error behind it.
#[derive(Debug)]
pub enum VfsError {
    /// The configuration holds no credentials.
    MissingCredentials,
    /// The storage options name no usable storage.
    BackendConfig {
        /// The repository location that was configured, or nothing.
        repo: String,
        /// The hot repository location that was configured, or nothing.
        repo_hot: String,
        /// What rustic said.
        source: Box<RusticError>,
    },
    /// The repository could not be opened or its index not be loaded.
    OpenRepository {
        /// What rustic said.
        source: Box<RusticError>,
    },
    /// The snapshots could not be read or not be arranged into a tree.
    BuildVfs {
        /// What rustic said.
        source: Box<RusticError>,
    },
    /// No node stands at the path.
    PathNotFound {
        /// What rustic said.
        source: Box<RusticError>,
    },
    /// No directory stands at the path.
    DirectoryNotFound {
        /// What rustic said.
        source: Box<RusticError>,
    },
    /// A node stands at the path, but it is no directory.
    NotADirectory,
    /// The file at the path could not be opened.
    OpenFile {
        /// What rustic said.
        source: Box<RusticError>,
    },
    /// The index has lengths of the blobs of the file that cannot be: one of them is
    /// negative, or they add up to more than the machine can address.
    BlobLengths,
    /// A chunk of the file could not be read.
    ReadFile {
        /// What rustic said.
        source: Box<RusticError>,
    },
}

impl VfsError {
    /// The kind under which the error is reported.
    pub open spec fn spec_kind(&self) -> ErrorKind {
        match self {
            VfsError::MissingCredentials => ErrorKind::ConfigInvalid,
            VfsError::BackendConfig { .. } => ErrorKind::ConfigInvalid,
            VfsError::PathNotFound { .. } => ErrorKind::NotFound,
            VfsError::DirectoryNotFound { .. } => ErrorKind::NotFound,
            VfsError::NotADirectory => ErrorKind::NotFound,
            _ => ErrorKind::Unexpected,
        }
    }

    /// Whether the operation is worth retrying.
    pub open spec fn spec_status(&self) -> ErrorStatus {
        match self {
            VfsError::OpenRepository { .. } => ErrorStatus::Temporary,
            VfsError::BuildVfs { .. } => ErrorStatus::Temporary,
            VfsError::OpenFile { .. } => ErrorStatus::Temporary,
            VfsError::BlobLengths => ErrorStatus::Temporary,
            VfsError::ReadFile { .. } => ErrorStatus::Temporary,
            _ => ErrorStatus::Permanent,
        }
    }

    /// The message with which the error is reported.
    pub open spec fn spec_message(&self) -> Seq<char> {
        match self {
            VfsError::MissingCredentials => {
                "Credentials must be supplied via `RusticVfsConfig::credentials`."@
            },
            VfsError::BackendConfig { .. } => "Failed to parse backend config."@,
            VfsError::OpenRepository { .. } => {
                "Failed to open rustic repository. Check that options and credentials are correct."@
            },
            VfsError::BuildVfs { .. } => "Failed to build VFS."@,
            VfsError::PathNotFound { .. } => "Path not found in VFS."@,
            VfsError::DirectoryNotFound { .. } => "Directory not found in VFS."@,
            VfsError::NotADirectory => "Directory not found in VFS."@,
            VfsError::OpenFile { .. } => "Failed to open file in rustic backend."@,
            VfsError::BlobLengths => "Failed to open file in rustic backend."@,
            VfsError::ReadFile { .. } => "Failed to read file from rustic backend."@,
        }
    }

    /// The context reported with the error: keys, each with its value.
    pub open spec fn spec_context(&self) -> Seq<(Seq<char>, Seq<char>)> {
        match self {
            VfsError::BackendConfig { repo, repo_hot, .. } => seq![
                ("repo"@, repo@),
                ("repo_hot"@, repo_hot@),
            ],
            _ => seq![],
        }
    }

    /// The rustic error behind the error, if there is one.
    pub open spec fn spec_source(&self) -> Option<Box<RusticError>> {
        match self {
            VfsError::MissingCredentials => None,
            VfsError::BackendConfig { source, .. } => Some(*source),
            VfsError::OpenRepository { source } => Some(*source),
            VfsError::BuildVfs { source } => Some(*source),
            VfsError::PathNotFound { source } => Some(*source),
            VfsError::DirectoryNotFound { source } => Some(*source),
            VfsError::NotADirectory => None,
            VfsError::OpenFile { source } => Some(*source),
            VfsError::BlobLengths => None,
            VfsError::ReadFile { source } => Some(*source),
        }
    }

    /// The kind under which the error is reported.
    pub fn kind(&self) -> (kind: ErrorKind)
        ensures
            kind == self.spec_kind(),
    {
        match self {
            VfsError::MissingCredentials => ErrorKind::ConfigInvalid,
            VfsError::BackendConfig { .. } => ErrorKind::ConfigInvalid,
            VfsError::PathNotFound { .. } => ErrorKind::NotFound,
            VfsError::DirectoryNotFound { .. } => ErrorKind::NotFound,
            VfsError::NotADirectory => ErrorKind::NotFound,
            VfsError::OpenRepository { .. } => ErrorKind::Unexpected,
            VfsError::BuildVfs { .. } => ErrorKind::Unexpected,
            VfsError::OpenFile { .. } => ErrorKind::Unexpected,
            VfsError::BlobLengths => ErrorKind::Unexpected,
            VfsError::ReadFile { .. } => ErrorKind::Unexpected,
        }
    }

    /// Whether the operation is worth retrying.
    pub fn status(&self) -> (status: ErrorStatus)
        ensures
            status == self.spec_status(),
    {
        match self {
            VfsError::OpenRepository { .. } => ErrorStatus::Temporary,
            VfsError::BuildVfs { .. } => ErrorStatus::Temporary,
            VfsError::OpenFile { .. } => ErrorStatus::Temporary,
            VfsError::BlobLengths => ErrorStatus::Temporary,
            VfsError::ReadFile { .. } => ErrorStatus::Temporary,
            VfsError::MissingCredentials => ErrorStatus::Permanent,
            VfsError::BackendConfig { .. } => ErrorStatus::Permanent,
            VfsError::PathNotFound { .. } => ErrorStatus::Permanent,
            VfsError::DirectoryNotFound { .. } => ErrorStatus::Permanent,
            VfsError::NotADirectory => ErrorStatus::Permanent,
        }
    }

    /// The message with which the error is reported.
    pub fn message(&self) -> (message: &'static str)
        ensures
            message@ == self.spec_message(),
    {
        match self {
            VfsError::MissingCredentials => {
                "Credentials must be supplied via `RusticVfsConfig::credentials`."
            },
            VfsError::BackendConfig { .. } => "Failed to parse backend config.",
            VfsError::OpenRepository { .. } => {
                "Failed to open rustic repository. Check that options and credentials are correct."
            },
            VfsError::BuildVfs { .. } => "Failed to build VFS.",
            VfsError::PathNotFound { .. } => "Path not found in VFS.",
            VfsError::DirectoryNotFound { .. } => "Directory not found in VFS.",
            VfsError::NotADirectory => "Directory not found in VFS.",
            VfsError::OpenFile { .. } => "Failed to open file in rustic backend.",
            VfsError::BlobLengths => "Failed to open file in rustic backend.",
            VfsError::ReadFile { .. } => "Failed to read file from rustic backend.",
        }
    }

    /// The context reported with the error: keys, each with its value.
    pub fn context(&self) -> (context: Vec<(&'static str, String)>)
        ensures
            context@.map_values(|c: (&'static str, String)| (c.0@, c.1@)) == self.spec_context(),
    {
        let mut context: Vec<(&'static str, String)> = Vec::new();
        if let VfsError::BackendConfig { repo, repo_hot, .. } = self {
            context.push(("repo", repo.clone()));
            context.push(("repo_hot", repo_hot.clone()));
        }
        context
    }

    /// The rustic error behind the error, if there is one.
    pub fn into_source(self) -> (source: Option<Box<RusticError>>)
        ensures
            source == self.spec_source(),
    {
        match self {
            VfsError::MissingCredentials => None,
            VfsError::BackendConfig { source, .. } => Some(source),
            VfsError::OpenRepository { source } => Some(source),
            VfsError::BuildVfs { source } => Some(source),
            VfsError::PathNotFound { source } => Some(source),
            VfsError::DirectoryNotFound { source } => Some(source),
            VfsError::NotADirectory => None,
            VfsError::OpenFile { source } => Some(source),
            VfsError::BlobLengths => None,
            VfsError::ReadFile { source } => Some(source),
        }
    }
}

/// An error is worth retrying exactly where it is reported as unexpected: a bad
/// configuration and a missing path stay what they are.
pub proof fn law_only_unexpected_errors_are_temporary(error: VfsError)
    ensures
        error.spec_status() == ErrorStatus::Temporary <==> error.spec_kind()
            == ErrorKind::Unexpected,
{
}

/// Under which kind each error is reported: a configuration without credentials or
/// usable storage as invalid, a missing path or directory as not found, and
/// whatever fails in the repository as unexpected.
pub proof fn law_kind_of_an_error(error: &VfsError, kind: ErrorKind)
    requires
        call_ensures(VfsError::kind, (error,), kind),
    ensures
        kind == ErrorKind::ConfigInvalid <==> error is MissingCredentials || error is BackendConfig,
        kind == ErrorKind::NotFound <==> error is PathNotFound || error is DirectoryNotFound
            || error is NotADirectory,
        kind == ErrorKind::Unexpected <==> error is OpenRepository || error is BuildVfs
            || error is OpenFile || error is BlobLengths || error is ReadFile,
{
}

/// What failed in the repository may succeed on a retry; nothing else does.
pub proof fn law_status_of_an_error(error: &VfsError, status: ErrorStatus)
    requires
        call_ensures(VfsError::status, (error,), status),
    ensures
        status == ErrorStatus::Temporary <==> error is OpenRepository || error is BuildVfs
            || error is OpenFile || error is BlobLengths || error is ReadFile,
        status == ErrorStatus::Permanent <==> error is MissingCredentials || error is BackendConfig
            || error is PathNotFound || error is DirectoryNotFound || error is NotADirectory,
{
}

/// With which words each error is reported.
pub proof fn law_message_of_an_error(error: &VfsError, message: &'static str)
    requires
        call_ensures(VfsError::message, (error,), message),
    ensures
        error is MissingCredentials ==> message@
            == "Credentials must be supplied via `RusticVfsConfig::credentials`."@,
        error is BackendConfig ==> message@ == "Failed to parse backend config."@,
        error is OpenRepository ==> message@
            == "Failed to open rustic repository. Check that options and credentials are correct."@,
        error is BuildVfs ==> message@ == "Failed to build VFS."@,
        error is PathNotFound ==> message@ == "Path not found in VFS."@,
        error is DirectoryNotFound || error is NotADirectory ==> message@
            == "Directory not found in VFS."@,
        error is OpenFile || error is BlobLengths ==> message@
            == "Failed to open file in rustic backend."@,
        error is ReadFile ==> message@ == "Failed to read file from rustic backend."@,
{
}

/// An error on the storage names the two locations that were configured; no other
/// error has a context.
pub proof fn law_context_of_an_error(error: &VfsError, context: Vec<(&'static str, String)>)
    requires
        call_ensures(VfsError::context, (error,), context),
    ensures
        error matches VfsError::BackendConfig { repo, repo_hot, .. } ==> {
            &&& context@.len() == 2
            &&& context@[0].0@ == "repo"@ && context@[0].1@ == repo@
            &&& context@[1].0@ == "repo_hot"@ && context@[1].1@ == repo_hot@
        },
        !(error is BackendConfig) ==> context@.len() == 0,
{
    let pairs = context@.map_values(|c: (&'static str, String)| (c.0@, c.1@));
    assert(pairs == error.spec_context());
    assert(pairs.len() == context@.len());
    if error is BackendConfig {
        assert(pairs[0] == (context@[0].0@, context@[0].1@));
        assert(pairs[1] == (context@[1].0@, context@[1].1@));
    }
}

/// An error that rustic caused comes with what rustic said, and no other does.
pub proof fn law_source_of_an_error(error: VfsError, source: Option<Box<RusticError>>)
    requires
        call_ensures(VfsError::into_source, (error,), source),
    ensures
        error matches VfsError::BackendConfig { source: s, .. } ==> source == Some(s),
        error matches VfsError::OpenRepository { source: s } ==> source == Some(s),
        error matches VfsError::BuildVfs { source: s } ==> source == Some(s),
        error matches VfsError::PathNotFound { source: s } ==> source == Some(s),
        error matches VfsError::DirectoryNotFound { source: s } ==> source == Some(s),
        error matches VfsError::OpenFile { source: s } ==> source == Some(s),
        error matches VfsError::ReadFile { source: s } ==> source == Some(s),
        error is MissingCredentials || error is NotADirectory || error is BlobLengths
            ==> source is None,
{
}

} // verus!
