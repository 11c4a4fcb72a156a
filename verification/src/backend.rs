//! The service itself: opening a repository, arranging its snapshots into a
//! virtual filesystem, and answering `stat`, `read` and `list`.
use crate::config::{accepts_any_storage, BackendOptions, RusticVfsBuilder, RusticVfsConfig};
use crate::error::{ErrorKind, ErrorStatus, VfsError};
use crate::lister::{listing, VfsLister};
use crate::node::{meta_from_node, EntryMetadata, EntryMode, VfsNode};
use crate::path::{entry_path, normalize_path, normalized};
use crate::reader::{window_of, ReadRequest, VfsReader};
use crate::refresh::{law_last_good_rebuild_is_served, rebuilds_on, Refreshing, Tick};
use crate::repository::{
    blob_at, blob_count, file_at, fits, has_blobs, interval_or_default,
    lemma_node_with_its_blobs_is_sound, open_node, opens_to, repository_over, whole_seconds,
    RepositoryRequest,
};
use crate::storage::{
    backends_resolved, law_local_locations_are_taken, law_reply_for_storage,
    law_unknown_locations_are_refused, local_backends, resolve, text_of,
};
use rustic_core::repofile::{Node, SnapshotFile};
use rustic_core::vfs::{OpenFile, Vfs};
use rustic_core::{Credentials, IndexedFullStatus, Repository, RepositoryBackends, RusticError};
use std::sync::Arc;
use std::time::Duration;
use vstd::prelude::*;

verus! {

/// The template by which rustic arranges snapshots into directories.
pub const DEFAULT_PATH: &'static str = "[{hostname}]/[{label}]/{time}";

/// The format of the time of a snapshot in [`DEFAULT_PATH`].
pub const DEFAULT_TIME: &'static str = "%Y-%m-%d_%H-%M-%S";

/// A snapshot of a repository, as rustic reads it.
#[verifier::external_type_specification]
#[verifier::external_body]
pub struct ExSnapshotFile(rustic_core::repofile::SnapshotFile);

/// The virtual filesystem that rustic arranges snapshots into.
#[verifier::external_type_specification]
#[verifier::external_body]
pub struct ExVfs(rustic_core::vfs::Vfs);

/// How the newest snapshot of a directory shows up in it.
#[derive(Clone, Copy, Debug, PartialEq, Eq, Structural)]
pub enum Latest {
    /// As a directory `latest` with the content of the snapshot.
    AsDir,
    /// As a symlink `latest` to the snapshot.
    AsLink,
    /// Not at all.
    No,
}

/// How a snapshot with the content of the one before it shows up.
#[derive(Clone, Copy, Debug, PartialEq, Eq, Structural)]
pub enum IdenticalSnapshot {
    /// As a symlink to the one before it.
    AsLink,
    /// As a directory of its own.
    AsDir,
}

/// The virtual filesystem that rustic arranges the snapshots into, or `None`
/// where it refuses to.
pub uninterp spec fn snapshot_tree(
    snapshots: Seq<SnapshotFile>,
    path_template: Seq<char>,
    time_template: Seq<char>,
    latest: Latest,
    identical: IdenticalSnapshot,
) -> Option<Vfs>;

/// `Vfs::from_snapshots` of rustic.
///
/// Trusted: whether it succeeds, and what filesystem it builds, depends on its
/// arguments alone; without snapshots it succeeds. It sorts the snapshots by time
/// with the unstable sort of the standard library, which makes no random choices,
/// so the order of two of the same time depends on the arguments too. What the
/// filesystem looks like is not stated, nor which error comes where it fails.
/// Other templates than the two given here are left out, as formatting a snapshot
/// by them can panic.
#[verifier::external_body]
fn arrange_snapshots(
    snapshots: Vec<SnapshotFile>,
    path_template: &str,
    time_template: &str,
    latest: Latest,
    identical: IdenticalSnapshot,
) -> (vfs: Result<Vfs, Box<RusticError>>)
    requires
        path_template@ == DEFAULT_PATH@,
        time_template@ == DEFAULT_TIME@,
    ensures
        vfs matches Ok(v) ==> snapshot_tree(
            snapshots@,
            path_template@,
            time_template@,
            latest,
            identical,
        ) == Some(v),
        vfs is Err ==> snapshot_tree(
            snapshots@,
            path_template@,
            time_template@,
            latest,
            identical,
        ) is None,
        snapshots@.len() == 0 ==> vfs is Ok,
{
    let latest = match latest {
        Latest::AsDir => rustic_core::vfs::Latest::AsDir,
        Latest::AsLink => rustic_core::vfs::Latest::AsLink,
        Latest::No => rustic_core::vfs::Latest::No,
    };
    let identical = match identical {
        IdenticalSnapshot::AsLink => rustic_core::vfs::IdenticalSnapshot::AsLink,
        IdenticalSnapshot::AsDir => rustic_core::vfs::IdenticalSnapshot::AsDir,
    };
    Vfs::from_snapshots(snapshots, path_template, time_template, latest, identical)
}

/// What the virtual filesystem over the given snapshots is: each snapshot in a
/// directory of its host, its label and its time, the newest of each host and
/// label once more as the directory `latest`.
pub open spec fn vfs_over(snapshots: Seq<SnapshotFile>) -> Option<Vfs> {
    snapshot_tree(
        snapshots,
        DEFAULT_PATH@,
        DEFAULT_TIME@,
        Latest::AsDir,
        IdenticalSnapshot::AsDir,
    )
}

/// What building the virtual filesystem results in, given what rustic made of
/// the snapshots.
pub fn vfs_built(vfs: Result<Vfs, Box<RusticError>>) -> (result: Result<Vfs, VfsError>)
    ensures
        result == (match vfs {
            Ok(vfs) => Ok::<Vfs, VfsError>(vfs),
            Err(source) => Err(VfsError::BuildVfs { source }),
        }),
{
    match vfs {
        Ok(vfs) => Ok(vfs),
        Err(source) => Err(VfsError::BuildVfs { source }),
    }
}

/// Build the virtual filesystem from all snapshots of a repository, or from the
/// error that reading them gave.
pub fn build_vfs(snapshots: Result<Vec<SnapshotFile>, Box<RusticError>>) -> (result: Result<
    Vfs,
    VfsError,
>)
    ensures
        match snapshots {
            Ok(snapshots) => match result {
                Ok(vfs) => vfs_over(snapshots@) == Some(vfs),
                Err(error) => error is BuildVfs && vfs_over(snapshots@) is None,
            },
            Err(source) => result == Err::<Vfs, VfsError>(VfsError::BuildVfs { source }),
        },
        snapshots matches Ok(snapshots) ==> snapshots@.len() == 0 ==> result is Ok,
{
    match snapshots {
        Ok(snapshots) => vfs_built(
            arrange_snapshots(
                snapshots,
                DEFAULT_PATH,
                DEFAULT_TIME,
                Latest::AsDir,
                IdenticalSnapshot::AsDir,
            ),
        ),
        Err(source) => Err(VfsError::BuildVfs { source }),
    }
}

impl RusticVfsConfig {
    /// Whether `result` is what the configuration leads to where rustic answers the
    /// call for its storage with `reply`: a request to open the repository with
    /// the configured options over that storage, or why there can be none.
    pub open spec fn leads_to_with(
        &self,
        reply: Result<RepositoryBackends, Box<RusticError>>,
        result: Result<RepositoryRequest, VfsError>,
    ) -> bool {
        match self.credentials {
            None => result matches Err(error) && error is MissingCredentials,
            Some(credentials) => match reply {
                Ok(backends) => match result {
                    Ok(request) => {
                        &&& repository_over(self.options, backends) == Some(request.repository)
                        &&& request.credentials == credentials
                        &&& request.refresh_interval == interval_or_default(self.refresh_interval)
                    },
                    Err(error) => error is OpenRepository && repository_over(
                        self.options,
                        backends,
                    ) is None,
                },
                Err(source) => {
                    &&& result matches Err(VfsError::BackendConfig { repo, repo_hot, source: s })
                    &&& repo@ == text_of(self.backend.repository)
                    &&& repo_hot@ == text_of(self.backend.repo_hot)
                    &&& s == source
                },
            },
        }
    }

    /// Whether the storage options are ones that rustic refuses in any case: without
    /// a repository location, or with a scheme that it does not know.
    pub open spec fn has_no_storage(&self) -> bool {
        self.backend.repository is None || self.backend.has_unknown_scheme()
    }

    /// Whether `result` is what the configuration leads to: for some answer that
    /// rustic may give to the call for its storage, and for the only one where the
    /// options decide.
    pub open spec fn leads_to(&self, result: Result<RepositoryRequest, VfsError>) -> bool {
        if self.credentials is None {
            result matches Err(error) && error is MissingCredentials
        } else {
            &&& exists|reply: Result<RepositoryBackends, Box<RusticError>>| #[trigger]
                self.backend.may_resolve_to(reply) && self.leads_to_with(reply, result)
            &&& self.has_no_storage() ==> (result matches Err(error) && error is BackendConfig)
            &&& self.backend.is_local() ==> self.leads_to_with(
                Ok(self.backend.local_storage()),
                result,
            )
        }
    }
}

/// What the service can do, by the names that OpenDAL has for it.
#[derive(Clone, Copy, Debug, PartialEq, Eq, Structural)]
pub struct Capability {
    /// Get the metadata of a path.
    pub stat: bool,
    /// Read a file.
    pub read: bool,
    /// Write a file.
    pub write: bool,
    /// Create a directory.
    pub create_dir: bool,
    /// Delete a path.
    pub delete: bool,
    /// Copy a file.
    pub copy: bool,
    /// Rename a path.
    pub rename: bool,
    /// List the children of a directory.
    pub list: bool,
    /// List all that is below a directory.
    pub list_with_recursive: bool,
    /// Sign a request for someone else to send.
    pub presign: bool,
    /// Be shared between clients.
    pub shared: bool,
}

/// What the service can do: look and read, one directory at a time, but change
/// nothing that is there.
pub open spec fn service_capability() -> Capability {
    Capability {
        stat: true,
        read: true,
        write: false,
        create_dir: false,
        delete: false,
        copy: true,
        rename: false,
        list: true,
        list_with_recursive: false,
        presign: false,
        shared: true,
    }
}

/// How the service introduces itself to OpenDAL.
#[derive(Clone, Copy, Debug)]
pub struct BackendInfo {
    /// The scheme of the service.
    pub scheme: &'static str,
    /// The name of the service.
    pub name: &'static str,
    /// What it can do.
    pub capability: Capability,
}

impl BackendInfo {
    /// Whether this is how the service introduces itself.
    pub open spec fn is_of_service(&self) -> bool {
        &&& self.scheme@ == "rustic"@
        &&& self.name@ == "Rustic"@
        &&& self.capability == service_capability()
    }

    /// How the service introduces itself.
    pub fn new() -> (info: BackendInfo)
        ensures
            info.is_of_service(),
    {
        BackendInfo {
            scheme: "rustic",
            name: "Rustic",
            capability: Capability {
                stat: true,
                read: true,
                write: false,
                create_dir: false,
                delete: false,
                copy: true,
                rename: false,
                list: true,
                list_with_recursive: false,
                presign: false,
                shared: true,
            },
        }
    }
}

/// What is read of a repository for the service over it.
#[derive(Debug)]
pub struct RepositoryContents {
    /// The repository, with its index as it was read.
    pub repository: Arc<Repository<IndexedFullStatus>>,
    /// All snapshots in it, or the error that reading them gave.
    pub snapshots: Result<Vec<SnapshotFile>, Box<RusticError>>,
}

/// What the service serves: a filesystem, and the repository that it is in.
#[derive(Debug)]
pub struct Served {
    /// The repository, in whose index the content of files is looked up.
    pub repository: Arc<Repository<IndexedFullStatus>>,
    /// The virtual filesystem over the snapshots of the repository.
    pub vfs: Vfs,
}

/// Whether `result` is what a repository with the given contents, or the error that
/// reading it gave, is served as: its index, and the filesystem over its snapshots.
pub open spec fn serves(
    contents: Result<RepositoryContents, Box<RusticError>>,
    result: Result<Served, VfsError>,
) -> bool {
    match contents {
        Ok(contents) => match contents.snapshots {
            Ok(snapshots) => match result {
                Ok(served) => {
                    &&& served.repository == contents.repository
                    &&& vfs_over(snapshots@) == Some(served.vfs)
                },
                Err(error) => {
                    &&& error is BuildVfs
                    &&& vfs_over(snapshots@) is None
                    &&& snapshots@.len() > 0
                },
            },
            Err(source) => result == Err::<Served, VfsError>(VfsError::BuildVfs { source }),
        },
        Err(source) => result == Err::<Served, VfsError>(VfsError::OpenRepository { source }),
    }
}

/// The service as a value.
pub struct ServiceView {
    /// What it serves.
    pub served: Served,
    /// How it introduces itself.
    pub info: BackendInfo,
    /// How often what it serves is to be rebuilt.
    pub refresh_interval: Duration,
}

/// The service over an open repository.
#[derive(Debug)]
pub struct VfsBackend {
    /// What is served.
    served: Served,
    /// How the service introduces itself.
    info: Arc<BackendInfo>,
    /// How often what is served is to be rebuilt.
    refresh_interval: Duration,
}

impl View for VfsBackend {
    type V = ServiceView;

    closed spec fn view(&self) -> ServiceView {
        ServiceView {
            served: self.served,
            info: *self.info,
            refresh_interval: self.refresh_interval,
        }
    }
}

impl VfsBackend {
    /// Every service introduces itself in the same way.
    #[verifier::type_invariant]
    spec fn well_formed(self) -> bool {
        self.info.is_of_service()
    }

    /// What is to be served of a repository with the given contents, or of the
    /// error that reading it gave.
    pub fn rebuild(contents: Result<RepositoryContents, Box<RusticError>>) -> (result: Result<
        Served,
        VfsError,
    >)
        ensures
            serves(contents, result),
    {
        let contents = match RepositoryRequest::opened(contents) {
            Ok(contents) => contents,
            Err(error) => return Err(error),
        };
        match build_vfs(contents.snapshots) {
            Ok(vfs) => Ok(Served { repository: contents.repository, vfs }),
            Err(error) => Err(error),
        }
    }

    /// The service over an open repository, from all snapshots in it or from the
    /// error that reading them gave.
    pub fn from_repo(
        repository: Arc<Repository<IndexedFullStatus>>,
        snapshots: Result<Vec<SnapshotFile>, Box<RusticError>>,
        refresh_interval: Duration,
    ) -> (result: Result<VfsBackend, VfsError>)
        ensures
            match result {
                Ok(backend) => {
                    &&& serves(
                        Ok(RepositoryContents { repository, snapshots }),
                        Ok(backend@.served),
                    )
                    &&& backend@.info.is_of_service()
                    &&& backend@.refresh_interval == refresh_interval
                },
                Err(error) => serves(
                    Ok(RepositoryContents { repository, snapshots }),
                    Err(error),
                ),
            },
            snapshots matches Ok(s) ==> s@.len() == 0 ==> result is Ok,
    {
        match Self::rebuild(Ok(RepositoryContents { repository, snapshots })) {
            Ok(served) => Ok(
                VfsBackend { served, info: Arc::new(BackendInfo::new()), refresh_interval },
            ),
            Err(error) => Err(error),
        }
    }

    /// Serve `served` from now on, in place of what was served before.
    pub fn install(&mut self, served: Served)
        ensures
            final(self)@ == (ServiceView { served, ..old(self)@ }),
    {
        proof {
            use_type_invariant(&*self);
        }
        self.served = served;
    }

    /// The virtual filesystem that is served.
    pub fn vfs(&self) -> (vfs: &Vfs)
        ensures
            *vfs == self@.served.vfs,
    {
        &self.served.vfs
    }

    /// The repository that is served.
    pub fn repository(&self) -> (repository: &Arc<Repository<IndexedFullStatus>>)
        ensures
            *repository == self@.served.repository,
    {
        &self.served.repository
    }

    /// How the service introduces itself. It is the same of every service, whatever
    /// was done with it, and made only once.
    pub fn info(&self) -> (info: Arc<BackendInfo>)
        ensures
            *info == self@.info,
            info.is_of_service(),
    {
        proof {
            use_type_invariant(self);
        }
        self.info.clone()
    }

    /// How often what is served is to be rebuilt.
    pub fn refresh_interval(&self) -> (interval: Duration)
        ensures
            interval == self@.refresh_interval,
    {
        self.refresh_interval
    }

    /// What it takes to open the repository that `config` describes.
    ///
    /// The configuration is refused where it gives no credentials, where its
    /// storage options name no usable storage, and where rustic refuses its
    /// repository options.
    pub fn from_config(config: RusticVfsConfig) -> (result: Result<RepositoryRequest, VfsError>)
        ensures
            config.leads_to(result),
    {
        let credentials = match config.credentials {
            Some(credentials) => credentials,
            None => return Err(VfsError::MissingCredentials),
        };
        let reply = resolve(&config.backend);
        proof {
            law_reply_for_storage(config.backend, reply);
        }
        let backends = match backends_resolved(config.backend, reply) {
            Ok(backends) => backends,
            Err(error) => return Err(error),
        };
        RepositoryRequest::over(config.options, backends, credentials, config.refresh_interval)
    }

    /// What resolving a path results in, given what rustic made of the lookup.
    pub fn node_from_path<N>(lookup: Result<N, Box<RusticError>>) -> (result: Result<N, VfsError>)
        ensures
            result == (match lookup {
                Ok(node) => Ok::<N, VfsError>(node),
                Err(source) => Err(VfsError::PathNotFound { source }),
            }),
            result matches Err(error) ==> error.spec_kind() == ErrorKind::NotFound,
    {
        match lookup {
            Ok(node) => Ok(node),
            Err(source) => Err(VfsError::PathNotFound { source }),
        }
    }

    /// The answer to `stat`, given what rustic made of the lookup of the path.
    pub fn stat(lookup: Result<VfsNode, Box<RusticError>>) -> (result: Result<
        EntryMetadata,
        VfsError,
    >)
        ensures
            result == (match lookup {
                Ok(node) => Ok::<EntryMetadata, VfsError>(node.metadata()),
                Err(source) => Err(VfsError::PathNotFound { source }),
            }),
            result matches Err(error) ==> error.spec_kind() == ErrorKind::NotFound,
    {
        match Self::node_from_path(lookup) {
            Ok(node) => Ok(meta_from_node(&node)),
            Err(error) => Err(error),
        }
    }

    /// The answer to `read` on the node at the path, of which `facts` holds what the
    /// service looks at: its metadata, the open file, and a reader of the `size`
    /// bytes from `offset` on, or of all from there on where `size` is `None`.
    pub fn read(
        &self,
        node: &Node,
        facts: &VfsNode,
        offset: u64,
        size: Option<u64>,
    ) -> (result: Result<(EntryMetadata, OpenFile, VfsReader), VfsError>)
        ensures
            match result {
                Ok((metadata, file, reader)) => {
                    &&& opens_to(*self@.served.repository, *node, Ok(file))
                    &&& metadata == facts.metadata()
                    &&& reader@ == window_of(offset, size)
                },
                Err(error) => opens_to(*self@.served.repository, *node, Err(error)),
            },
            result matches Err(error) ==> error.spec_kind() == ErrorKind::Unexpected,
    {
        match open_node(&self.served.repository, node) {
            Ok(file) => Ok((meta_from_node(facts), file, VfsReader::of_range(offset, size))),
            Err(error) => Err(error),
        }
    }

    /// The answer to `list`, given what rustic made of the lookup of the path and
    /// of reading its direct children: a lister of them, where the path is that
    /// of a directory.
    pub fn list(
        path: &str,
        lookup: Result<VfsNode, Box<RusticError>>,
        children: Result<Vec<VfsNode>, Box<RusticError>>,
    ) -> (result: Result<VfsLister, VfsError>)
        ensures
            match lookup {
                Ok(node) => if node.is_dir {
                    match children {
                        Ok(children) => {
                            &&& result matches Ok(lister)
                            &&& lister@ == listing(normalized(path@), children@)
                        },
                        Err(source) => result == Err::<VfsLister, VfsError>(
                            VfsError::DirectoryNotFound { source },
                        ),
                    }
                } else {
                    result == Err::<VfsLister, VfsError>(VfsError::NotADirectory)
                },
                Err(source) => result == Err::<VfsLister, VfsError>(
                    VfsError::DirectoryNotFound { source },
                ),
            },
            result matches Err(error) ==> error.spec_kind() == ErrorKind::NotFound,
    {
        match lookup {
            Ok(node) => {
                if !node.is_dir {
                    return Err(VfsError::NotADirectory);
                }
            },
            Err(source) => return Err(VfsError::DirectoryNotFound { source }),
        }
        match children {
            Ok(children) => Ok(VfsLister::new(normalize_path(path), children)),
            Err(source) => Err(VfsError::DirectoryNotFound { source }),
        }
    }
}

/// A configuration without credentials is refused as invalid, whatever else it
/// holds.
pub proof fn law_credentials_are_required(
    config: RusticVfsConfig,
    result: Result<RepositoryRequest, VfsError>,
)
    requires
        config.leads_to(result),
    ensures
        config.credentials is None <==> (result matches Err(error) && error is MissingCredentials),
        config.credentials is None ==> (result matches Err(error) && error.spec_kind()
            == ErrorKind::ConfigInvalid),
{
}

/// A configuration without a repository location, or with a location whose scheme
/// rustic does not know, is refused as invalid, whatever else it holds.
pub proof fn law_known_location_is_required(
    config: RusticVfsConfig,
    result: Result<RepositoryRequest, VfsError>,
)
    requires
        config.leads_to(result),
        config.has_no_storage(),
    ensures
        result matches Err(error) && error.spec_kind() == ErrorKind::ConfigInvalid,
{
}

/// A configuration with credentials and locations on the local disk is never
/// refused as invalid; it is accepted unless rustic refuses its repository
/// options, as it never does the default ones.
pub proof fn law_local_repository_is_accepted(
    config: RusticVfsConfig,
    result: Result<RepositoryRequest, VfsError>,
)
    requires
        config.leads_to(result),
        config.credentials is Some,
        config.backend.is_local(),
    ensures
        result is Ok <==> repository_over(config.options, config.backend.local_storage()) is Some,
        accepts_any_storage(config.options) ==> result is Ok,
        result matches Err(error) ==> error.spec_kind() == ErrorKind::Unexpected,
{
}

/// A configuration that is refused as invalid is not worth a retry, and comes with
/// what rustic said unless it is for missing credentials.
pub proof fn law_refusals_are_permanent(
    config: RusticVfsConfig,
    result: Result<RepositoryRequest, VfsError>,
)
    requires
        config.leads_to(result),
    ensures
        result matches Err(error) ==> error.spec_kind() == ErrorKind::ConfigInvalid
            ==> error.spec_status() == ErrorStatus::Permanent && (error.spec_source() is None
            <==> config.credentials is None),
{
}

/// The same configuration, from itself or through a builder, leads to the same
/// result where rustic answers the call for its storage with the same reply: it is
/// accepted in both cases or in neither, with the same repository, credentials and
/// interval, and refused under the same kind of error.
pub proof fn law_builder_and_configuration_agree(
    config: RusticVfsConfig,
    builder: RusticVfsBuilder,
    reply: Result<RepositoryBackends, Box<RusticError>>,
    direct: Result<RepositoryRequest, VfsError>,
    built: Result<RepositoryRequest, VfsError>,
)
    requires
        builder.config == config,
        config.leads_to_with(reply, direct),
        builder.config.leads_to_with(reply, built),
    ensures
        direct is Ok <==> built is Ok,
        direct is Ok ==> direct->Ok_0 == built->Ok_0,
        direct is Err ==> direct->Err_0.spec_kind() == built->Err_0.spec_kind()
            && direct->Err_0.spec_message() == built->Err_0.spec_message()
            && direct->Err_0.spec_context() == built->Err_0.spec_context(),
{
    if direct is Err {
        assert(direct->Err_0.spec_context() =~= built->Err_0.spec_context());
    }
}

/// A configuration leads to a service exactly where it has credentials, rustic
/// resolves its storage and takes its repository options, the repository can be read,
/// and its snapshots make a filesystem. What fails up to the storage is reported as
/// invalid, whatever fails after it as unexpected, and only the latter is worth a
/// retry.
///
/// `reply` is what rustic answers to the call for the storage, and `contents` what
/// reading the repository of the `request` gives.
pub proof fn law_service_starts_where_every_step_succeeds(
    config: RusticVfsConfig,
    reply: Result<RepositoryBackends, Box<RusticError>>,
    request: Result<RepositoryRequest, VfsError>,
    contents: Result<RepositoryContents, Box<RusticError>>,
    served: Result<Served, VfsError>,
)
    requires
        config.leads_to_with(reply, request),
        serves(contents, served),
    ensures
        request is Ok <==> {
            &&& config.credentials is Some
            &&& reply matches Ok(backends)
            &&& repository_over(config.options, backends) is Some
        },
        served is Ok <==> {
            &&& contents matches Ok(contents)
            &&& contents.snapshots matches Ok(snapshots)
            &&& vfs_over(snapshots@) is Some
        },
        request matches Err(error) ==> {
            &&& error.spec_kind() == if config.credentials is None || reply is Err {
                ErrorKind::ConfigInvalid
            } else {
                ErrorKind::Unexpected
            }
            &&& error.spec_status() == ErrorStatus::Temporary <==> error.spec_kind()
                == ErrorKind::Unexpected
        },
        served matches Err(error) ==> error.spec_kind() == ErrorKind::Unexpected
            && error.spec_status() == ErrorStatus::Temporary,
{
}

/// What is read of a repository on a tick becomes visible: from a rebuild that
/// succeeds until the next that does, the index that was read for it is the one
/// in which files are looked up, and the snapshots that were read for it are those of
/// the filesystem.
pub proof fn law_what_was_read_is_served(
    start: Served,
    ticks: Seq<Tick<Served>>,
    i: int,
    contents: Result<RepositoryContents, Box<RusticError>>,
)
    requires
        rebuilds_on(ticks, i),
        serves(contents, ticks[i].rebuilt),
        ticks[i].rebuilt is Ok,
        forall|j: int|
            i < j < ticks.len() && rebuilds_on(ticks, j) ==> (#[trigger] ticks[j]).rebuilt is Err,
    ensures
        ({
            let served = Refreshing::started(start).after(ticks).vfs;
            &&& contents matches Ok(contents)
            &&& served.repository == contents.repository
            &&& contents.snapshots matches Ok(snapshots)
            &&& vfs_over(snapshots@) == Some(served.vfs)
        }),
{
    law_last_good_rebuild_is_served(start, ticks, i);
}

/// The filesystem over snapshots, however many, is the one in which rustic arranges
/// them by host, label and time, with the newest of each host and label as the
/// directory `latest` and snapshots of the same content as directories of their own.
/// It fails only where rustic does or where the snapshots could not be read.
pub proof fn law_filesystem_shows_all_snapshots(
    snapshots: Result<Vec<SnapshotFile>, Box<RusticError>>,
    result: Result<Vfs, VfsError>,
)
    requires
        call_ensures(build_vfs, (snapshots,), result),
    ensures
        snapshots matches Ok(snapshots) ==> {
            let tree = snapshot_tree(
                snapshots@,
                "[{hostname}]/[{label}]/{time}"@,
                "%Y-%m-%d_%H-%M-%S"@,
                Latest::AsDir,
                IdenticalSnapshot::AsDir,
            );
            &&& result is Ok <==> tree is Some
            &&& result matches Ok(vfs) ==> tree == Some(vfs)
            &&& result matches Err(error) ==> error is BuildVfs
            &&& snapshots@.len() == 0 ==> result is Ok
        },
        snapshots matches Err(source) ==> {
            &&& result matches Err(VfsError::BuildVfs { source: s })
            &&& s == source
        },
{
}

/// A filesystem that rustic has built is handed on, and what it refuses to build is
/// reported with what it said.
pub proof fn law_outcome_of_building_is_handed_on(
    vfs: Result<Vfs, Box<RusticError>>,
    result: Result<Vfs, VfsError>,
)
    requires
        call_ensures(vfs_built, (vfs,), result),
    ensures
        vfs matches Ok(vfs) ==> result == Ok::<Vfs, VfsError>(vfs),
        vfs matches Err(source) ==> {
            &&& result matches Err(VfsError::BuildVfs { source: s })
            &&& s == source
        },
{
}

/// What a configuration leads to: without credentials it is refused; with them, what
/// rustic answers to the call for its storage decides. A storage gives the request
/// for the repository with the configured options over it, with the configured
/// credentials and interval, or 300 seconds where none is configured; there is none
/// exactly where rustic refuses the options. A refusal is reported with what rustic
/// said and with the configured locations.
pub proof fn law_configuration_describes_the_repository(
    config: RusticVfsConfig,
    result: Result<RepositoryRequest, VfsError>,
)
    requires
        call_ensures(VfsBackend::from_config, (config,), result),
    ensures
        config.credentials is None ==> (result matches Err(error) && error is MissingCredentials),
        config.credentials matches Some(credentials) ==> exists|
            reply: Result<RepositoryBackends, Box<RusticError>>,
        |
            {
                &&& #[trigger] config.backend.may_resolve_to(reply)
                &&& match reply {
                    Ok(backends) => match result {
                        Ok(request) => {
                            &&& repository_over(config.options, backends) == Some(
                                request.repository,
                            )
                            &&& request.credentials == credentials
                            &&& config.refresh_interval matches Some(interval)
                                ==> request.refresh_interval == interval
                            &&& config.refresh_interval is None ==> request.refresh_interval
                                == whole_seconds(300)
                        },
                        Err(error) => {
                            &&& error is OpenRepository
                            &&& repository_over(config.options, backends) is None
                        },
                    },
                    Err(source) => {
                        &&& result matches Err(VfsError::BackendConfig { repo, repo_hot, source: s })
                        &&& s == source
                        &&& config.backend.repository matches Some(location) ==> repo@ == location@
                        &&& config.backend.repository is None ==> repo@.len() == 0
                        &&& config.backend.repo_hot matches Some(location) ==> repo_hot@
                            == location@
                        &&& config.backend.repo_hot is None ==> repo_hot@.len() == 0
                    },
                }
            },
{
    if config.credentials is Some {
        let reply = choose|reply: Result<RepositoryBackends, Box<RusticError>>| #[trigger]
            config.backend.may_resolve_to(reply) && config.leads_to_with(reply, result);
        assert(config.backend.may_resolve_to(reply));
    }
}

/// A builder leads to what its configuration describes.
pub proof fn law_builder_describes_the_repository(
    builder: RusticVfsBuilder,
    result: Result<RepositoryRequest, VfsError>,
)
    requires
        call_ensures(RusticVfsBuilder::build, (builder,), result),
    ensures
        builder.config.credentials is None ==> (result matches Err(error) && error is MissingCredentials),
        builder.config.credentials matches Some(credentials) ==> exists|
            reply: Result<RepositoryBackends, Box<RusticError>>,
        |
            {
                &&& #[trigger] builder.config.backend.may_resolve_to(reply)
                &&& match reply {
                    Ok(backends) => match result {
                        Ok(request) => {
                            &&& repository_over(builder.config.options, backends) == Some(
                                request.repository,
                            )
                            &&& request.credentials == credentials
                            &&& builder.config.refresh_interval matches Some(interval)
                                ==> request.refresh_interval == interval
                            &&& builder.config.refresh_interval is None ==> request.refresh_interval
                                == whole_seconds(300)
                        },
                        Err(error) => {
                            &&& error is OpenRepository
                            &&& repository_over(builder.config.options, backends) is None
                        },
                    },
                    Err(source) => {
                        &&& result matches Err(VfsError::BackendConfig { repo, repo_hot, source: s })
                        &&& s == source
                        &&& builder.config.backend.repository matches Some(location) ==> repo@ == location@
                        &&& builder.config.backend.repository is None ==> repo@.len() == 0
                        &&& builder.config.backend.repo_hot matches Some(location) ==> repo_hot@
                            == location@
                        &&& builder.config.backend.repo_hot is None ==> repo_hot@.len() == 0
                    },
                }
            },
{
    if builder.config.credentials is Some {
        let reply = choose|reply: Result<RepositoryBackends, Box<RusticError>>| #[trigger]
            builder.config.backend.may_resolve_to(reply) && builder.config.leads_to_with(reply, result);
        assert(builder.config.backend.may_resolve_to(reply));
    }
}

/// A configuration with credentials and locations that are plain paths, without a
/// colon, leads to a request exactly where rustic takes the options over the local
/// storage at these paths; the request is then for that repository.
pub proof fn law_plain_paths_are_accepted(
    config: RusticVfsConfig,
    repository: String,
    repo_hot: Option<Seq<char>>,
    result: Result<RepositoryRequest, VfsError>,
)
    requires
        call_ensures(VfsBackend::from_config, (config,), result),
        config.credentials is Some,
        config.backend.repository == Some(repository),
        !repository@.contains(':'),
        config.backend.repo_hot is None ==> repo_hot is None,
        config.backend.repo_hot matches Some(hot) ==> !hot@.contains(':') && repo_hot == Some(hot@),
    ensures
        ({
            let made = repository_over(
                config.options,
                local_backends(
                    repository@,
                    repo_hot,
                    config.backend.options@,
                    config.backend.options_hot@,
                    config.backend.options_cold@,
                ),
            );
            &&& result is Ok <==> made is Some
            &&& result matches Ok(request) ==> made == Some(request.repository)
            &&& result matches Err(error) ==> error is OpenRepository
        }),
{
    let reply = choose|reply: Result<RepositoryBackends, Box<RusticError>>| #[trigger]
        config.backend.may_resolve_to(reply) && config.leads_to_with(reply, result);
    law_local_locations_are_taken(config.backend, repository, reply);
}

/// A default configuration to which nothing is added but the location of a
/// repository, as a plain path, and credentials is accepted.
pub proof fn law_location_and_credentials_suffice(
    default: RusticVfsBuilder,
    backend: BackendOptions,
    credentials: Credentials,
    with_backend: RusticVfsBuilder,
    with_both: RusticVfsBuilder,
    repository: String,
    result: Result<RepositoryRequest, VfsError>,
)
    requires
        call_ensures(RusticVfsBuilder::default, (), default),
        call_ensures(RusticVfsBuilder::with_backend, (default, backend), with_backend),
        call_ensures(RusticVfsBuilder::with_credentials, (with_backend, credentials), with_both),
        call_ensures(RusticVfsBuilder::build, (with_both,), result),
        backend.repository == Some(repository),
        !repository@.contains(':'),
        backend.repo_hot is None,
    ensures
        result is Ok,
        result->Ok_0.credentials == credentials,
        result->Ok_0.refresh_interval == whole_seconds(300),
{
    let config = with_both.config;
    let reply = choose|reply: Result<RepositoryBackends, Box<RusticError>>| #[trigger]
        config.backend.may_resolve_to(reply) && config.leads_to_with(reply, result);
    law_local_locations_are_taken(backend, repository, reply);
}

/// A configuration without a location, or with one whose scheme is none of rustic's,
/// is refused for its storage where it has credentials.
///
/// The scheme ends before the first colon, which is at `colon`; see
/// [`law_unknown_locations_are_refused`].
pub proof fn law_unusable_locations_are_refused(
    config: RusticVfsConfig,
    location: String,
    colon: int,
    result: Result<RepositoryRequest, VfsError>,
)
    requires
        call_ensures(VfsBackend::from_config, (config,), result),
        config.credentials is Some,
        config.backend.repository is None || {
            &&& config.backend.repository == Some(location) || config.backend.repo_hot == Some(
                location,
            )
            &&& 0 <= colon < location@.len()
            &&& colon != 1
            &&& location@[colon] == ':'
            &&& forall|i: int| 0 <= i < colon ==> location@[i] != ':' && location@[i] != ' '
            &&& !location@.contains('\\')
            &&& location@.take(colon) != "local"@
            &&& location@.take(colon) != "rclone"@
            &&& location@.take(colon) != "rest"@
            &&& location@.take(colon) != "opendal"@
        },
    ensures
        result matches Err(error) && error is BackendConfig,
{
    let reply = choose|reply: Result<RepositoryBackends, Box<RusticError>>| #[trigger]
        config.backend.may_resolve_to(reply) && config.leads_to_with(reply, result);
    law_unknown_locations_are_refused(config.backend, location, colon, reply);
}

/// How every service introduces itself: by the scheme `rustic` and the name `Rustic`,
/// as one that can stat, read, list, copy and be shared, and nothing else.
pub proof fn law_service_introduces_itself(
    new: BackendInfo,
    backend: &VfsBackend,
    info: Arc<BackendInfo>,
)
    requires
        call_ensures(BackendInfo::new, (), new),
        call_ensures(VfsBackend::info, (backend,), info),
    ensures
        new.scheme@ == "rustic"@ && info.scheme@ == "rustic"@,
        new.name@ == "Rustic"@ && info.name@ == "Rustic"@,
        new.capability == info.capability,
        info.capability.stat && info.capability.read && info.capability.list,
        info.capability.copy && info.capability.shared,
        !info.capability.write && !info.capability.create_dir && !info.capability.delete,
        !info.capability.rename && !info.capability.presign,
        !info.capability.list_with_recursive,
{
}

/// A service is over just the repository that it is given and the filesystem of just
/// the snapshots that it is given, with just the interval that it is given; there is
/// none only where rustic refuses the snapshots or they could not be read.
pub proof fn law_service_is_over_the_repository(
    repository: Arc<Repository<IndexedFullStatus>>,
    snapshots: Result<Vec<SnapshotFile>, Box<RusticError>>,
    refresh_interval: Duration,
    result: Result<VfsBackend, VfsError>,
)
    requires
        call_ensures(VfsBackend::from_repo, (repository, snapshots, refresh_interval), result),
    ensures
        result is Ok <==> snapshots is Ok && snapshot_tree(
            snapshots->Ok_0@,
            "[{hostname}]/[{label}]/{time}"@,
            "%Y-%m-%d_%H-%M-%S"@,
            Latest::AsDir,
            IdenticalSnapshot::AsDir,
        ) is Some,
        result matches Ok(backend) ==> {
            &&& forall|vfs: &Vfs| #[trigger]
                call_ensures(VfsBackend::vfs, (&backend,), vfs) ==> snapshot_tree(
                    snapshots->Ok_0@,
                    "[{hostname}]/[{label}]/{time}"@,
                    "%Y-%m-%d_%H-%M-%S"@,
                    Latest::AsDir,
                    IdenticalSnapshot::AsDir,
                ) == Some(*vfs)
            &&& forall|served: &Arc<Repository<IndexedFullStatus>>| #[trigger]
                call_ensures(VfsBackend::repository, (&backend,), served) ==> *served == repository
            &&& forall|interval: Duration| #[trigger]
                call_ensures(VfsBackend::refresh_interval, (&backend,), interval) ==> interval
                    == refresh_interval
        },
        result matches Err(error) ==> error is BuildVfs,
        snapshots matches Err(source) ==> result matches Err(VfsError::BuildVfs { source: s }) && s
            == source,
        snapshots matches Ok(s) ==> s@.len() == 0 ==> result is Ok,
{
}

/// What is to be served of a repository is its index as it was read and the
/// filesystem of just the snapshots that were read.
pub proof fn law_rebuild_is_of_what_was_read(
    contents: Result<RepositoryContents, Box<RusticError>>,
    result: Result<Served, VfsError>,
)
    requires
        call_ensures(VfsBackend::rebuild, (contents,), result),
    ensures
        contents matches Err(source) ==> {
            &&& result matches Err(VfsError::OpenRepository { source: s })
            &&& s == source
        },
        contents matches Ok(contents) ==> {
            &&& contents.snapshots matches Err(source) ==> {
                &&& result matches Err(VfsError::BuildVfs { source: s })
                &&& s == source
            }
            &&& contents.snapshots matches Ok(snapshots) ==> {
                let tree = snapshot_tree(
                    snapshots@,
                    "[{hostname}]/[{label}]/{time}"@,
                    "%Y-%m-%d_%H-%M-%S"@,
                    Latest::AsDir,
                    IdenticalSnapshot::AsDir,
                );
                &&& result is Ok <==> tree is Some
                &&& result matches Ok(served) ==> served.repository == contents.repository && tree
                    == Some(served.vfs)
                &&& result matches Err(error) ==> error is BuildVfs
                &&& snapshots@.len() == 0 ==> result is Ok
            }
        },
{
}

/// After an installation the service serves just what was installed, filesystem and
/// repository both, and is otherwise what it was.
pub proof fn law_installed_is_what_is_served(
    backend: &mut VfsBackend,
    served: Served,
    done: (),
    vfs: &Vfs,
    repository: &Arc<Repository<IndexedFullStatus>>,
    interval_before: Duration,
    interval: Duration,
    info_before: Arc<BackendInfo>,
    info: Arc<BackendInfo>,
)
    requires
        call_ensures(VfsBackend::refresh_interval, (&*old(backend),), interval_before),
        call_ensures(VfsBackend::info, (&*old(backend),), info_before),
        call_ensures(VfsBackend::install, (backend, served), done),
        call_ensures(VfsBackend::vfs, (&*final(backend),), vfs),
        call_ensures(VfsBackend::repository, (&*final(backend),), repository),
        call_ensures(VfsBackend::refresh_interval, (&*final(backend),), interval),
        call_ensures(VfsBackend::info, (&*final(backend),), info),
    ensures
        *vfs == served.vfs,
        *repository == served.repository,
        interval == interval_before,
        *info == *info_before,
{
}

/// A node that rustic finds is handed on, and a lookup that it refuses is reported as
/// a missing path with what it said.
pub proof fn law_outcome_of_a_lookup_is_handed_on<N>(
    lookup: Result<N, Box<RusticError>>,
    result: Result<N, VfsError>,
)
    requires
        call_ensures(VfsBackend::node_from_path::<N>, (lookup,), result),
    ensures
        lookup matches Ok(node) ==> result == Ok::<N, VfsError>(node),
        lookup matches Err(source) ==> {
            &&& result matches Err(VfsError::PathNotFound { source: s })
            &&& s == source
        },
{
}

/// What `stat` says of a path, whatever the name of the node there: that it is a
/// directory exactly where the node is one, and a file otherwise; when it was
/// modified, where that was recorded, or the Unix epoch; and how long it is. Where no
/// node is found, the path is missing.
pub proof fn law_stat_describes_the_node(
    lookup: Result<VfsNode, Box<RusticError>>,
    result: Result<EntryMetadata, VfsError>,
)
    requires
        call_ensures(VfsBackend::stat, (lookup,), result),
    ensures
        lookup matches Ok(node) ==> {
            &&& result matches Ok(metadata)
            &&& metadata.mode == EntryMode::Dir <==> node.is_dir
            &&& metadata.mode == EntryMode::File <==> !node.is_dir
            &&& metadata.content_length == node.size
            &&& node.mtime matches Some(mtime) ==> metadata.last_modified == mtime
            &&& node.mtime is None ==> metadata.last_modified.second == 0
                && metadata.last_modified.nanosecond == 0
        },
        lookup matches Err(source) ==> {
            &&& result matches Err(VfsError::PathNotFound { source: s })
            &&& s == source
        },
{
}

/// What `read` gives of a node: what `stat` says of it, whatever the range; the file
/// that rustic opens in the repository of the service; and a reader whose first
/// request is for the start of the range, its size and at most 4 MiB.
pub proof fn law_read_is_of_the_node_and_the_range(
    backend: &VfsBackend,
    repository: &Arc<Repository<IndexedFullStatus>>,
    node: &Node,
    facts: &VfsNode,
    offset: u64,
    size: Option<u64>,
    result: Result<(EntryMetadata, OpenFile, VfsReader), VfsError>,
    request: Option<ReadRequest>,
)
    requires
        call_ensures(VfsBackend::repository, (backend,), repository),
        call_ensures(VfsBackend::read, (backend, node, facts, offset, size), result),
        result is Ok,
        call_ensures(VfsReader::next_request, (&result->Ok_0.2,), request),
    ensures
        ({
            let (metadata, file, reader) = result->Ok_0;
            &&& file_at(**repository, *node) == Some(file)
            &&& metadata.mode == EntryMode::Dir <==> facts.is_dir
            &&& metadata.mode == EntryMode::File <==> !facts.is_dir
            &&& metadata.content_length == facts.size
            &&& facts.mtime matches Some(mtime) ==> metadata.last_modified == mtime
            &&& facts.mtime is None ==> metadata.last_modified.second == 0
                && metadata.last_modified.nanosecond == 0
            &&& reader@.pos == offset as usize
            &&& size is None ==> reader@.remaining is None
            &&& size matches Some(size) ==> reader@.remaining == Some(size as usize as nat)
        }),
        size is None ==> request == Some(
            ReadRequest { offset: offset as usize, size: 4_194_304usize },
        ),
        size matches Some(size) ==> {
            &&& size as usize == 0 ==> request is None
            &&& 0 < size as usize <= 4_194_304 ==> request == Some(
                ReadRequest { offset: offset as usize, size: size as usize },
            )
            &&& size as usize > 4_194_304 ==> request == Some(
                ReadRequest { offset: offset as usize, size: 4_194_304usize },
            )
        },
{
}

/// A node can be read, in any range, whenever the index of the repository has all its
/// blobs with lengths that can be: every blob that is not compressed has at least 32
/// bytes in its pack, and the lengths, whose sums are `ends`, add up to no more than
/// fits a `usize`.
pub proof fn law_node_with_its_blobs_can_be_read(
    backend: &VfsBackend,
    repository: &Arc<Repository<IndexedFullStatus>>,
    node: &Node,
    facts: &VfsNode,
    offset: u64,
    size: Option<u64>,
    ends: Seq<int>,
    result: Result<(EntryMetadata, OpenFile, VfsReader), VfsError>,
)
    requires
        call_ensures(VfsBackend::repository, (backend,), repository),
        call_ensures(VfsBackend::read, (backend, node, facts, offset, size), result),
        ends.len() == blob_count(*node) + 1,
        ends[0] == 0,
        forall|i: int|
            0 <= i < blob_count(*node) ==> {
                &&& (#[trigger] blob_at(**repository, *node, i)) matches Some(
                    (in_pack, uncompressed),
                )
                &&& uncompressed matches Some(length) ==> ends[i + 1] == ends[i] + length
                &&& uncompressed is None ==> in_pack >= 32 && ends[i + 1] == ends[i] + in_pack - 32
            },
        ends.last() <= usize::MAX,
    ensures
        result is Ok,
{
    lemma_node_with_its_blobs_is_sound(&**repository, node, ends);
}

/// Reading a node fails where opening it in the repository of the service does, and
/// in the same way, whatever the range.
pub proof fn law_read_fails_as_opening_does(
    backend: &VfsBackend,
    repository: &Arc<Repository<IndexedFullStatus>>,
    node: &Node,
    facts: &VfsNode,
    offset: u64,
    size: Option<u64>,
    result: Result<(EntryMetadata, OpenFile, VfsReader), VfsError>,
    opened: Result<OpenFile, VfsError>,
)
    requires
        call_ensures(VfsBackend::repository, (backend,), repository),
        call_ensures(VfsBackend::read, (backend, node, facts, offset, size), result),
        call_ensures(open_node, (&**repository, node), opened),
    ensures
        result is Ok <==> opened is Ok,
        result is Ok ==> result->Ok_0.1 == opened->Ok_0,
        result is Err ==> {
            &&& result->Err_0 is OpenFile <==> opened->Err_0 is OpenFile
            &&& result->Err_0 is BlobLengths <==> opened->Err_0 is BlobLengths
            &&& result->Err_0 is OpenFile || result->Err_0 is BlobLengths
        },
{
}

/// A node cannot be read where the index lacks one of its blobs, nor where a blob
/// before which none is missing has a length that cannot be; that is unexpected.
pub proof fn law_node_without_its_blobs_cannot_be_read(
    backend: &VfsBackend,
    repository: &Arc<Repository<IndexedFullStatus>>,
    node: &Node,
    facts: &VfsNode,
    offset: u64,
    size: Option<u64>,
    i: int,
    result: Result<(EntryMetadata, OpenFile, VfsReader), VfsError>,
)
    requires
        call_ensures(VfsBackend::repository, (backend,), repository),
        call_ensures(VfsBackend::read, (backend, node, facts, offset, size), result),
        0 <= i < blob_count(*node),
        blob_at(**repository, *node, i) is None || {
            &&& forall|j: int|
                0 <= j <= i ==> (#[trigger] blob_at(**repository, *node, j)) is Some
            &&& blob_at(**repository, *node, i) matches Some((in_pack, None))
            &&& in_pack < 32
        },
    ensures
        result matches Err(error) && (error is OpenFile || error is BlobLengths),
{
    assert(blob_at(**repository, *node, i) is None ==> !has_blobs(
        **repository,
        *node,
        blob_count(*node),
    ));
    assert(blob_at(**repository, *node, i) is Some ==> !fits(**repository, *node, i));
}

/// A listing is refused where the path has no node, where the node is no directory,
/// and where its children could not be read; otherwise it has one entry to come for
/// each child, in order.
pub proof fn law_list_is_of_a_directory(
    path: &str,
    lookup: Result<VfsNode, Box<RusticError>>,
    children: Result<Vec<VfsNode>, Box<RusticError>>,
    result: Result<VfsLister, VfsError>,
)
    requires
        call_ensures(VfsBackend::list, (path, lookup, children), result),
    ensures
        lookup matches Err(source) ==> {
            &&& result matches Err(VfsError::DirectoryNotFound { source: s })
            &&& s == source
        },
        lookup matches Ok(node) ==> {
            &&& !node.is_dir ==> (result matches Err(error) && error is NotADirectory)
            &&& node.is_dir && children is Err ==> {
                &&& result matches Err(VfsError::DirectoryNotFound { source: s })
                &&& s == children->Err_0
            }
            &&& node.is_dir && children is Ok ==> {
                &&& result matches Ok(lister)
                &&& lister@.len() == children->Ok_0@.len()
            }
        },
{
}

/// An entry of a listing stands for the child in its place: it has the path that the
/// child has in the directory with the lookup path of what was listed, and says of it
/// what `stat` says.
pub proof fn law_list_has_the_children_in_order(
    path: &str,
    lookup: Result<VfsNode, Box<RusticError>>,
    children: Vec<VfsNode>,
    result: Result<VfsLister, VfsError>,
    i: int,
    root: String,
    dir: &str,
    name: &str,
    listed: String,
)
    requires
        call_ensures(VfsBackend::list, (path, lookup, Ok(children)), result),
        result is Ok,
        0 <= i < children@.len(),
        call_ensures(normalize_path, (path,), root),
        dir@ == root@,
        name@ == children@[i].name@,
        call_ensures(entry_path, (dir, name, children@[i].is_dir), listed),
    ensures
        ({
            let entry = result->Ok_0@[i];
            let child = children@[i];
            &&& entry.path == listed@
            &&& entry.metadata.mode == EntryMode::Dir <==> child.is_dir
            &&& entry.metadata.mode == EntryMode::File <==> !child.is_dir
            &&& entry.metadata.content_length == child.size
            &&& child.mtime matches Some(mtime) ==> entry.metadata.last_modified == mtime
            &&& child.mtime is None ==> entry.metadata.last_modified.second == 0
                && entry.metadata.last_modified.nanosecond == 0
        }),
{
}

} // verus!
