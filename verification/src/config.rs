//! The configuration of the service and its builder.
use crate::backend::VfsBackend;
use crate::error::VfsError;
use crate::repository::{repository_over, RepositoryRequest};
use rustic_core::{Credentials, RepositoryBackends, RepositoryOptions};
use std::collections::BTreeMap;
use std::time::Duration;
use vstd::prelude::*;

verus! {

/// The options with which rustic opens a repository. They are handed on as they
/// are and never looked into.
#[verifier::external_type_specification]
#[verifier::external_body]
pub struct ExRepositoryOptions(rustic_core::RepositoryOptions);

/// The credentials with which rustic opens a repository. They are handed on as
/// they are and never looked into.
#[verifier::external_type_specification]
#[verifier::external_body]
pub struct ExCredentials(rustic_core::Credentials);

/// The `Default` of rustic's `RepositoryOptions`.
///
/// Trusted: with the options that it returns, a repository can be made over any
/// storage, as they hold no warm-up command that could be malformed. Nothing else
/// is claimed of them: they are opaque here.
pub assume_specification[ <rustic_core::RepositoryOptions as core::default::Default>::default ]()
    -> (options: rustic_core::RepositoryOptions)
    ensures
        forall|backends: RepositoryBackends|
            (#[trigger] repository_over(options, backends)) is Some,
;

/// The `Clone` of rustic's `RepositoryOptions`.
///
/// Trusted: the clone, which is derived, equals the options it is made from.
pub assume_specification[ <rustic_core::RepositoryOptions as core::clone::Clone>::clone ](
    options: &rustic_core::RepositoryOptions,
) -> (clone: rustic_core::RepositoryOptions)
    ensures
        clone == *options,
;

/// The `Clone` of rustic's `Credentials`.
///
/// Trusted: the clone, which is derived, equals the credentials it is made from.
pub assume_specification[ <rustic_core::Credentials as core::clone::Clone>::clone ](
    credentials: &rustic_core::Credentials,
) -> (clone: rustic_core::Credentials)
    ensures
        clone == *credentials,
;

/// How rustic gets at the storage of a repository: where the repository and its
/// hot part are, and what else their storage needs to know.
#[derive(Clone, Debug)]
pub struct BackendOptions {
    /// The location of the repository.
    pub repository: Option<String>,
    /// The location of the hot part of the repository.
    pub repo_hot: Option<String>,
    /// Options for both parts.
    pub options: BTreeMap<String, String>,
    /// Options for the hot part, which override those for both.
    pub options_hot: BTreeMap<String, String>,
    /// Options for the cold part, which override those for both.
    pub options_cold: BTreeMap<String, String>,
}

impl BackendOptions {
    /// Whether nothing is set.
    pub open spec fn is_unset(&self) -> bool {
        &&& self.repository is None
        &&& self.repo_hot is None
        &&& self.options@ == Map::<String, String>::empty()
        &&& self.options_hot@ == Map::<String, String>::empty()
        &&& self.options_cold@ == Map::<String, String>::empty()
    }
}

impl Default for BackendOptions {
    /// No location and no options.
    fn default() -> (options: BackendOptions)
        ensures
            options.is_unset(),
    {
        BackendOptions {
            repository: None,
            repo_hot: None,
            options: BTreeMap::new(),
            options_hot: BTreeMap::new(),
            options_cold: BTreeMap::new(),
        }
    }
}

/// Whether rustic makes a repository with the given options, whatever the storage.
pub open spec fn accepts_any_storage(options: RepositoryOptions) -> bool {
    forall|backends: RepositoryBackends| (#[trigger] repository_over(options, backends)) is Some
}

/// What can be given as a refresh interval: a duration, or an optional one.
pub trait IntoInterval: Sized {
    /// The interval that the value stands for.
    spec fn interval(self) -> Option<Duration>;

    /// The interval that the value stands for.
    fn into_interval(self) -> (interval: Option<Duration>)
        ensures
            interval == self.interval(),
    ;
}

impl IntoInterval for Duration {
    open spec fn interval(self) -> Option<Duration> {
        Some(self)
    }

    fn into_interval(self) -> (interval: Option<Duration>) {
        Some(self)
    }
}

impl IntoInterval for Option<Duration> {
    open spec fn interval(self) -> Option<Duration> {
        self
    }

    fn into_interval(self) -> (interval: Option<Duration>) {
        self
    }
}

/// Configuration of the service.
#[derive(Clone, Debug)]
pub struct RusticVfsConfig {
    /// Options that describe the repository to open.
    pub options: RepositoryOptions,
    /// How rustic gets at the storage of the repository.
    pub backend: BackendOptions,
    /// Credentials for the repository. They have to be given: there is no other
    /// place they are looked for.
    pub credentials: Option<Credentials>,
    /// How often the repository is read again, index and snapshots, and the virtual
    /// filesystem rebuilt; five minutes where it is `None`.
    pub refresh_interval: Option<Duration>,
}

impl Default for RusticVfsConfig {
    /// No storage, no credentials, no interval, and rustic's own default for the
    /// repository options.
    fn default() -> (config: RusticVfsConfig)
        ensures
            accepts_any_storage(config.options),
            config.backend.is_unset(),
            config.credentials is None,
            config.refresh_interval is None,
    {
        RusticVfsConfig {
            options: RepositoryOptions::default(),
            backend: BackendOptions::default(),
            credentials: None,
            refresh_interval: None,
        }
    }
}

impl RusticVfsConfig {
    /// A builder that starts from this configuration.
    pub fn into_builder(self) -> (builder: RusticVfsBuilder)
        ensures
            builder.config == self,
    {
        RusticVfsBuilder { config: self }
    }
}

/// Builder of the service: a configuration whose fields can be set one by one.
#[derive(Clone, Debug)]
pub struct RusticVfsBuilder {
    /// The configuration so far.
    pub config: RusticVfsConfig,
}

impl Default for RusticVfsBuilder {
    /// A builder that starts from the default configuration.
    fn default() -> (builder: RusticVfsBuilder)
        ensures
            accepts_any_storage(builder.config.options),
            builder.config.backend.is_unset(),
            builder.config.credentials is None,
            builder.config.refresh_interval is None,
    {
        RusticVfsBuilder { config: RusticVfsConfig::default() }
    }
}

impl RusticVfsBuilder {
    /// Set the options that describe the repository.
    pub fn with_options(self, options: RepositoryOptions) -> (builder: RusticVfsBuilder)
        ensures
            builder.config == (RusticVfsConfig { options, ..self.config }),
    {
        RusticVfsBuilder { config: RusticVfsConfig { options, ..self.config } }
    }

    /// Set how rustic gets at the storage of the repository.
    pub fn with_backend(self, backend: BackendOptions) -> (builder: RusticVfsBuilder)
        ensures
            builder.config == (RusticVfsConfig { backend, ..self.config }),
    {
        RusticVfsBuilder { config: RusticVfsConfig { backend, ..self.config } }
    }

    /// Set the credentials for the repository.
    pub fn with_credentials(self, credentials: Credentials) -> (builder: RusticVfsBuilder)
        ensures
            builder.config == (RusticVfsConfig { credentials: Some(credentials), ..self.config }),
    {
        RusticVfsBuilder {
            config: RusticVfsConfig { credentials: Some(credentials), ..self.config },
        }
    }

    /// Set how often the repository is read again and the virtual filesystem
    /// rebuilt, or `None` for the default of five minutes.
    pub fn with_refresh_interval<I: IntoInterval>(self, interval: I) -> (builder:
        RusticVfsBuilder)
        ensures
            builder.config == (RusticVfsConfig {
                refresh_interval: interval.interval(),
                ..self.config
            }),
    {
        RusticVfsBuilder {
            config: RusticVfsConfig { refresh_interval: interval.into_interval(), ..self.config },
        }
    }

    /// What it takes to open the repository that the configuration describes.
    pub fn build(self) -> (result: Result<RepositoryRequest, VfsError>)
        ensures
            self.config.leads_to(result),
    {
        VfsBackend::from_config(self.config)
    }
}

/// An interval can be given as it is or as an optional one, and stands for just that.
pub proof fn law_interval_is_what_is_given(interval: Duration)
    ensures
        interval.interval() == Some(interval),
        Some(interval).interval() == Some(interval),
        None::<Duration>.interval() is None,
{
}

/// Setting an interval sets just that one, given as it is or as an optional one, and
/// leaves all else as it was; giving none takes it away.
pub proof fn law_builder_sets_the_interval(
    builder: RusticVfsBuilder,
    interval: Duration,
    optional: Option<Duration>,
    with_interval: RusticVfsBuilder,
    with_optional: RusticVfsBuilder,
)
    requires
        call_ensures(
            RusticVfsBuilder::with_refresh_interval::<Duration>,
            (builder, interval),
            with_interval,
        ),
        call_ensures(
            RusticVfsBuilder::with_refresh_interval::<Option<Duration>>,
            (builder, optional),
            with_optional,
        ),
    ensures
        with_interval.config.refresh_interval == Some(interval),
        with_interval.config.options == builder.config.options,
        with_interval.config.backend == builder.config.backend,
        with_interval.config.credentials == builder.config.credentials,
        with_optional.config.refresh_interval == optional,
        with_optional.config.options == builder.config.options,
        with_optional.config.backend == builder.config.backend,
        with_optional.config.credentials == builder.config.credentials,
{
}

/// Setting the options, the storage or the credentials sets just that to just what is
/// given, and leaves all else as it was.
pub proof fn law_builder_sets_one_field(
    builder: RusticVfsBuilder,
    options: RepositoryOptions,
    backend: BackendOptions,
    credentials: Credentials,
    with_options: RusticVfsBuilder,
    with_backend: RusticVfsBuilder,
    with_credentials: RusticVfsBuilder,
)
    requires
        call_ensures(RusticVfsBuilder::with_options, (builder, options), with_options),
        call_ensures(RusticVfsBuilder::with_backend, (builder, backend), with_backend),
        call_ensures(RusticVfsBuilder::with_credentials, (builder, credentials), with_credentials),
    ensures
        with_options.config.options == options,
        with_options.config.backend == builder.config.backend,
        with_options.config.credentials == builder.config.credentials,
        with_options.config.refresh_interval == builder.config.refresh_interval,
        with_backend.config.options == builder.config.options,
        with_backend.config.backend == backend,
        with_backend.config.credentials == builder.config.credentials,
        with_backend.config.refresh_interval == builder.config.refresh_interval,
        with_credentials.config.options == builder.config.options,
        with_credentials.config.backend == builder.config.backend,
        with_credentials.config.credentials == Some(credentials),
        with_credentials.config.refresh_interval == builder.config.refresh_interval,
{
}

/// A builder of a configuration holds the configuration as it is.
pub proof fn law_builder_holds_the_configuration(config: RusticVfsConfig, builder: RusticVfsBuilder)
    requires
        call_ensures(RusticVfsConfig::into_builder, (config,), builder),
    ensures
        builder.config.options == config.options,
        builder.config.backend == config.backend,
        builder.config.credentials == config.credentials,
        builder.config.refresh_interval == config.refresh_interval,
{
}

/// A default configuration names no location, no storage options, no credentials and
/// no interval, and has repository options that rustic takes with any storage.
pub proof fn law_default_configuration_is_blank(
    config: RusticVfsConfig,
    builder: RusticVfsBuilder,
    backend: BackendOptions,
    backends: RepositoryBackends,
)
    requires
        call_ensures(RusticVfsConfig::default, (), config),
        call_ensures(RusticVfsBuilder::default, (), builder),
        call_ensures(BackendOptions::default, (), backend),
    ensures
        repository_over(config.options, backends) is Some,
        config.backend.repository is None,
        config.backend.repo_hot is None,
        config.backend.options@ == Map::<String, String>::empty(),
        config.backend.options_hot@ == Map::<String, String>::empty(),
        config.backend.options_cold@ == Map::<String, String>::empty(),
        config.credentials is None,
        config.refresh_interval is None,
        repository_over(builder.config.options, backends) is Some,
        builder.config.backend.repository is None,
        builder.config.backend.repo_hot is None,
        builder.config.backend.options@ == Map::<String, String>::empty(),
        builder.config.backend.options_hot@ == Map::<String, String>::empty(),
        builder.config.backend.options_cold@ == Map::<String, String>::empty(),
        builder.config.credentials is None,
        builder.config.refresh_interval is None,
        backend.repository is None,
        backend.repo_hot is None,
        backend.options@ == Map::<String, String>::empty(),
        backend.options_hot@ == Map::<String, String>::empty(),
        backend.options_cold@ == Map::<String, String>::empty(),
{
}

} // verus!
