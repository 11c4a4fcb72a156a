//! The storage of a repository: from the configured locations to what rustic
//! reads from and writes to.
use crate::config::BackendOptions;
use crate::error::{ErrorKind, VfsError};
use rustic_core::{RepositoryBackends, RusticError};
use vstd::prelude::*;

verus! {

/// The storage of a repository, ready for use.
#[verifier::external_type_specification]
#[verifier::external_body]
pub struct ExRepositoryBackends(rustic_core::RepositoryBackends);

/// The storage scheme of `location`: what stands before its first colon.
pub open spec fn scheme_of(location: Seq<char>) -> Option<Seq<char>> {
    match location.index_of_first(':') {
        Some(colon) => Some(location.take(colon)),
        None => None,
    }
}

/// Whether `location` is on the local disk: a plain path, or one behind the
/// scheme `local`.
pub open spec fn is_local_location(location: Seq<char>) -> bool {
    match scheme_of(location) {
        Some(scheme) => scheme == "local"@ && !location.contains('\\'),
        None => true,
    }
}

/// Whether `location` has a scheme that rustic does not know. One letter in front
/// of the colon, or a backslash, makes a Windows path of it, and a scheme with a
/// space may be the long name of one that rustic knows.
pub open spec fn is_unknown_location(location: Seq<char>) -> bool {
    &&& scheme_of(location) matches Some(scheme)
    &&& scheme.len() != 1
    &&& !scheme.contains(' ')
    &&& !location.contains('\\')
    &&& scheme != "local"@
    &&& scheme != "rclone"@
    &&& scheme != "rest"@
    &&& scheme != "opendal"@
}

/// The text of an optional string; nothing where there is none.
pub open spec fn text_of(s: Option<String>) -> Seq<char> {
    match s {
        Some(s) => s@,
        None => seq![],
    }
}

impl BackendOptions {
    /// Whether all that is configured is on the local disk.
    pub open spec fn is_local(&self) -> bool {
        &&& self.repository matches Some(repository) && is_local_location(repository@)
        &&& self.repo_hot matches Some(repo_hot) ==> is_local_location(repo_hot@)
    }

    /// Whether a location has a scheme that rustic does not know.
    pub open spec fn has_unknown_scheme(&self) -> bool {
        ||| self.repository matches Some(repository) && is_unknown_location(repository@)
        ||| self.repo_hot matches Some(repo_hot) && is_unknown_location(repo_hot@)
    }

    /// The location of the hot part, in characters.
    pub open spec fn hot_location(&self) -> Option<Seq<char>> {
        match self.repo_hot {
            Some(repo_hot) => Some(repo_hot@),
            None => None,
        }
    }

    /// Whether rustic may answer the call for the storage that the options describe
    /// with `reply`.
    pub closed spec fn may_resolve_to(
        &self,
        reply: Result<RepositoryBackends, Box<RusticError>>,
    ) -> bool {
        call_ensures(to_backends, (self,), reply)
    }

    /// The storage of a repository on the local disk.
    pub open spec fn local_storage(&self) -> RepositoryBackends {
        local_backends(
            text_of(self.repository),
            self.hot_location(),
            self.options@,
            self.options_hot@,
            self.options_cold@,
        )
    }
}

/// The storage of a repository on the local disk: where it and its hot part are,
/// and the options for both, for the hot and for the cold part.
pub uninterp spec fn local_backends(
    repository: Seq<char>,
    repo_hot: Option<Seq<char>>,
    options: Map<String, String>,
    options_hot: Map<String, String>,
    options_cold: Map<String, String>,
) -> RepositoryBackends;

/// `BackendOptions::to_backends` of rustic's storage layer.
///
/// Trusted: without a repository location it fails, and so it does where a
/// location has a scheme that it does not know; with locations on the local disk
/// alone it succeeds, with a storage that depends on the options alone. What it
/// makes of a location with another scheme that it knows is not stated: that
/// depends on the storage kinds that are compiled in and on the services behind
/// them.
#[verifier::external_body]
fn to_backends(
    backend: &BackendOptions,
) -> (backends: Result<RepositoryBackends, Box<RusticError>>)
    ensures
        backend.repository is None ==> backends is Err,
        backend.has_unknown_scheme() ==> backends is Err,
        backend.is_local() ==> backends is Ok,
        backends matches Ok(b) ==> backend.is_local() ==> b == local_backends(
            text_of(backend.repository),
            backend.hot_location(),
            backend.options@,
            backend.options_hot@,
            backend.options_cold@,
        ),
{
    let mut options = rustic_backend::BackendOptions::default();
    options.repository = backend.repository.clone();
    options.repo_hot = backend.repo_hot.clone();
    options.options = backend.options.clone();
    options.options_hot = backend.options_hot.clone();
    options.options_cold = backend.options_cold.clone();
    options.to_backends()
}

/// Ask rustic for the storage that the options describe.
pub(crate) fn resolve(
    backend: &BackendOptions,
) -> (reply: Result<RepositoryBackends, Box<RusticError>>)
    ensures
        backend.may_resolve_to(reply),
{
    to_backends(backend)
}

/// Rustic refuses storage options without a repository location or with a scheme
/// that it does not know; it takes locations on the local disk, and makes of them a
/// storage that depends on the options alone.
pub proof fn law_reply_for_storage(
    backend: BackendOptions,
    reply: Result<RepositoryBackends, Box<RusticError>>,
)
    requires
        backend.may_resolve_to(reply),
    ensures
        backend.repository is None ==> reply is Err,
        backend.has_unknown_scheme() ==> reply is Err,
        backend.is_local() ==> (reply matches Ok(b) && b == backend.local_storage()),
{
}

/// What an optional string holds; nothing where there is none.
fn text_or_empty(s: Option<String>) -> (text: String)
    ensures
        text@ == text_of(s),
{
    match s {
        Some(s) => s,
        None => String::new(),
    }
}

/// What connecting to the storage results in, given what rustic made of the
/// storage options: an error names the locations that were configured.
pub fn backends_resolved(
    backend: BackendOptions,
    backends: Result<RepositoryBackends, Box<RusticError>>,
) -> (result: Result<RepositoryBackends, VfsError>)
    ensures
        match backends {
            Ok(backends) => result == Ok::<RepositoryBackends, VfsError>(backends),
            Err(source) => {
                &&& result matches Err(VfsError::BackendConfig { repo, repo_hot, source: s })
                &&& repo@ == text_of(backend.repository)
                &&& repo_hot@ == text_of(backend.repo_hot)
                &&& s == source
            },
        },
        result matches Err(error) ==> error.spec_kind() == ErrorKind::ConfigInvalid,
{
    match backends {
        Ok(backends) => Ok(backends),
        Err(source) => Err(
            VfsError::BackendConfig {
                repo: text_or_empty(backend.repository),
                repo_hot: text_or_empty(backend.repo_hot),
                source,
            },
        ),
    }
}

/// What may be the answer for the storage is just what rustic may answer when it is
/// asked with these options.
proof fn law_reply_is_to_these_options(
    backend: BackendOptions,
    reply: Result<RepositoryBackends, Box<RusticError>>,
)
    ensures
        backend.may_resolve_to(reply) <==> call_ensures(to_backends, (&backend,), reply),
{
}

/// The scheme of a location is what stands before its first colon, which is at
/// `colon`.
proof fn lemma_scheme_of(location: Seq<char>, colon: int)
    requires
        0 <= colon < location.len(),
        location[colon] == ':',
        forall|i: int| 0 <= i < colon ==> location[i] != ':',
    ensures
        scheme_of(location) == Some(location.take(colon)),
{
    location.index_of_first_ensures(':');
    let first = location.index_of_first(':')->0;
    assert(location.contains(location[colon]));
    assert(first == colon) by {
        if first < colon {
            assert(location[first] != ':');
        }
    }
}

/// Locations on the local disk are taken, and make a storage that depends on them
/// and the options alone. A location is one where it holds no colon, or where it
/// starts with `local:` and holds no backslash.
pub proof fn law_local_locations_are_taken(
    backend: BackendOptions,
    repository: String,
    reply: Result<RepositoryBackends, Box<RusticError>>,
)
    requires
        backend.may_resolve_to(reply),
        backend.repository == Some(repository),
        !repository@.contains(':') || (repository@.len() >= 6 && repository@.take(5) == "local"@
            && repository@[5] == ':' && !repository@.contains('\\')),
        backend.repo_hot matches Some(hot) ==> !hot@.contains(':') || (hot@.len() >= 6
            && hot@.take(5) == "local"@ && hot@[5] == ':' && !hot@.contains('\\')),
    ensures
        backend.repo_hot is None ==> reply == Ok::<RepositoryBackends, Box<RusticError>>(
            local_backends(
                repository@,
                None,
                backend.options@,
                backend.options_hot@,
                backend.options_cold@,
            ),
        ),
        backend.repo_hot matches Some(hot) ==> reply == Ok::<RepositoryBackends, Box<RusticError>>(
            local_backends(
                repository@,
                Some(hot@),
                backend.options@,
                backend.options_hot@,
                backend.options_cold@,
            ),
        ),
{
    lemma_is_local_location(repository@);
    if let Some(hot) = backend.repo_hot {
        lemma_is_local_location(hot@);
    }
    law_reply_for_storage(backend, reply);
}

/// Which locations are on the local disk.
proof fn lemma_is_local_location(location: Seq<char>)
    requires
        !location.contains(':') || (location.len() >= 6 && location.take(5) == "local"@
            && location[5] == ':' && !location.contains('\\')),
    ensures
        is_local_location(location),
{
    location.index_of_first_ensures(':');
    if location.contains(':') {
        reveal_strlit("local");
        assert forall|i: int| 0 <= i < 5 implies location[i] != ':' by {
            assert(location[i] == location.take(5)[i]);
        }
        lemma_scheme_of(location, 5);
    }
}

/// A location whose scheme is not one of rustic's is refused, be it that of the
/// repository or of its hot part, and so are options without a location.
///
/// The scheme ends before the first colon, which is at `colon`. It is not one letter
/// long and the location holds no backslash, which would make a Windows path of it,
/// and it holds no space.
pub proof fn law_unknown_locations_are_refused(
    backend: BackendOptions,
    location: String,
    colon: int,
    reply: Result<RepositoryBackends, Box<RusticError>>,
)
    requires
        backend.may_resolve_to(reply),
        backend.repository is None || {
            &&& backend.repository == Some(location) || backend.repo_hot == Some(location)
            &&& 0 <= colon < location@.len()
            &&& colon != 1
            &&& location@[colon] == ':'
            &&& forall|i: int| 0 <= i < colon ==> location@[i] != ':' && location@[i] != ' '
            &&& !location@.contains('\\')
            &&& location@.take(colon) != "local"@
            &&& location@.take(colon) != "rclone"@
            &&& location@.take(colon) != "rest"@
            &&& location@.take(colon) != "opendal"@
        },
    ensures
        reply is Err,
{
    if backend.repository is Some {
        let scheme = location@.take(colon);
        lemma_scheme_of(location@, colon);
        assert(!scheme.contains(' ')) by {
            assert forall|i: int| 0 <= i < scheme.len() implies scheme[i] != ' ' by {
                assert(scheme[i] == location@[i]);
            }
        }
        assert(is_unknown_location(location@));
    }
    law_reply_for_storage(backend, reply);
}

/// A storage that rustic has is handed on; one that it refuses is reported with what
/// it said and with the locations that were configured, or nothing in their place.
pub proof fn law_outcome_for_storage_is_handed_on(
    backend: BackendOptions,
    reply: Result<RepositoryBackends, Box<RusticError>>,
    result: Result<RepositoryBackends, VfsError>,
)
    requires
        call_ensures(backends_resolved, (backend, reply), result),
    ensures
        reply matches Ok(backends) ==> result == Ok::<RepositoryBackends, VfsError>(backends),
        reply matches Err(source) ==> {
            &&& result matches Err(VfsError::BackendConfig { repo, repo_hot, source: s })
            &&& s == source
            &&& backend.repository matches Some(location) ==> repo@ == location@
            &&& backend.repository is None ==> repo@.len() == 0
            &&& backend.repo_hot matches Some(location) ==> repo_hot@ == location@
            &&& backend.repo_hot is None ==> repo_hot@.len() == 0
        },
{
}

} // verus!
