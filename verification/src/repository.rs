//! Repositories of rustic: making one, what it takes to open it, and opening the
//! files in it.
use crate::error::{ErrorKind, VfsError};
use rustic_core::repofile::Node;
use rustic_core::vfs::OpenFile;
use rustic_core::{
    Credentials, IndexedFullStatus, Repository, RepositoryBackends, RepositoryOptions, RusticError,
};
use std::num::NonZeroU32;
use std::time::Duration;
use vstd::prelude::*;

verus! {

/// The refresh interval, in seconds, of a configuration that gives none.
pub const DEFAULT_REFRESH_SECS: u64 = 300;

/// A repository of rustic, in one of the states that it goes through on its way
/// to being open and indexed.
#[verifier::external_type_specification]
#[verifier::external_body]
#[verifier::reject_recursive_types(S)]
pub struct ExRepository<S>(rustic_core::Repository<S>);

/// The state of a repository that is open and whose index is in memory.
#[verifier::external_type_specification]
#[verifier::external_body]
pub struct ExIndexedFullStatus(rustic_core::IndexedFullStatus);

/// A node of a repository, as rustic reads it.
#[verifier::external_type_specification]
#[verifier::external_body]
pub struct ExNode(rustic_core::repofile::Node);

/// A file of a repository that is open for reading.
#[verifier::external_type_specification]
#[verifier::external_body]
pub struct ExOpenFile(rustic_core::vfs::OpenFile);

/// The duration of `secs` whole seconds.
pub uninterp spec fn whole_seconds(secs: u64) -> Duration;

/// `Duration::from_secs`.
///
/// Trusted: the duration depends on the number of seconds alone.
pub assume_specification[ Duration::from_secs ](secs: u64) -> (duration: Duration)
    ensures
        duration == whole_seconds(secs),
;

/// The repository, not yet open, with the given options over the given storage,
/// or `None` where rustic refuses the options.
pub uninterp spec fn repository_over(
    options: RepositoryOptions,
    backends: RepositoryBackends,
) -> Option<Repository<()>>;

/// `Repository::new` of rustic.
///
/// Trusted: whether it succeeds, and the repository it returns, depends on the
/// options and the storage alone. Which options it refuses is not stated, as they
/// are opaque here, nor with which error.
#[verifier::external_body]
fn new_repository(
    options: &RepositoryOptions,
    backends: &RepositoryBackends,
) -> (repository: Result<Repository<()>, Box<RusticError>>)
    ensures
        repository matches Ok(r) ==> repository_over(*options, *backends) == Some(r),
        repository is Err ==> repository_over(*options, *backends) is None,
{
    Repository::new(options, backends)
}

/// The number of blobs that the content of `node` is made of.
pub uninterp spec fn blob_count(node: Node) -> nat;

/// How the index of the repository has the blob number `i` of the content of
/// `node`: the length of the blob in its pack and, where the blob is compressed, its
/// length without compression; `None` where the index lacks the blob.
pub uninterp spec fn blob_at(
    repository: Repository<IndexedFullStatus>,
    node: Node,
    i: int,
) -> Option<(u32, Option<u32>)>;

/// The length of the data of a blob that the index has with the given lengths. In
/// its pack, a blob that is not compressed has 32 bytes of encryption on top.
pub open spec fn data_length(blob: (u32, Option<u32>)) -> int {
    match blob.1 {
        Some(length) => length as int,
        None => blob.0 - 32,
    }
}

/// Whether the index has the first `n` blobs of the content of `node`.
pub open spec fn has_blobs(
    repository: Repository<IndexedFullStatus>,
    node: Node,
    n: nat,
) -> bool {
    forall|i: int| 0 <= i < n ==> (#[trigger] blob_at(repository, node, i)) is Some
}

/// The length of the first `n` blobs of the content of `node`, all of which the
/// index has.
pub open spec fn content_length(
    repository: Repository<IndexedFullStatus>,
    node: Node,
    n: nat,
) -> int
    decreases n,
{
    if n == 0 {
        0
    } else {
        let last = (n - 1) as nat;
        content_length(repository, node, last) + data_length(
            blob_at(repository, node, last as int)->0,
        )
    }
}

/// Whether the blob number `i` of the content of `node` can be added to those before
/// it: unless a blob is missing up to there, its length is not negative, and the
/// length of all of them fits a `usize`.
pub open spec fn fits(repository: Repository<IndexedFullStatus>, node: Node, i: int) -> bool {
    has_blobs(repository, node, (i + 1) as nat) ==> {
        &&& data_length(blob_at(repository, node, i)->0) >= 0
        &&& content_length(repository, node, (i + 1) as nat) <= usize::MAX
    }
}

/// Whether the lengths of the blobs of the content of `node` make the length of a
/// file, up to the first blob that the index lacks.
pub open spec fn is_sound(repository: Repository<IndexedFullStatus>, node: Node) -> bool {
    forall|i: int| 0 <= i < blob_count(node) ==> #[trigger] fits(repository, node, i)
}

/// The `content` of rustic's `Node`: the number of blobs that it lists.
///
/// Trusted: the number depends on the node alone, and is nothing where the node
/// has no content.
#[verifier::external_body]
fn count_blobs(node: &Node) -> (count: usize)
    ensures
        count == blob_count(*node),
{
    node.content.as_ref().map_or(0, Vec::len)
}

/// `Repository::get_index_entry` of rustic, on a blob of the content of a node.
///
/// Trusted: whether the index has the blob, and with which lengths, depends on the
/// index and the node alone.
#[verifier::external_body]
fn find_blob(
    repository: &Repository<IndexedFullStatus>,
    node: &Node,
    i: usize,
) -> (blob: Option<(u32, Option<u32>)>)
    requires
        i < blob_count(*node),
    ensures
        blob == blob_at(*repository, *node, i as int),
{
    let id = node.content.as_ref()?.get(i)?;
    match repository.get_index_entry(id) {
        Ok(entry) => Some((
            entry.location.length,
            entry.location.uncompressed_length.map(NonZeroU32::get),
        )),
        Err(_) => None,
    }
}

/// The length of blobs of the length `start` and one more blob, or `None` where the
/// length of that blob is negative or the sum does not fit.
pub fn end_of_blob(start: usize, blob: (u32, Option<u32>)) -> (end: Option<usize>)
    ensures
        match end {
            Some(end) => data_length(blob) >= 0 && end == start + data_length(blob),
            None => data_length(blob) < 0 || start + data_length(blob) > usize::MAX,
        },
{
    let length: u32 = match blob.1 {
        Some(length) => length,
        None => {
            if blob.0 < 32 {
                return None;
            }
            blob.0 - 32
        },
    };
    start.checked_add(length as usize)
}

/// Whether the lengths of the blobs of the content of `node` make the length of a
/// file.
fn can_open(repository: &Repository<IndexedFullStatus>, node: &Node) -> (sound: bool)
    ensures
        sound == is_sound(*repository, *node),
{
    let count: usize = count_blobs(node);
    let mut total: usize = 0;
    for i in 0..count
        invariant
            count == blob_count(*node),
            has_blobs(*repository, *node, i as nat),
            total == content_length(*repository, *node, i as nat),
            forall|j: int| 0 <= j < i ==> #[trigger] fits(*repository, *node, j),
    {
        match find_blob(repository, node, i) {
            Some(blob) => {
                assert(has_blobs(*repository, *node, (i + 1) as nat));
                match end_of_blob(total, blob) {
                    Some(end) => {
                        total = end;
                    },
                    None => {
                        assert(!fits(*repository, *node, i as int));
                        return false;
                    },
                }
            },
            None => {
                assert forall|j: int| 0 <= j < count implies #[trigger] fits(
                    *repository,
                    *node,
                    j,
                ) by {
                    if j >= i {
                        assert(blob_at(*repository, *node, i as int) is None);
                    }
                }
                return true;
            },
        }
    }
    true
}

/// The file that opening `node` of the repository gives, or `None` where the index
/// of the repository lacks one of its blobs.
pub uninterp spec fn file_at(
    repository: Repository<IndexedFullStatus>,
    node: Node,
) -> Option<OpenFile>;

/// `Repository::open_file` of rustic.
///
/// Trusted: it succeeds exactly where the index has all blobs of the node, and the
/// file it returns depends on the index and the node alone. What the file holds is
/// not stated, nor which error comes where a blob is missing. The lengths of the
/// blobs are computed and added up without a test, so nodes for which that fails
/// are left out.
#[verifier::external_body]
fn open_file(
    repository: &Repository<IndexedFullStatus>,
    node: &Node,
) -> (file: Result<OpenFile, Box<RusticError>>)
    requires
        is_sound(*repository, *node),
    ensures
        file is Ok <==> has_blobs(*repository, *node, blob_count(*node)),
        file matches Ok(f) ==> file_at(*repository, *node) == Some(f),
        file is Err ==> file_at(*repository, *node) is None,
{
    repository.open_file(node)
}

/// What opening a file results in, given what rustic made of it.
pub fn file_opened<F>(file: Result<F, Box<RusticError>>) -> (result: Result<F, VfsError>)
    ensures
        result == (match file {
            Ok(file) => Ok::<F, VfsError>(file),
            Err(source) => Err(VfsError::OpenFile { source }),
        }),
        result matches Err(error) ==> error.spec_kind() == ErrorKind::Unexpected,
{
    match file {
        Ok(file) => Ok(file),
        Err(source) => Err(VfsError::OpenFile { source }),
    }
}

/// Whether `result` is what opening the file at a node of the repository leads to:
/// the file, where the index has all its blobs with lengths that make the length of
/// a file; otherwise why there is none.
pub open spec fn opens_to(
    repository: Repository<IndexedFullStatus>,
    node: Node,
    result: Result<OpenFile, VfsError>,
) -> bool {
    match result {
        Ok(file) => {
            &&& is_sound(repository, node)
            &&& has_blobs(repository, node, blob_count(node))
            &&& file_at(repository, node) == Some(file)
        },
        Err(VfsError::OpenFile { .. }) => {
            &&& is_sound(repository, node)
            &&& !has_blobs(repository, node, blob_count(node))
        },
        Err(VfsError::BlobLengths) => !is_sound(repository, node),
        Err(_) => false,
    }
}

/// Open the file at a node of the repository.
pub fn open_node(
    repository: &Repository<IndexedFullStatus>,
    node: &Node,
) -> (result: Result<OpenFile, VfsError>)
    ensures
        opens_to(*repository, *node, result),
{
    if !can_open(repository, node) {
        return Err(VfsError::BlobLengths);
    }
    file_opened(open_file(repository, node))
}

/// A repository that is to be opened: it remains to authenticate and to load the
/// index.
#[derive(Debug)]
pub struct RepositoryRequest {
    /// The repository, not yet open.
    pub repository: Repository<()>,
    /// Credentials for it.
    pub credentials: Credentials,
    /// How often it is to be read again, and the virtual filesystem over it rebuilt.
    pub refresh_interval: Duration,
}

/// The interval that is given, or the default where none is.
pub open spec fn interval_or_default(interval: Option<Duration>) -> Duration {
    match interval {
        Some(interval) => interval,
        None => whole_seconds(DEFAULT_REFRESH_SECS),
    }
}

impl RepositoryRequest {
    /// What opening a repository results in, given what rustic made of it.
    pub fn opened<R>(repository: Result<R, Box<RusticError>>) -> (result: Result<R, VfsError>)
        ensures
            result == (match repository {
                Ok(repository) => Ok::<R, VfsError>(repository),
                Err(source) => Err(VfsError::OpenRepository { source }),
            }),
            result matches Err(error) ==> error.spec_kind() == ErrorKind::Unexpected,
    {
        match repository {
            Ok(repository) => Ok(repository),
            Err(source) => Err(VfsError::OpenRepository { source }),
        }
    }

    /// The request to open the repository with the given options over the given
    /// storage.
    pub fn over(
        options: RepositoryOptions,
        backends: RepositoryBackends,
        credentials: Credentials,
        refresh_interval: Option<Duration>,
    ) -> (result: Result<RepositoryRequest, VfsError>)
        ensures
            match result {
                Ok(request) => {
                    &&& repository_over(options, backends) == Some(request.repository)
                    &&& request.credentials == credentials
                    &&& request.refresh_interval == interval_or_default(refresh_interval)
                },
                Err(error) => error is OpenRepository && repository_over(options, backends) is None,
            },
    {
        let repository = match Self::opened(new_repository(&options, &backends)) {
            Ok(repository) => repository,
            Err(error) => return Err(error),
        };
        let refresh_interval = match refresh_interval {
            Some(interval) => interval,
            None => Duration::from_secs(DEFAULT_REFRESH_SECS),
        };
        Ok(RepositoryRequest { repository, credentials, refresh_interval })
    }
}

/// A blob ends as many bytes behind its start as it has data: its length without
/// compression where it is compressed, and otherwise its length in the pack less the
/// 32 bytes of encryption. It has no end only where it is too short for those, or
/// where the end does not fit.
pub proof fn law_end_of_a_blob(
    start: usize,
    in_pack: u32,
    uncompressed: Option<u32>,
    end: Option<usize>,
)
    requires
        call_ensures(end_of_blob, (start, (in_pack, uncompressed)), end),
    ensures
        uncompressed matches Some(length) ==> if start + length <= usize::MAX {
            end matches Some(e) && e == start + length
        } else {
            end is None
        },
        uncompressed is None && in_pack < 32 ==> end is None,
        uncompressed is None && in_pack >= 32 ==> if start + in_pack - 32 <= usize::MAX {
            end matches Some(e) && e == start + in_pack - 32
        } else {
            end is None
        },
{
}

/// Whether `ends` are the ends of the first blobs of the content of `node`, from 0 on:
/// the index has them, each is as long as it is without compression or, where it is
/// not compressed, 32 bytes shorter than in its pack, and the last end fits.
pub open spec fn are_ends(
    repository: Repository<IndexedFullStatus>,
    node: Node,
    ends: Seq<int>,
) -> bool {
    &&& 1 <= ends.len() <= blob_count(node) + 1
    &&& ends[0] == 0
    &&& forall|i: int|
        0 <= i < ends.len() - 1 ==> {
            &&& (#[trigger] blob_at(repository, node, i)) matches Some((in_pack, uncompressed))
            &&& uncompressed matches Some(length) ==> ends[i + 1] == ends[i] + length
            &&& uncompressed is None ==> in_pack >= 32 && ends[i + 1] == ends[i] + in_pack - 32
        }
    &&& ends.last() <= usize::MAX
}

/// Ends of blobs are what the lengths of the blobs before them add up to, and grow.
proof fn lemma_ends(
    repository: Repository<IndexedFullStatus>,
    node: Node,
    ends: Seq<int>,
    n: int,
)
    requires
        are_ends(repository, node, ends),
        0 <= n < ends.len(),
    ensures
        has_blobs(repository, node, n as nat),
        content_length(repository, node, n as nat) == ends[n],
        forall|i: int| 0 <= i < n ==> data_length((#[trigger] blob_at(repository, node, i))->0) >= 0,
        forall|i: int| 0 <= i <= n ==> 0 <= #[trigger] ends[i] <= ends[n],
    decreases n,
{
    if n > 0 {
        lemma_ends(repository, node, ends, n - 1);
        assert(blob_at(repository, node, n - 1) is Some);
    }
}

/// The blobs up to ends that fit can be added up.
proof fn lemma_ends_fit(
    repository: Repository<IndexedFullStatus>,
    node: Node,
    ends: Seq<int>,
    i: int,
)
    requires
        are_ends(repository, node, ends),
        0 <= i < ends.len() - 1,
    ensures
        fits(repository, node, i),
{
    lemma_ends(repository, node, ends, ends.len() - 1);
    lemma_ends(repository, node, ends, i + 1);
    assert(ends[i + 1] <= ends[ends.len() - 1]);
    assert(blob_at(repository, node, i) is Some);
}

/// Where the index has all blobs of a node with lengths that can be, the lengths make
/// the length of a file.
pub(crate) proof fn lemma_node_with_its_blobs_is_sound(
    repository: &Repository<IndexedFullStatus>,
    node: &Node,
    ends: Seq<int>,
)
    requires
        are_ends(*repository, *node, ends),
        ends.len() == blob_count(*node) + 1,
    ensures
        is_sound(*repository, *node),
        has_blobs(*repository, *node, blob_count(*node)),
{
    lemma_ends(*repository, *node, ends, ends.len() - 1);
    assert forall|i: int| 0 <= i < blob_count(*node) implies #[trigger] fits(
        *repository,
        *node,
        i,
    ) by {
        lemma_ends_fit(*repository, *node, ends, i);
    }
}

/// A node is opened whenever the index has all its blobs with lengths that can be:
/// every blob that is not compressed has at least 32 bytes in its pack, and the
/// lengths add up to no more than fits a `usize`.
pub proof fn law_node_with_its_blobs_is_opened(
    repository: &Repository<IndexedFullStatus>,
    node: &Node,
    ends: Seq<int>,
    result: Result<OpenFile, VfsError>,
)
    requires
        call_ensures(open_node, (repository, node), result),
        ends.len() == blob_count(*node) + 1,
        ends[0] == 0,
        forall|i: int|
            0 <= i < blob_count(*node) ==> {
                &&& (#[trigger] blob_at(*repository, *node, i)) matches Some(
                    (in_pack, uncompressed),
                )
                &&& uncompressed matches Some(length) ==> ends[i + 1] == ends[i] + length
                &&& uncompressed is None ==> in_pack >= 32 && ends[i + 1] == ends[i] + in_pack - 32
            },
        ends.last() <= usize::MAX,
    ensures
        result matches Ok(file) && file_at(*repository, *node) == Some(file),
{
    lemma_node_with_its_blobs_is_sound(repository, node, ends);
}

/// A node without content is opened.
pub proof fn law_empty_node_is_opened(
    repository: &Repository<IndexedFullStatus>,
    node: &Node,
    result: Result<OpenFile, VfsError>,
)
    requires
        call_ensures(open_node, (repository, node), result),
        blob_count(*node) == 0,
    ensures
        result is Ok,
{
    law_node_with_its_blobs_is_opened(repository, node, seq![0int], result);
}

/// A node whose first blobs end at `ends` and whose next blob is not in the index is
/// refused with what rustic says.
pub proof fn law_node_without_a_blob_is_refused(
    repository: &Repository<IndexedFullStatus>,
    node: &Node,
    ends: Seq<int>,
    result: Result<OpenFile, VfsError>,
)
    requires
        call_ensures(open_node, (repository, node), result),
        are_ends(*repository, *node, ends),
        ends.len() <= blob_count(*node),
        blob_at(*repository, *node, ends.len() - 1) is None,
    ensures
        result matches Err(error) && error is OpenFile,
{
    let n = ends.len() - 1;
    assert forall|i: int| 0 <= i < blob_count(*node) implies #[trigger] fits(
        *repository,
        *node,
        i,
    ) by {
        if i < n {
            lemma_ends_fit(*repository, *node, ends, i);
        } else {
            assert(blob_at(*repository, *node, n) is None);
        }
    }
    assert(is_sound(*repository, *node));
    assert(!has_blobs(*repository, *node, blob_count(*node)));
}

/// A node whose first blobs end at `ends` and whose next blob has a length that
/// cannot be, or ends where it does not fit, is refused for the lengths of its blobs.
pub proof fn law_node_with_impossible_lengths_is_refused(
    repository: &Repository<IndexedFullStatus>,
    node: &Node,
    ends: Seq<int>,
    in_pack: u32,
    uncompressed: Option<u32>,
    result: Result<OpenFile, VfsError>,
)
    requires
        call_ensures(open_node, (repository, node), result),
        are_ends(*repository, *node, ends),
        ends.len() <= blob_count(*node),
        blob_at(*repository, *node, ends.len() - 1) == Some((in_pack, uncompressed)),
        uncompressed matches Some(length) ==> ends.last() + length > usize::MAX,
        uncompressed is None ==> in_pack < 32 || ends.last() + in_pack - 32 > usize::MAX,
    ensures
        result matches Err(error) && error is BlobLengths,
{
    let n = ends.len() - 1;
    lemma_ends(*repository, *node, ends, n);
    assert(has_blobs(*repository, *node, (n + 1) as nat)) by {
        assert(blob_at(*repository, *node, n) is Some);
    }
    assert(!fits(*repository, *node, n));
}

/// What rustic opens is handed on, and what it refuses to open is reported with what
/// it said, for repositories and for files.
pub proof fn law_outcome_of_opening_is_handed_on<R>(
    outcome: Result<R, Box<RusticError>>,
    as_repository: Result<R, VfsError>,
    as_file: Result<R, VfsError>,
)
    requires
        call_ensures(RepositoryRequest::opened::<R>, (outcome,), as_repository),
        call_ensures(file_opened::<R>, (outcome,), as_file),
    ensures
        outcome matches Ok(opened) ==> {
            &&& as_repository == Ok::<R, VfsError>(opened)
            &&& as_file == Ok::<R, VfsError>(opened)
        },
        outcome matches Err(source) ==> {
            &&& as_repository matches Err(VfsError::OpenRepository { source: s }) && s == source
            &&& as_file matches Err(VfsError::OpenFile { source: s }) && s == source
        },
{
}

/// A request is for the repository with just the options and the storage given, with
/// just the credentials given, and with the interval given or 300 seconds where none
/// is; there is none exactly where rustic refuses the options.
pub proof fn law_request_is_for_what_is_given(
    options: RepositoryOptions,
    backends: RepositoryBackends,
    credentials: Credentials,
    refresh_interval: Option<Duration>,
    result: Result<RepositoryRequest, VfsError>,
)
    requires
        call_ensures(
            RepositoryRequest::over,
            (options, backends, credentials, refresh_interval),
            result,
        ),
    ensures
        result is Ok <==> repository_over(options, backends) is Some,
        result matches Ok(request) ==> {
            &&& repository_over(options, backends) == Some(request.repository)
            &&& request.credentials == credentials
            &&& refresh_interval matches Some(interval) ==> request.refresh_interval == interval
            &&& refresh_interval is None ==> request.refresh_interval == whole_seconds(300)
        },
        result matches Err(error) ==> error is OpenRepository,
{
}

} // verus!
