//! Nodes of a repository and the metadata that OpenDAL sees of them.
use vstd::prelude::*;

verus! {

/// An instant: seconds since the Unix epoch, and nanoseconds on top of them.
#[derive(Clone, Copy, Debug, PartialEq, Eq, Structural)]
pub struct Timestamp {
    /// Whole seconds since the Unix epoch; negative before it.
    pub second: i64,
    /// Nanoseconds within the second, of the same sign as the seconds.
    pub nanosecond: i32,
}

/// What stands in a rustic tree under a name, as far as the service looks at it.
#[derive(Debug)]
pub struct VfsNode {
    /// The name, in the form in which rustic stores it.
    pub name: String,
    /// Whether the node is a directory.
    pub is_dir: bool,
    /// When the node was last modified, if that was recorded.
    pub mtime: Option<Timestamp>,
    /// The size of the node in bytes.
    pub size: u64,
}

/// The two modes of an entry. Whatever is no directory counts as a file.
#[derive(Clone, Copy, Debug, PartialEq, Eq, Structural)]
pub enum EntryMode {
    /// A directory.
    Dir,
    /// A file.
    File,
}

/// What OpenDAL is told about a node.
#[derive(Clone, Copy, Debug, PartialEq, Eq, Structural)]
pub struct EntryMetadata {
    /// Whether the node is a directory or a file.
    pub mode: EntryMode,
    /// When the node was last modified.
    pub last_modified: Timestamp,
    /// The length of its content in bytes.
    pub content_length: u64,
}

impl VfsNode {
    /// What OpenDAL is told about the node.
    pub open spec fn metadata(&self) -> EntryMetadata {
        EntryMetadata {
            mode: if self.is_dir {
                EntryMode::Dir
            } else {
                EntryMode::File
            },
            last_modified: match self.mtime {
                Some(mtime) => mtime,
                None => Timestamp { second: 0, nanosecond: 0 },
            },
            content_length: self.size,
        }
    }
}

/// Convert a node to the metadata that OpenDAL sees: its mode, its modification
/// time, which is the Unix epoch where none was recorded, and its size.
pub fn meta_from_node(n: &VfsNode) -> (metadata: EntryMetadata)
    ensures
        metadata == n.metadata(),
{
    EntryMetadata {
        mode: if n.is_dir {
            EntryMode::Dir
        } else {
            EntryMode::File
        },
        last_modified: match n.mtime {
            Some(mtime) => mtime,
            None => Timestamp { second: 0, nanosecond: 0 },
        },
        content_length: n.size,
    }
}

/// What a call says of a node, whatever its name: it is a directory exactly where the
/// node is one, and a file otherwise; it was modified when that was recorded, or at
/// the Unix epoch; and it is as long as the node.
pub proof fn law_metadata_of_a_node(node: &VfsNode, metadata: EntryMetadata)
    requires
        call_ensures(meta_from_node, (node,), metadata),
    ensures
        metadata.mode == EntryMode::Dir <==> node.is_dir,
        metadata.mode == EntryMode::File <==> !node.is_dir,
        metadata.content_length == node.size,
        node.mtime matches Some(mtime) ==> metadata.last_modified == mtime,
        node.mtime is None ==> metadata.last_modified.second == 0
            && metadata.last_modified.nanosecond == 0,
{
}

/// Two nodes that differ in their names alone have the same metadata; two that are
/// not both directories or both no directories, or not of the same size, have not.
pub proof fn law_metadata_tells_nodes_apart(
    a: &VfsNode,
    b: &VfsNode,
    of_a: EntryMetadata,
    of_b: EntryMetadata,
)
    requires
        call_ensures(meta_from_node, (a,), of_a),
        call_ensures(meta_from_node, (b,), of_b),
    ensures
        a.is_dir == b.is_dir && a.mtime == b.mtime && a.size == b.size ==> of_a == of_b,
        of_a == of_b ==> a.is_dir == b.is_dir && a.size == b.size,
{
}

} // verus!
