//! Listing the direct children of a directory, one entry at a time.
use crate::node::{meta_from_node, EntryMetadata, VfsNode};
use crate::path::{
    child_path, entry_path, law_listed_path_is_the_place_of_the_child,
    law_listed_paths_tell_children_apart, listed_path, normalized, place,
};
use vstd::prelude::*;

verus! {

/// One entry of a listing.
#[derive(Debug)]
pub struct VfsEntry {
    /// The path of the entry, relative to the root of the filesystem.
    pub path: String,
    /// What OpenDAL is told about the node.
    pub metadata: EntryMetadata,
}

/// An entry as a value: its path in characters, and its metadata.
pub struct EntryView {
    /// The path of the entry.
    pub path: Seq<char>,
    /// What OpenDAL is told about the node.
    pub metadata: EntryMetadata,
}

impl View for VfsEntry {
    type V = EntryView;

    open spec fn view(&self) -> EntryView {
        EntryView { path: self.path@, metadata: self.metadata }
    }
}

/// The entry under which the child `node` of the directory `root` is listed.
pub open spec fn entry_of(root: Seq<char>, node: VfsNode) -> EntryView {
    EntryView {
        path: listed_path(root, node.name@, node.is_dir),
        metadata: node.metadata(),
    }
}

/// The entries of the directory `root` with the given children, in their order.
pub open spec fn listing(root: Seq<char>, nodes: Seq<VfsNode>) -> Seq<EntryView> {
    nodes.map_values(|node: VfsNode| entry_of(root, node))
}

/// Hands out the entries of a directory, one for each of its direct children.
#[derive(Debug)]
pub struct VfsLister {
    /// The lookup path of the directory being listed.
    root: String,
    /// The children, those handed out included.
    nodes: Vec<VfsNode>,
    /// The number of children handed out.
    taken: usize,
}

impl View for VfsLister {
    type V = Seq<EntryView>;

    /// The entries that are still to come.
    closed spec fn view(&self) -> Seq<EntryView> {
        listing(self.root@, self.nodes@.skip(self.taken as int))
    }
}

impl VfsLister {
    /// No more children were handed out than there are.
    #[verifier::type_invariant]
    spec fn well_formed(self) -> bool {
        self.taken <= self.nodes@.len()
    }

    /// A lister of the directory with the lookup path `root` and the children
    /// `nodes`.
    pub fn new(root: String, nodes: Vec<VfsNode>) -> (lister: VfsLister)
        ensures
            lister@ == listing(root@, nodes@),
    {
        assert(nodes@.skip(0) =~= nodes@);
        VfsLister { root, nodes, taken: 0 }
    }

    /// The next entry, or `None` when the listing is exhausted.
    pub fn next(&mut self) -> (entry: Option<VfsEntry>)
        ensures
            match entry {
                Some(e) => old(self)@ == seq![e@] + final(self)@,
                None => old(self)@.len() == 0 && final(self)@ == old(self)@,
            },
    {
        proof {
            use_type_invariant(&*self);
        }
        if self.taken == self.nodes.len() {
            return None;
        }
        let ghost rest = self.nodes@.skip(self.taken as int);
        let node = &self.nodes[self.taken];
        let entry = VfsEntry {
            path: entry_path(self.root.as_str(), node.name.as_str(), node.is_dir),
            metadata: meta_from_node(node),
        };
        assert(rest[0] == *node);
        assert(self.nodes@.skip(self.taken + 1) =~= rest.drop_first());
        self.taken = self.taken + 1;
        assert(old(self)@ =~= seq![entry@] + self@);
        Some(entry)
    }
}

/// A listing has one entry for each child, in the order of the children, with the
/// path of the child in the directory and the metadata that `stat` gives of it.
pub proof fn law_listing_has_one_entry_per_child(root: Seq<char>, nodes: Seq<VfsNode>)
    ensures
        listing(root, nodes).len() == nodes.len(),
        forall|i: int|
            0 <= i < nodes.len() ==> {
                &&& (#[trigger] listing(root, nodes)[i]).path == listed_path(
                    root,
                    nodes[i].name@,
                    nodes[i].is_dir,
                )
                &&& listing(root, nodes)[i].metadata == nodes[i].metadata()
            },
{
}

/// In the listing of a directory, looking up the path of an entry leads to the
/// place of the child it stands for, and the paths of two entries are the same only
/// where the children have the same name.
///
/// The lookup path of the directory holds no backslash; the names of the children
/// are not empty and hold no slash.
pub proof fn law_entries_lead_to_the_children(dir: Seq<char>, nodes: Seq<VfsNode>)
    requires
        !normalized(dir).contains('\\'),
        forall|i: int|
            0 <= i < nodes.len() ==> (#[trigger] nodes[i]).name@.len() > 0
                && !nodes[i].name@.contains('/'),
    ensures
        forall|i: int|
            0 <= i < nodes.len() ==> place(
                normalized((#[trigger] listing(normalized(dir), nodes)[i]).path),
            ) == place(child_path(normalized(dir), nodes[i].name@)),
        forall|i: int, j: int|
            0 <= i < nodes.len() && 0 <= j < nodes.len() && (#[trigger] listing(
                normalized(dir),
                nodes,
            )[i]).path == (#[trigger] listing(normalized(dir), nodes)[j]).path ==> nodes[i].name@
                == nodes[j].name@,
{
    let root = normalized(dir);
    assert forall|i: int| 0 <= i < nodes.len() implies place(
        normalized((#[trigger] listing(root, nodes)[i]).path),
    ) == place(child_path(root, nodes[i].name@)) by {
        let name = nodes[i].name@;
        assert(name.contains(name.last()));
        law_listed_path_is_the_place_of_the_child(dir, name, nodes[i].is_dir);
    }
    assert forall|i: int, j: int|
        0 <= i < nodes.len() && 0 <= j < nodes.len() && (#[trigger] listing(root, nodes)[i]).path
            == (#[trigger] listing(root, nodes)[j]).path implies nodes[i].name@
        == nodes[j].name@ by {
        let a = nodes[i];
        let b = nodes[j];
        assert(a.name@.contains(a.name@.last()));
        assert(b.name@.contains(b.name@.last()));
        law_listed_paths_tell_children_apart(root, a.name@, a.is_dir, b.name@, b.is_dir);
    }
}

/// What a listing says of a child, `stat` says too when it is asked for the path
/// of the entry, as long as the filesystem has the children of the directory at
/// their places. `metadata_at` is the metadata of the node at a place.
///
/// The lookup path of the directory holds no backslash; the names of the children
/// are not empty and hold no slash.
pub proof fn law_stat_agrees_with_list(
    dir: Seq<char>,
    nodes: Seq<VfsNode>,
    metadata_at: spec_fn(Seq<char>) -> Option<EntryMetadata>,
)
    requires
        !normalized(dir).contains('\\'),
        forall|i: int|
            0 <= i < nodes.len() ==> (#[trigger] nodes[i]).name@.len() > 0
                && !nodes[i].name@.contains('/'),
        forall|i: int|
            0 <= i < nodes.len() ==> metadata_at(
                place(child_path(normalized(dir), (#[trigger] nodes[i]).name@)),
            ) == Some(nodes[i].metadata()),
    ensures
        forall|i: int|
            0 <= i < nodes.len() ==> metadata_at(
                place(normalized((#[trigger] listing(normalized(dir), nodes)[i]).path)),
            ) == Some(listing(normalized(dir), nodes)[i].metadata),
{
    law_entries_lead_to_the_children(dir, nodes);
}

/// A new lister has one entry to come for each child, in order: under the path that
/// the child has in the directory, and with what is said of the node.
pub proof fn law_lister_has_an_entry_for_each_child(
    root: String,
    nodes: Vec<VfsNode>,
    lister: VfsLister,
    i: int,
    dir: &str,
    name: &str,
    path: String,
    metadata: EntryMetadata,
)
    requires
        call_ensures(VfsLister::new, (root, nodes), lister),
        0 <= i < nodes@.len(),
        dir@ == root@,
        name@ == nodes@[i].name@,
        call_ensures(entry_path, (dir, name, nodes@[i].is_dir), path),
        call_ensures(meta_from_node, (&nodes@[i],), metadata),
    ensures
        lister@.len() == nodes@.len(),
        lister@[i].path == path@,
        lister@[i].metadata == metadata,
{
}

/// A lister without children has no entry to come.
pub proof fn law_lister_of_nothing_is_empty(root: String, nodes: Vec<VfsNode>, lister: VfsLister)
    requires
        call_ensures(VfsLister::new, (root, nodes), lister),
        nodes@.len() == 0,
    ensures
        lister@.len() == 0,
{
}

/// A call hands out the first of the entries to come, and leaves the others to come;
/// where none is to come it hands out nothing, and none is to come after it.
pub proof fn law_next_hands_out_the_first_entry(lister: &mut VfsLister, entry: Option<VfsEntry>)
    requires
        call_ensures(VfsLister::next, (lister,), entry),
    ensures
        entry is None <==> old(lister)@.len() == 0,
        entry is None ==> final(lister)@.len() == 0,
        entry matches Some(e) ==> {
            &&& e.path@ == old(lister)@[0].path
            &&& e.metadata == old(lister)@[0].metadata
            &&& final(lister)@.len() == old(lister)@.len() - 1
            &&& forall|i: int|
                0 <= i < final(lister)@.len() ==> #[trigger] final(lister)@[i] == old(lister)@[i
                    + 1]
        },
{
    if let Some(e) = entry {
        assert(old(lister)@[0] == e@);
        assert forall|i: int| 0 <= i < final(lister)@.len() implies #[trigger] final(lister)@[i]
            == old(lister)@[i + 1] by {
            assert((seq![e@] + final(lister)@)[i + 1] == final(lister)@[i]);
        }
    }
}

} // verus!
