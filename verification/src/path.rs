//! Paths of the virtual filesystem: the form a lookup takes them in, and the
//! form a listing hands them out in.
use crate::text::{chars_of, string_of};
use vstd::prelude::*;

verus! {

/// `s` without the slashes at its end.
pub open spec fn trim_end_slashes(s: Seq<char>) -> Seq<char>
    decreases s.len(),
{
    if s.len() > 0 && s.last() == '/' {
        trim_end_slashes(s.drop_last())
    } else {
        s
    }
}

/// `s` without the slashes at its start.
pub open spec fn trim_start_slashes(s: Seq<char>) -> Seq<char>
    decreases s.len(),
{
    if s.len() > 0 && s[0] == '/' {
        trim_start_slashes(s.drop_first())
    } else {
        s
    }
}

/// The place in the filesystem that the lookup path `path` stands for: a lookup goes
/// by the components of the path, so slashes at its start make no difference.
pub open spec fn place(path: Seq<char>) -> Seq<char> {
    trim_start_slashes(path)
}

/// `c`, or a slash where `c` is a backslash.
pub open spec fn forward_slash(c: char) -> char {
    if c == '\\' {
        '/'
    } else {
        c
    }
}

/// `s` with every backslash replaced by a slash.
pub open spec fn forward_slashes(s: Seq<char>) -> Seq<char> {
    s.map_values(|c: char| forward_slash(c))
}

/// The form in which the virtual filesystem looks `path` up: with a slash in
/// front and none behind, except for the root, which is a single slash.
pub open spec fn normalized(path: Seq<char>) -> Seq<char> {
    let p = trim_end_slashes(path);
    if p.len() > 0 && p[0] == '/' {
        p
    } else {
        seq!['/'] + p
    }
}

/// The directory part of the entries listed under `root`: no slash at either
/// end, and only forward slashes.
pub open spec fn listing_base(root: Seq<char>) -> Seq<char> {
    trim_start_slashes(trim_end_slashes(forward_slashes(root)))
}

/// `name` inside the directory `base`; an empty `base` is the root.
pub open spec fn joined(base: Seq<char>, name: Seq<char>) -> Seq<char> {
    if base.len() == 0 {
        name
    } else {
        base + seq!['/'] + name
    }
}

/// The path under which the child `name` of the directory `root` is listed: a
/// directory's ends in a slash, any other's does not.
pub open spec fn listed_path(root: Seq<char>, name: Seq<char>, is_dir: bool) -> Seq<char> {
    let p = joined(listing_base(root), name);
    if !is_dir {
        trim_end_slashes(p)
    } else if p.len() > 0 && p.last() == '/' {
        p
    } else {
        p.push('/')
    }
}

/// The lookup path of the child `name` of the directory whose lookup path is
/// `root`.
pub open spec fn child_path(root: Seq<char>, name: Seq<char>) -> Seq<char> {
    if root == seq!['/'] {
        root + name
    } else {
        root + seq!['/'] + name
    }
}

/// What is left by trimming the end is the front part up to the last character
/// that is no slash.
proof fn lemma_trim_end_is_prefix(s: Seq<char>, k: int)
    requires
        0 <= k <= s.len(),
        forall|i: int| k <= i < s.len() ==> s[i] == '/',
        k > 0 ==> s[k - 1] != '/',
    ensures
        trim_end_slashes(s) == s.take(k),
    decreases s.len(),
{
    if s.len() > k {
        assert(s.last() == '/');
        lemma_trim_end_is_prefix(s.drop_last(), k);
        assert(s.drop_last().take(k) =~= s.take(k));
    } else {
        assert(s.take(k) =~= s);
    }
}

/// What is left by trimming the start is the rest from the first character that
/// is no slash.
proof fn lemma_trim_start_is_suffix(s: Seq<char>, k: int)
    requires
        0 <= k <= s.len(),
        forall|i: int| 0 <= i < k ==> s[i] == '/',
        k < s.len() ==> s[k] != '/',
    ensures
        trim_start_slashes(s) == s.skip(k),
    decreases s.len(),
{
    if k > 0 {
        let t = s.drop_first();
        assert forall|i: int| 0 <= i < k - 1 implies t[i] == '/' by {
            assert(t[i] == s[i + 1]);
        }
        lemma_trim_start_is_suffix(t, k - 1);
        assert(t.skip(k - 1) =~= s.skip(k));
    } else {
        assert(s.skip(0) =~= s);
    }
}

/// The number of characters of `chars` before the slashes at its end.
fn end_without_slashes(chars: &Vec<char>) -> (end: usize)
    ensures
        end <= chars@.len(),
        trim_end_slashes(chars@) == chars@.take(end as int),
        end > 0 ==> chars@[end - 1] != '/',
{
    let mut end: usize = chars.len();
    while end > 0 && chars[end - 1] == '/'
        invariant
            end <= chars@.len(),
            forall|i: int| end <= i < chars@.len() ==> chars@[i] == '/',
        decreases end,
    {
        end = end - 1;
    }
    proof {
        lemma_trim_end_is_prefix(chars@, end as int);
    }
    end
}

/// Normalise a path for a lookup in the virtual filesystem.
///
/// The result starts with a slash, whether or not `path` does, and has no slash
/// at its end unless it is the root.
pub fn normalize_path(path: &str) -> (p: String)
    ensures
        p@ == normalized(path@),
{
    let chars = chars_of(path);
    let end: usize = end_without_slashes(&chars);
    let body = string_of(&chars, 0, end);
    assert(body@ =~= chars@.take(end as int));
    if end > 0 && chars[0] == '/' {
        body
    } else {
        let mut p = String::new();
        p.push('/');
        p.append(body.as_str());
        assert(p@ =~= seq!['/'] + body@);
        p
    }
}

/// The directory part of the entries listed under `root`.
fn listing_base_of(root: &str) -> (base: Vec<char>)
    ensures
        base@ == listing_base(root@),
{
    let chars = chars_of(root);
    let mut slashed: Vec<char> = Vec::new();
    for i in 0..chars.len()
        invariant
            slashed@.len() == i,
            forall|j: int| 0 <= j < i ==> slashed@[j] == forward_slash(chars@[j]),
    {
        let c = chars[i];
        slashed.push(
            if c == '\\' {
                '/'
            } else {
                c
            },
        );
    }
    assert(slashed@ =~= forward_slashes(root@));
    let end: usize = end_without_slashes(&slashed);
    let mut start: usize = 0;
    while start < end && slashed[start] == '/'
        invariant
            start <= end <= slashed@.len(),
            forall|i: int| 0 <= i < start ==> slashed@[i] == '/',
        decreases end - start,
    {
        start = start + 1;
    }
    let ghost trimmed = slashed@.take(end as int);
    proof {
        lemma_trim_start_is_suffix(trimmed, start as int);
    }
    let mut base: Vec<char> = Vec::new();
    for i in start..end
        invariant
            start <= end <= slashed@.len(),
            base@ == slashed@.subrange(start as int, i as int),
    {
        base.push(slashed[i]);
    }
    assert(base@ =~= trimmed.skip(start as int));
    base
}

/// The path under which the child `name` of the directory `root` is listed.
///
/// It is `{root}/{name}`, relative to the root of the filesystem, with a slash
/// at the end exactly for a directory.
pub fn entry_path(root: &str, name: &str, is_dir: bool) -> (path: String)
    ensures
        path@ == listed_path(root@, name@, is_dir),
{
    let base = listing_base_of(root);
    let mut chars = base;
    if chars.len() > 0 {
        chars.push('/');
    }
    let mut tail = chars_of(name);
    chars.append(&mut tail);
    assert(chars@ =~= joined(listing_base(root@), name@));
    if is_dir {
        let len: usize = chars.len();
        if len == 0 || chars[len - 1] != '/' {
            chars.push('/');
        }
        let len: usize = chars.len();
        assert(chars@.subrange(0, len as int) =~= chars@);
        string_of(&chars, 0, len)
    } else {
        let end: usize = end_without_slashes(&chars);
        assert(chars@.subrange(0, end as int) =~= chars@.take(end as int));
        string_of(&chars, 0, end)
    }
}

/// Trimming the end takes off slashes only, and leaves none behind.
proof fn lemma_trim_end(s: Seq<char>)
    ensures
        trim_end_slashes(s).len() <= s.len(),
        trim_end_slashes(s) == s.take(trim_end_slashes(s).len() as int),
        forall|i: int| trim_end_slashes(s).len() <= i < s.len() ==> s[i] == '/',
        trim_end_slashes(s).len() > 0 ==> trim_end_slashes(s).last() != '/',
    decreases s.len(),
{
    if s.len() > 0 && s.last() == '/' {
        let t = s.drop_last();
        lemma_trim_end(t);
        let k = trim_end_slashes(s).len() as int;
        assert(t.take(k) =~= s.take(k));
        assert forall|i: int| k <= i < s.len() implies s[i] == '/' by {
            if i < t.len() {
                assert(t[i] == s[i]);
            }
        }
    } else {
        assert(s.take(s.len() as int) =~= s);
    }
}

/// A prefix that ends in no slash survives trimming the end of the whole.
proof fn lemma_trim_end_of_concat(a: Seq<char>, b: Seq<char>)
    ensures
        trim_end_slashes(b).len() > 0 ==> trim_end_slashes(a + b) == a + trim_end_slashes(b),
        trim_end_slashes(b).len() == 0 ==> trim_end_slashes(a + b) == trim_end_slashes(a),
    decreases b.len(),
{
    if b.len() == 0 {
        assert(a + b =~= a);
    } else if b.last() == '/' {
        assert((a + b).drop_last() =~= a + b.drop_last());
        assert((a + b).last() == '/');
        lemma_trim_end_of_concat(a, b.drop_last());
    } else {
        assert((a + b).last() == b.last());
    }
}

/// Trimming the start leaves no slash in front.
proof fn lemma_trim_start(s: Seq<char>)
    ensures
        trim_start_slashes(s).len() <= s.len(),
        trim_start_slashes(s).len() > 0 ==> trim_start_slashes(s)[0] != '/',
        trim_start_slashes(s).len() > 0 ==> trim_start_slashes(s).last() == s.last(),
    decreases s.len(),
{
    if s.len() > 0 && s[0] == '/' {
        lemma_trim_start(s.drop_first());
        if trim_start_slashes(s).len() > 0 {
            assert(s.drop_first().last() == s.last());
        }
    }
}

/// The base of a listing has no slash at either end.
proof fn lemma_listing_base(root: Seq<char>)
    ensures
        listing_base(root).len() > 0 ==> listing_base(root)[0] != '/',
        listing_base(root).len() > 0 ==> listing_base(root).last() != '/',
{
    let t = trim_end_slashes(forward_slashes(root));
    lemma_trim_end(forward_slashes(root));
    lemma_trim_start(t);
}

/// What trimming the end makes of a child inside a base.
proof fn lemma_trim_end_of_joined(base: Seq<char>, name: Seq<char>)
    requires
        base.len() > 0 ==> base.last() != '/',
    ensures
        trim_end_slashes(joined(base, name)) == if base.len() > 0 && trim_end_slashes(name).len()
            == 0 {
            base
        } else {
            joined(base, trim_end_slashes(name))
        },
{
    if base.len() > 0 {
        let front = base + seq!['/'];
        lemma_trim_end_of_concat(front, name);
        assert(front.drop_last() =~= base);
        assert(trim_end_slashes(base) == base);
    }
}

/// Trimming a listed path gives what trimming the joined path gives.
proof fn lemma_trim_end_of_listed_path(root: Seq<char>, name: Seq<char>, is_dir: bool)
    ensures
        trim_end_slashes(listed_path(root, name, is_dir)) == trim_end_slashes(
            joined(listing_base(root), name),
        ),
{
    let p = joined(listing_base(root), name);
    lemma_trim_end(p);
    assert(p.push('/').drop_last() =~= p);
}

/// A lookup path starts with a slash, and ends in one only where it is the root.
pub proof fn law_lookup_path_is_absolute(path: Seq<char>)
    ensures
        normalized(path).len() > 0,
        normalized(path)[0] == '/',
        normalized(path) == seq!['/'] || normalized(path).last() != '/',
{
    lemma_trim_end(path);
    let p = trim_end_slashes(path);
    if p.len() == 0 {
        assert(seq!['/'] + p =~= seq!['/']);
    }
}

/// Normalising a lookup path changes nothing.
pub proof fn law_normalizing_twice_is_normalizing_once(path: Seq<char>)
    ensures
        normalized(normalized(path)) == normalized(path),
{
    law_lookup_path_is_absolute(path);
    let n = normalized(path);
    if n == seq!['/'] {
        assert(n.drop_last() =~= Seq::<char>::empty());
        assert(trim_end_slashes(n) =~= Seq::<char>::empty()) by {
            reveal_with_fuel(trim_end_slashes, 2);
        }
        assert(seq!['/'] + trim_end_slashes(n) =~= n);
    }
}

/// A slash at the end of a path makes no difference to a lookup.
pub proof fn law_trailing_slash_is_ignored(path: Seq<char>)
    ensures
        normalized(path.push('/')) == normalized(path),
{
    assert(path.push('/').drop_last() =~= path);
}

/// A slash in front of a path makes no difference to a lookup, unless the path
/// starts with a slash of its own (and is not made of slashes alone).
pub proof fn law_leading_slash_is_optional(path: Seq<char>)
    requires
        trim_end_slashes(path).len() > 0 ==> path[0] != '/',
    ensures
        normalized(seq!['/'] + path) == normalized(path),
{
    lemma_trim_end(path);
    lemma_trim_end_of_concat(seq!['/'], path);
    if trim_end_slashes(path).len() == 0 {
        assert(trim_end_slashes(seq!['/']) =~= Seq::<char>::empty()) by {
            reveal_with_fuel(trim_end_slashes, 2);
            assert(seq!['/'].drop_last() =~= Seq::<char>::empty());
        }
    }
}

/// A listed path ends in a slash exactly where it stands for a directory.
pub proof fn law_trailing_slash_marks_directory(root: Seq<char>, name: Seq<char>, is_dir: bool)
    ensures
        ({
            let path = listed_path(root, name, is_dir);
            is_dir <==> path.len() > 0 && path.last() == '/'
        }),
{
    lemma_trim_end(joined(listing_base(root), name));
}

/// A listed path is relative: it starts with a slash only where a child of the
/// root has a name that is empty or starts with a slash itself.
pub proof fn law_listed_path_is_relative(root: Seq<char>, name: Seq<char>, is_dir: bool)
    ensures
        ({
            let path = listed_path(root, name, is_dir);
            path.len() > 0 && path[0] == '/' ==> listing_base(root).len() == 0 && (name.len() == 0
                || name[0] == '/')
        }),
{
    let p = joined(listing_base(root), name);
    lemma_listing_base(root);
    lemma_trim_end(p);
}

/// Two children of one directory that are listed under the same path have the
/// same name, up to slashes at its end, and are both directories or both not.
pub proof fn law_listed_paths_tell_children_apart(
    root: Seq<char>,
    name1: Seq<char>,
    is_dir1: bool,
    name2: Seq<char>,
    is_dir2: bool,
)
    requires
        listed_path(root, name1, is_dir1) == listed_path(root, name2, is_dir2),
    ensures
        trim_end_slashes(name1) == trim_end_slashes(name2),
        is_dir1 == is_dir2,
{
    law_trailing_slash_marks_directory(root, name1, is_dir1);
    law_trailing_slash_marks_directory(root, name2, is_dir2);
    lemma_trim_end_of_listed_path(root, name1, is_dir1);
    lemma_trim_end_of_listed_path(root, name2, is_dir2);
    let base = listing_base(root);
    lemma_listing_base(root);
    lemma_trim_end_of_joined(base, name1);
    lemma_trim_end_of_joined(base, name2);
    let t1 = trim_end_slashes(name1);
    let t2 = trim_end_slashes(name2);
    if base.len() > 0 {
        let front = (base.len() + 1) as int;
        if t1.len() > 0 && t2.len() > 0 {
            assert(joined(base, t1).skip(front) =~= t1);
            assert(joined(base, t2).skip(front) =~= t2);
        } else {
            assert(joined(base, t1).len() == front + t1.len());
            assert(joined(base, t2).len() == front + t2.len());
            assert(t1 =~= t2);
        }
    }
}

/// A listed path leads back to the child it was listed for: looked up, it is
/// the child of the directory that was listed.
///
/// The directory's lookup path holds no backslash and does not start with two
/// slashes, which listing would rewrite; the child's name is not empty, ends in
/// no slash, and in the root does not start with one.
pub proof fn law_listed_path_leads_to_child(dir: Seq<char>, name: Seq<char>, is_dir: bool)
    requires
        !normalized(dir).contains('\\'),
        normalized(dir).len() > 1 ==> normalized(dir)[1] != '/',
        name.len() > 0,
        name.last() != '/',
        normalized(dir) == seq!['/'] ==> name[0] != '/',
    ensures
        normalized(listed_path(normalized(dir), name, is_dir)) == child_path(normalized(dir), name),
{
    let root = normalized(dir);
    law_lookup_path_is_absolute(dir);
    assert forall|i: int| 0 <= i < root.len() implies forward_slash(#[trigger] root[i]) == root[i] by {
        assert(root.contains(root[i]));
    }
    assert(forward_slashes(root) =~= root);
    let base = listing_base(root);
    if root == seq!['/'] {
        lemma_trim_end_is_prefix(root, 0);
        assert(root.take(0) =~= Seq::<char>::empty());
        assert(base =~= Seq::<char>::empty());
    } else {
        assert(trim_end_slashes(root) == root);
        assert(root.len() > 1) by {
            if root.len() == 1 {
                assert(root =~= seq!['/']);
            }
        }
        lemma_trim_start_is_suffix(root, 1);
        assert(base == root.skip(1));
        assert(base.last() == root.last());
    }
    lemma_trim_end_of_listed_path(root, name, is_dir);
    lemma_trim_end_of_joined(base, name);
    assert(trim_end_slashes(name) == name);
    let p = joined(base, name);
    assert(trim_end_slashes(listed_path(root, name, is_dir)) == p);
    if root == seq!['/'] {
        assert(p[0] != '/');
    } else {
        assert(p[0] == root[1]);
        assert(seq!['/'] + p =~= root + seq!['/'] + name);
    }
}

/// A path that starts with one slash more is the same place.
proof fn lemma_place_ignores_a_leading_slash(p: Seq<char>)
    ensures
        place(seq!['/'] + p) == place(p),
{
    assert((seq!['/'] + p).drop_first() =~= p);
}

/// Putting something behind a path that is not slashes alone puts it behind the
/// place of the path.
proof fn lemma_place_of_concat(a: Seq<char>, b: Seq<char>)
    ensures
        place(a).len() > 0 ==> place(a + b) == place(a) + b,
        place(a).len() == 0 ==> place(a + b) == place(b),
    decreases a.len(),
{
    if a.len() == 0 {
        assert(a + b =~= b);
    } else if a[0] == '/' {
        assert((a + b).drop_first() =~= a.drop_first() + b);
        lemma_place_of_concat(a.drop_first(), b);
    }
}

/// A path that ends in no slash is not slashes alone.
proof fn lemma_place_of_nonempty(s: Seq<char>)
    requires
        s.len() > 0,
        s.last() != '/',
    ensures
        place(s).len() > 0,
        place(s).last() == s.last(),
    decreases s.len(),
{
    if s[0] == '/' {
        assert(s.drop_first().last() == s.last());
        lemma_place_of_nonempty(s.drop_first());
    }
}

/// A slash in front of any path leads a lookup to the same place.
pub proof fn law_leading_slash_is_the_same_place(path: Seq<char>)
    ensures
        place(normalized(seq!['/'] + path)) == place(normalized(path)),
{
    let p = trim_end_slashes(path);
    lemma_trim_end(path);
    lemma_trim_end_of_concat(seq!['/'], path);
    lemma_place_ignores_a_leading_slash(p);
    if p.len() == 0 {
        law_leading_slash_is_optional(path);
    }
}

/// A listed path leads back to the child it was listed for: looked up, it is the
/// place of the child in the directory that was listed, however many slashes the
/// path of the directory starts with.
///
/// The directory's lookup path holds no backslash, which listing would rewrite; the
/// child's name is not empty and ends in no slash.
pub proof fn law_listed_path_is_the_place_of_the_child(
    dir: Seq<char>,
    name: Seq<char>,
    is_dir: bool,
)
    requires
        !normalized(dir).contains('\\'),
        name.len() > 0,
        name.last() != '/',
    ensures
        place(normalized(listed_path(normalized(dir), name, is_dir))) == place(
            child_path(normalized(dir), name),
        ),
{
    let root = normalized(dir);
    law_lookup_path_is_absolute(dir);
    assert forall|i: int| 0 <= i < root.len() implies forward_slash(#[trigger] root[i]) == root[i] by {
        assert(root.contains(root[i]));
    }
    assert(forward_slashes(root) =~= root);
    let base = listing_base(root);
    let p = joined(base, name);
    lemma_listing_base(root);
    lemma_trim_end_of_listed_path(root, name, is_dir);
    lemma_trim_end_of_joined(base, name);
    assert(trim_end_slashes(name) == name);
    assert(trim_end_slashes(listed_path(root, name, is_dir)) == p);
    lemma_place_ignores_a_leading_slash(p);
    assert(place(normalized(listed_path(root, name, is_dir))) == place(p));
    if root == seq!['/'] {
        lemma_trim_end_is_prefix(root, 0);
        assert(root.take(0) =~= Seq::<char>::empty());
        assert(base =~= Seq::<char>::empty());
        lemma_place_ignores_a_leading_slash(name);
    } else {
        assert(trim_end_slashes(root) == root);
        assert(base == place(root));
        lemma_place_of_nonempty(root);
        assert(root + seq!['/'] + name =~= root + (seq!['/'] + name));
        lemma_place_of_concat(root, seq!['/'] + name);
        assert(p =~= base + (seq!['/'] + name));
        assert(place(p) == p);
    }
}

/// The lookup path that a call gives is the path up to its last character that is
/// no slash, which is the one before `end`, with a slash in front where there is
/// none; of a path of slashes alone it is the root.
pub proof fn law_lookup_path_of_a_path(path: &str, lookup: String, end: int)
    requires
        call_ensures(normalize_path, (path,), lookup),
        0 <= end <= path@.len(),
        forall|i: int| end <= i < path@.len() ==> path@[i] == '/',
        end > 0 ==> path@[end - 1] != '/',
    ensures
        end == 0 ==> lookup@ == seq!['/'],
        end > 0 && path@[0] == '/' ==> lookup@ == path@.take(end),
        end > 0 && path@[0] != '/' ==> lookup@ == seq!['/'] + path@.take(end),
{
    lemma_trim_end_is_prefix(path@, end);
    if end == 0 {
        assert(path@.take(0) =~= Seq::<char>::empty());
        assert(seq!['/'] + path@.take(0) =~= seq!['/']);
    }
}

/// Two paths that are the same up to slashes at their ends have the same lookup
/// path.
pub proof fn law_lookups_ignore_trailing_slashes(
    path1: &str,
    path2: &str,
    lookup1: String,
    lookup2: String,
    slashes: Seq<char>,
)
    requires
        call_ensures(normalize_path, (path1,), lookup1),
        call_ensures(normalize_path, (path2,), lookup2),
        path2@ == path1@ + slashes,
        forall|i: int| 0 <= i < slashes.len() ==> slashes[i] == '/',
    ensures
        lookup1@ == lookup2@,
{
    lemma_trim_end_is_prefix(slashes, 0);
    assert(slashes.take(0) =~= Seq::<char>::empty());
    lemma_trim_end_of_concat(path1@, slashes);
}

/// The path that a call gives a child of the directory `root`: the directory from
/// its first character to its last that is neither slash nor backslash, which stand
/// at `from` and before `to`, with slashes for backslashes; a slash, where that is not
/// nothing; and the name. A directory's ends in a slash, and nothing else is added;
/// any other's loses its slashes at the end, and nothing else.
pub proof fn law_listed_path_of_a_child(
    root: &str,
    name: &str,
    is_dir: bool,
    path: String,
    from: int,
    to: int,
)
    requires
        call_ensures(entry_path, (root, name, is_dir), path),
        0 <= from <= to <= root@.len(),
        forall|i: int| 0 <= i < from ==> root@[i] == '/' || root@[i] == '\\',
        forall|i: int| to <= i < root@.len() ==> root@[i] == '/' || root@[i] == '\\',
        from < to ==> root@[from] != '/' && root@[from] != '\\',
        from < to ==> root@[to - 1] != '/' && root@[to - 1] != '\\',
    ensures
        ({
            let base = Seq::new(
                (to - from) as nat,
                |i: int|
                    if root@[from + i] == '\\' {
                        '/'
                    } else {
                        root@[from + i]
                    },
            );
            let whole = if from == to {
                name@
            } else {
                base + seq!['/'] + name@
            };
            &&& is_dir && whole.len() > 0 && whole.last() == '/' ==> path@ == whole
            &&& is_dir && !(whole.len() > 0 && whole.last() == '/') ==> path@ == whole.push('/')
            &&& !is_dir ==> path@.len() <= whole.len() && path@ == whole.take(path@.len() as int)
            &&& !is_dir ==> forall|i: int| path@.len() <= i < whole.len() ==> whole[i] == '/'
            &&& !is_dir && path@.len() > 0 ==> path@.last() != '/'
        }),
{
    let slashed = forward_slashes(root@);
    assert forall|i: int| 0 <= i < root@.len() implies slashed[i] == (if root@[i] == '\\' {
        '/'
    } else {
        root@[i]
    }) by {}
    let base = Seq::new(
        (to - from) as nat,
        |i: int|
            if root@[from + i] == '\\' {
                '/'
            } else {
                root@[from + i]
            },
    );
    if from == to {
        assert forall|i: int| 0 <= i < slashed.len() implies slashed[i] == '/' by {
            if i < from {
                assert(root@[i] == '/' || root@[i] == '\\');
            } else {
                assert(root@[i] == '/' || root@[i] == '\\');
            }
        }
        lemma_trim_end_is_prefix(slashed, 0);
        assert(slashed.take(0) =~= Seq::<char>::empty());
        assert(listing_base(root@) =~= Seq::<char>::empty());
    } else {
        assert forall|i: int| to <= i < slashed.len() implies slashed[i] == '/' by {
            assert(root@[i] == '/' || root@[i] == '\\');
        }
        lemma_trim_end_is_prefix(slashed, to);
        let front = slashed.take(to);
        assert forall|i: int| 0 <= i < from implies front[i] == '/' by {
            assert(root@[i] == '/' || root@[i] == '\\');
        }
        assert(front[from] == root@[from]);
        lemma_trim_start_is_suffix(front, from);
        assert(front.skip(from) =~= base);
        assert(listing_base(root@) =~= base);
    }
    let whole = joined(listing_base(root@), name@);
    lemma_trim_end(whole);
}

/// A child is listed as a directory under the path that it would have as a file,
/// with exactly one slash behind.
///
/// Its name is not empty and ends in no slash.
pub proof fn law_directory_has_one_slash_behind(
    root: &str,
    name: &str,
    as_dir: String,
    as_file: String,
)
    requires
        call_ensures(entry_path, (root, name, true), as_dir),
        call_ensures(entry_path, (root, name, false), as_file),
        name@.len() > 0,
        name@.last() != '/',
    ensures
        as_dir@ == as_file@.push('/'),
        as_file@.len() > 0,
        as_file@.last() == name@.last(),
{
    let p = joined(listing_base(root@), name@);
    assert(p.last() == name@.last());
}

/// A child of a directory is listed under its place with, for a directory, exactly
/// one slash behind.
///
/// The lookup path of the directory holds no backslash; the child's name is not
/// empty and ends in no slash, and in the root does not start with one.
pub proof fn law_child_is_listed_at_its_place(
    dir: &str,
    root: &str,
    lookup: String,
    name: &str,
    is_dir: bool,
    path: String,
)
    requires
        call_ensures(normalize_path, (dir,), lookup),
        root@ == lookup@,
        call_ensures(entry_path, (root, name, is_dir), path),
        !root@.contains('\\'),
        name@.len() > 0,
        name@.last() != '/',
        name@[0] != '/',
    ensures
        is_dir ==> path@ == place(child_path(root@, name@)).push('/'),
        !is_dir ==> path@ == place(child_path(root@, name@)),
{
    law_lookup_path_is_absolute(dir@);
    assert forall|i: int| 0 <= i < root@.len() implies forward_slash(#[trigger] root@[i])
        == root@[i] by {
        assert(root@.contains(root@[i]));
    }
    assert(forward_slashes(root@) =~= root@);
    let base = listing_base(root@);
    let p = joined(base, name@);
    assert(p.last() == name@.last());
    if root@ == seq!['/'] {
        lemma_trim_end_is_prefix(root@, 0);
        assert(root@.take(0) =~= Seq::<char>::empty());
        assert(base =~= Seq::<char>::empty());
        lemma_place_ignores_a_leading_slash(name@);
    } else {
        assert(trim_end_slashes(root@) == root@);
        lemma_place_of_nonempty(root@);
        assert(root@ + seq!['/'] + name@ =~= root@ + (seq!['/'] + name@));
        lemma_place_of_concat(root@, seq!['/'] + name@);
        assert(p =~= base + (seq!['/'] + name@));
    }
}

} // verus!
