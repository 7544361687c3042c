use vstd::prelude::*;
use crate::error::ClideError;
use crate::path::{EntryMeta, file_name_of, normalized};
use crate::text::{chars_of, string_from_chars};

verus! {

/// One entry of a directory listing, as read from the filesystem: its
/// name within the directory, whether it is a directory, and, for a
/// directory, its own listing (`None` when it could not be listed).
#[derive(Debug)]
pub struct FsEntry {
    pub name: String,
    pub is_dir: bool,
    pub listing: Option<Vec<FsEntry>>,
}

/// A node of the explorer's tree: its identity (the normalized absolute
/// path, unique within the tree), the name shown for it, its children in
/// order, and whether it is a directory.
#[derive(Debug)]
pub struct TreeNode {
    pub identity: String,
    pub display_name: String,
    pub children: Vec<TreeNode>,
    pub is_directory: bool,
}

/// Lexicographic order on character sequences, by code point.
pub open spec fn lex_lt(a: Seq<char>, b: Seq<char>) -> bool
    decreases a.len(),
{
    if a.len() == 0 {
        b.len() > 0
    } else if b.len() == 0 {
        false
    } else if a[0] != b[0] {
        (a[0] as u32) < (b[0] as u32)
    } else {
        lex_lt(a.drop_first(), b.drop_first())
    }
}

/// The path of `name` inside the directory `parent`.
pub open spec fn join_path(parent: Seq<char>, name: Seq<char>) -> Seq<char> {
    if parent.len() == 0 {
        name
    } else if parent.last() == '/' {
        parent + name
    } else {
        parent + seq!['/'] + name
    }
}

/// The names of a sequence of entries.
pub open spec fn names_of(es: Seq<FsEntry>) -> Seq<Seq<char>> {
    es.map_values(|e: FsEntry| e.name@)
}

/// Index `x` inserted into the sorted index sequence `s`, before the first
/// index whose name is greater than that of `x`.
pub open spec fn insert_index(s: Seq<int>, x: int, names: Seq<Seq<char>>) -> Seq<int>
    decreases s.len(),
{
    if s.len() == 0 {
        seq![x]
    } else if lex_lt(names[x], names[s[0]]) {
        seq![x] + s
    } else {
        seq![s[0]] + insert_index(s.drop_first(), x, names)
    }
}

/// The indices of the first `n` names, ordered by name; equal names keep
/// their order.
pub open spec fn sort_prefix(names: Seq<Seq<char>>, n: nat) -> Seq<int>
    decreases n,
{
    if n == 0 {
        seq![]
    } else {
        insert_index(sort_prefix(names, (n - 1) as nat), n - 1, names)
    }
}

/// The indices of `names`, ordered by name.
pub open spec fn sorted_order(names: Seq<Seq<char>>) -> Seq<int> {
    sort_prefix(names, names.len())
}

/// The entries below an entry: its listing if it is a directory that could
/// be listed, none otherwise.
pub open spec fn entry_children(e: FsEntry) -> Seq<FsEntry> {
    if e.is_dir && e.listing is Some {
        e.listing->0@
    } else {
        seq![]
    }
}

/// `n` is the node built for the entry `e` of the directory `parent`:
/// one child per entry below `e`, ordered by name.
pub open spec fn built_from(n: TreeNode, parent: Seq<char>, e: FsEntry) -> bool
    decreases n,
{
    let kids = entry_children(e);
    let order = sorted_order(names_of(kids));
    &&& n.identity@ == join_path(parent, e.name@)
    &&& n.display_name@ == e.name@
    &&& n.is_directory == e.is_dir
    &&& n.children@.len() == kids.len()
    &&& forall|k: int|
        0 <= k < kids.len() ==> built_from(#[trigger] n.children@[k], n.identity@, kids[order[k]])
}

/// The children of `n` are the nodes built for the entries `kids` of the
/// directory whose identity is `n`'s, ordered by name.
pub open spec fn children_built(n: TreeNode, kids: Seq<FsEntry>) -> bool {
    let order = sorted_order(names_of(kids));
    &&& n.children@.len() == kids.len()
    &&& forall|k: int|
        0 <= k < kids.len() ==> built_from(#[trigger] n.children@[k], n.identity@, kids[order[k]])
}

/// `n` is the tree built for the root path `root`, with the given
/// directory flag and listing.
pub open spec fn built_root(n: TreeNode, root: Seq<char>, is_dir: bool, listing: Seq<FsEntry>) -> bool {
    &&& n.identity@ == normalized(root)
    &&& Some(n.display_name@) == file_name_of(root)
    &&& n.is_directory == is_dir
    &&& children_built(n, listing)
}

/// A sequence of indices, as integers.
pub open spec fn as_ints(s: Seq<usize>) -> Seq<int> {
    s.map_values(|v: usize| v as int)
}

/// Inserting an index puts it at one position and moves nothing else.
pub proof fn lemma_insert_index_pos(s: Seq<int>, x: int, names: Seq<Seq<char>>) -> (pos: int)
    ensures
        0 <= pos <= s.len(),
        insert_index(s, x, names) == s.insert(pos, x),
        forall|j: int| 0 <= j < pos ==> !lex_lt(names[x], names[#[trigger] s[j]]),
        pos < s.len() ==> lex_lt(names[x], names[s[pos]]),
    decreases s.len(),
{
    if s.len() == 0 {
        assert(seq![x] =~= s.insert(0, x));
        0
    } else if lex_lt(names[x], names[s[0]]) {
        assert(seq![x] + s =~= s.insert(0, x));
        0
    } else {
        let p = lemma_insert_index_pos(s.drop_first(), x, names);
        assert(seq![s[0]] + s.drop_first().insert(p, x) =~= s.insert(p + 1, x));
        assert forall|j: int| 0 <= j < p + 1 implies !lex_lt(names[x], names[#[trigger] s[j]]) by {
            if j > 0 {
                assert(s[j] == s.drop_first()[j - 1]);
            }
        }
        p + 1
    }
}

/// Lexicographic order is transitive.
pub proof fn lemma_lex_lt_transitive(a: Seq<char>, b: Seq<char>, c: Seq<char>)
    requires
        lex_lt(a, b),
        lex_lt(b, c),
    ensures
        lex_lt(a, c),
    decreases a.len(),
{
    if a.len() > 0 && b.len() > 0 && c.len() > 0 && a[0] == b[0] && b[0] == c[0] {
        lemma_lex_lt_transitive(a.drop_first(), b.drop_first(), c.drop_first());
    }
}

/// Lexicographic order is irreflexive.
pub proof fn lemma_lex_lt_irreflexive(a: Seq<char>)
    ensures
        !lex_lt(a, a),
    decreases a.len(),
{
    if a.len() > 0 {
        lemma_lex_lt_irreflexive(a.drop_first());
    }
}

/// The indices in name order never put a greater name before a smaller one.
pub proof fn lemma_sort_prefix_sorted(names: Seq<Seq<char>>, n: nat)
    requires
        n <= names.len(),
    ensures
        forall|a: int, b: int|
            0 <= a < b < n ==> !lex_lt(
                names[#[trigger] sort_prefix(names, n)[b]],
                names[#[trigger] sort_prefix(names, n)[a]],
            ),
    decreases n,
{
    if n > 0 {
        let m = (n - 1) as nat;
        lemma_sort_prefix_sorted(names, m);
        lemma_sort_prefix(names, m);
        let s = sort_prefix(names, m);
        let x = m as int;
        let pos = lemma_insert_index_pos(s, x, names);
        let t = s.insert(pos, x);
        assert(sort_prefix(names, n) == t);
        assert forall|a: int, b: int| 0 <= a < b < n implies !lex_lt(
            names[#[trigger] t[b]],
            names[#[trigger] t[a]],
        ) by {
            if a < pos && b < pos {
                assert(t[a] == s[a] && t[b] == s[b]);
            } else if a < pos && b == pos {
                assert(t[a] == s[a]);
            } else if a < pos {
                assert(t[a] == s[a] && t[b] == s[b - 1]);
            } else if a == pos {
                assert(t[b] == s[b - 1]);
                if lex_lt(names[s[b - 1]], names[x]) {
                    if b - 1 > pos {
                        assert(!lex_lt(names[s[b - 1]], names[s[pos]]));
                    } else {
                        lemma_lex_lt_irreflexive(names[s[pos]]);
                    }
                    lemma_lex_lt_transitive(names[s[b - 1]], names[x], names[s[pos]]);
                }
            } else {
                assert(t[a] == s[a - 1] && t[b] == s[b - 1]);
            }
        }
    }
}

/// The children of a built node come in the order of their names.
pub proof fn lemma_children_in_order(n: TreeNode, kids: Seq<FsEntry>)
    requires
        children_built(n, kids),
    ensures
        forall|i: int, j: int|
            0 <= i < j < n.children@.len() ==> !lex_lt(
                (#[trigger] n.children@[j]).display_name@,
                (#[trigger] n.children@[i]).display_name@,
            ),
{
    let names = names_of(kids);
    lemma_sort_prefix_sorted(names, names.len());
    lemma_sort_prefix(names, names.len());
    let order = sorted_order(names);
    assert forall|i: int, j: int| 0 <= i < j < n.children@.len() implies !lex_lt(
        (#[trigger] n.children@[j]).display_name@,
        (#[trigger] n.children@[i]).display_name@,
    ) by {
        assert(built_from(n.children@[i], n.identity@, kids[order[i]]));
        assert(built_from(n.children@[j], n.identity@, kids[order[j]]));
        assert(names[order[i]] == kids[order[i]].name@);
        assert(names[order[j]] == kids[order[j]].name@);
    }
}

/// The first `n` indices in name order are `0..n`, each once.
pub proof fn lemma_sort_prefix(names: Seq<Seq<char>>, n: nat)
    ensures
        sort_prefix(names, n).len() == n,
        forall|k: int| 0 <= k < n ==> 0 <= #[trigger] sort_prefix(names, n)[k] < n,
        forall|j: int, k: int|
            0 <= j < k < n ==> #[trigger] sort_prefix(names, n)[j] != #[trigger] sort_prefix(
                names,
                n,
            )[k],
    decreases n,
{
    if n > 0 {
        let m = (n - 1) as nat;
        lemma_sort_prefix(names, m);
        let s = sort_prefix(names, m);
        let pos = lemma_insert_index_pos(s, m as int, names);
        let t = s.insert(pos, m as int);
        assert(sort_prefix(names, n) == t);
        assert forall|k: int| 0 <= k < n implies 0 <= #[trigger] t[k] < n by {
            if k < pos {
                assert(t[k] == s[k]);
            } else if k > pos {
                assert(t[k] == s[k - 1]);
            }
        }
        assert forall|j: int, k: int| 0 <= j < k < n implies #[trigger] t[j] != #[trigger] t[k] by {
            let sj = if j < pos { j } else { j - 1 };
            let sk = if k < pos { k } else { k - 1 };
            if j != pos && k != pos {
                assert(t[j] == s[sj]);
                assert(t[k] == s[sk]);
            } else if j == pos {
                assert(t[k] == s[sk]);
            } else {
                assert(t[j] == s[sj]);
            }
        }
    }
}

proof fn lemma_insert_index(s: Seq<int>, x: int, names: Seq<Seq<char>>, pos: int)
    requires
        0 <= pos <= s.len(),
        forall|j: int| 0 <= j < pos ==> !lex_lt(names[x], names[#[trigger] s[j]]),
        pos < s.len() ==> lex_lt(names[x], names[s[pos]]),
    ensures
        insert_index(s, x, names) == s.insert(pos, x),
    decreases s.len(),
{
    if s.len() == 0 {
        assert(seq![x] =~= s.insert(pos, x));
    } else if pos == 0 {
        assert(seq![x] + s =~= s.insert(0, x));
    } else {
        assert forall|j: int| 0 <= j < pos - 1 implies !lex_lt(
            names[x],
            names[#[trigger] s.drop_first()[j]],
        ) by {
            assert(s.drop_first()[j] == s[j + 1]);
        }
        lemma_insert_index(s.drop_first(), x, names, pos - 1);
        assert(seq![s[0]] + s.drop_first().insert(pos - 1, x) =~= s.insert(pos, x));
    }
}

/// Whether `a` comes before `b` in lexicographic order.
fn chars_lt(a: &Vec<char>, b: &Vec<char>) -> (r: bool)
    ensures
        r == lex_lt(a@, b@),
{
    let mut i: usize = 0;
    assert(a@.skip(0) =~= a@);
    assert(b@.skip(0) =~= b@);
    while i < a.len() && i < b.len()
        invariant
            i <= a.len(),
            i <= b.len(),
            lex_lt(a@.skip(i as int), b@.skip(i as int)) == lex_lt(a@, b@),
        decreases a.len() - i,
    {
        assert(a@.skip(i as int)[0] == a@[i as int]);
        assert(b@.skip(i as int)[0] == b@[i as int]);
        if a[i] != b[i] {
            return (a[i] as u32) < (b[i] as u32);
        }
        assert(a@.skip(i as int).drop_first() =~= a@.skip(i + 1));
        assert(b@.skip(i as int).drop_first() =~= b@.skip(i + 1));
        i = i + 1;
    }
    i < b.len()
}

/// The indices of `names`, ordered by name as `sorted_order` states.
fn sort_indices(names: &Vec<Vec<char>>) -> (r: Vec<usize>)
    ensures
        as_ints(r@) == sorted_order(crate::text::char_views(names@)),
        r@.len() == names@.len(),
        forall|k: int| 0 <= k < r@.len() ==> #[trigger] r@[k] < names@.len(),
{
    let ghost ns = crate::text::char_views(names@);
    let mut idx: Vec<usize> = Vec::new();
    let mut i: usize = 0;
    assert(as_ints(idx@) =~= sort_prefix(ns, 0));
    while i < names.len()
        invariant
            i <= names.len(),
            ns == crate::text::char_views(names@),
            ns.len() == names@.len(),
            as_ints(idx@) == sort_prefix(ns, i as nat),
            idx@.len() == i,
            forall|k: int| 0 <= k < idx@.len() ==> #[trigger] idx@[k] < i,
        decreases names.len() - i,
    {
        let mut pos: usize = 0;
        while pos < idx.len() && !chars_lt(&names[i], &names[idx[pos]])
            invariant
                i < names.len(),
                ns == crate::text::char_views(names@),
                ns.len() == names@.len(),
                pos <= idx@.len(),
                forall|k: int| 0 <= k < idx@.len() ==> #[trigger] idx@[k] < i,
                forall|j: int|
                    0 <= j < pos ==> !lex_lt(ns[i as int], ns[#[trigger] as_ints(idx@)[j]]),
            decreases idx.len() - pos,
        {
            pos = pos + 1;
        }
        proof {
            let s = as_ints(idx@);
            if pos < idx@.len() {
                assert(s[pos as int] == idx@[pos as int] as int);
            }
            lemma_insert_index(s, i as int, ns, pos as int);
        }
        let ghost old_idx = idx@;
        idx.insert(pos, i);
        proof {
            assert(as_ints(idx@) =~= as_ints(old_idx).insert(pos as int, i as int));
            assert(sort_prefix(ns, (i + 1) as nat) == insert_index(
                sort_prefix(ns, i as nat),
                i as int,
                ns,
            ));
        }
        i = i + 1;
    }
    idx
}

/// The path of `name` inside the directory `parent`.
fn join(parent: &String, name: &String) -> (r: String)
    ensures
        r@ == join_path(parent@, name@),
{
    let p = chars_of(parent.as_str());
    let n = chars_of(name.as_str());
    let mut out = p.clone();
    if p.len() > 0 && p[p.len() - 1] != '/' {
        out.push('/');
    }
    let mut j: usize = 0;
    let ghost mid = out@;
    while j < n.len()
        invariant
            j <= n.len(),
            out@ == mid + n@.take(j as int),
        decreases n.len() - j,
    {
        out.push(n[j]);
        assert(n@.take(j + 1) =~= n@.take(j as int).push(n@[j as int]));
        j = j + 1;
    }
    assert(n@.take(j as int) =~= n@);
    assert(out@ =~= join_path(parent@, name@));
    string_from_chars(out.as_slice())
}

/// The nodes for the entries `kids` of the directory `parent`, ordered by
/// name.
fn build_children(parent: &String, kids: &Vec<FsEntry>) -> (r: Vec<TreeNode>)
    ensures
        ({
            let order = sorted_order(names_of(kids@));
            &&& r@.len() == kids@.len()
            &&& forall|k: int|
                0 <= k < kids@.len() ==> built_from(#[trigger] r@[k], parent@, kids@[order[k]])
        }),
    decreases kids, 0nat,
{
    let mut names: Vec<Vec<char>> = Vec::new();
    let mut i: usize = 0;
    while i < kids.len()
        invariant
            i <= kids.len(),
            names@.len() == i,
            forall|k: int| 0 <= k < i ==> #[trigger] names@[k]@ == kids@[k].name@,
        decreases kids.len() - i,
    {
        names.push(chars_of(kids[i].name.as_str()));
        i = i + 1;
    }
    assert(crate::text::char_views(names@) =~= names_of(kids@));
    let order = sort_indices(&names);
    let ghost spec_order = sorted_order(names_of(kids@));
    let mut out: Vec<TreeNode> = Vec::new();
    let mut k: usize = 0;
    while k < order.len()
        invariant
            k <= order@.len(),
            order@.len() == kids@.len(),
            as_ints(order@) == spec_order,
            spec_order == sorted_order(names_of(kids@)),
            forall|j: int| 0 <= j < order@.len() ==> #[trigger] order@[j] < kids@.len(),
            out@.len() == k,
            forall|j: int|
                0 <= j < k ==> built_from(#[trigger] out@[j], parent@, kids@[spec_order[j]]),
        decreases order.len() - k,
    {
        let j = order[k];
        assert(spec_order[k as int] == j as int);
        let node = build_node(parent, &kids[j]);
        out.push(node);
        k = k + 1;
    }
    out
}

/// The node for the entry `e` of the directory `parent`, with the nodes of
/// its own entries below it when it is a directory that could be listed.
fn build_node(parent: &String, e: &FsEntry) -> (r: TreeNode)
    ensures
        built_from(r, parent@, *e),
    decreases e, 1nat,
{
    let identity = join(parent, &e.name);
    let children = match &e.listing {
        Some(kids) => {
            if e.is_dir {
                build_children(&identity, kids)
            } else {
                Vec::new()
            }
        },
        None => Vec::new(),
    };
    let node = TreeNode {
        identity,
        display_name: e.name.clone(),
        children,
        is_directory: e.is_dir,
    };
    proof {
        if !(e.is_dir && e.listing is Some) {
            assert(names_of(entry_children(*e)) =~= Seq::<Seq<char>>::empty());
        } else {
            assert(entry_children(*e) == e.listing->0@);
        }
    }
    node
}

/// Builds the tree for the directory `root` from what was read of the
/// filesystem: `is_dir` whether the root is a directory, `listing` its
/// entries (`None` when it could not be listed). Each directory's entries
/// are ordered by name before the tree descends into them. Fails with
/// `NoFileName` when the normalized root has no last component, and with
/// `Io` when the root could not be listed.
pub fn build_tree(root: &str, is_dir: bool, listing: &Option<Vec<FsEntry>>) -> (r: Result<TreeNode, ClideError>)
    ensures
        file_name_of(root@) is None ==> r == Err::<TreeNode, ClideError>(ClideError::NoFileName),
        file_name_of(root@) is Some && listing is None ==> r == Err::<TreeNode, ClideError>(
            ClideError::Io,
        ),
        file_name_of(root@) is Some && listing is Some ==> (r matches Ok(n) && built_root(
            n,
            root@,
            is_dir,
            listing->0@,
        )),
{
    let meta = match EntryMeta::new(root, is_dir) {
        Ok(m) => m,
        Err(e) => {
            return Err(e);
        },
    };
    match listing {
        None => Err(ClideError::Io),
        Some(kids) => {
            let children = build_children(&meta.abs_path, kids);
            Ok(TreeNode {
                identity: meta.abs_path,
                display_name: meta.file_name,
                children,
                is_directory: meta.is_dir,
            })
        },
    }
}

/// A name that a directory listing can hold: not empty, without `'/'`,
/// and neither `.` nor `..`.
pub open spec fn valid_name(m: Seq<char>) -> bool {
    &&& m.len() > 0
    &&& forall|i: int| 0 <= i < m.len() ==> #[trigger] m[i] != '/'
    &&& m != seq!['.']
    &&& m != seq!['.', '.']
}

/// No two entries of a listing share a name.
pub open spec fn distinct_names(es: Seq<FsEntry>) -> bool {
    forall|i: int, j: int| 0 <= i < j < es.len() ==> (#[trigger] es[i]).name@ != (#[trigger] es[j]).name@
}

/// An entry as a filesystem gives it: a valid name, and a listing (if
/// any) of valid entries with distinct names.
pub open spec fn valid_entry(e: FsEntry) -> bool
    decreases e,
{
    &&& valid_name(e.name@)
    &&& match e.listing {
        Some(v) => e.is_dir ==> {
            &&& distinct_names(v@)
            &&& forall|k: int| 0 <= k < v@.len() ==> valid_entry(#[trigger] v@[k])
        },
        None => true,
    }
}

/// A listing as a filesystem gives it.
pub open spec fn valid_listing(es: Seq<FsEntry>) -> bool {
    &&& distinct_names(es)
    &&& forall|k: int| 0 <= k < es.len() ==> valid_entry(#[trigger] es[k])
}

/// The node reached from `n` by the child indices of `p`, if they are in
/// range.
pub open spec fn node_at(n: TreeNode, p: Seq<int>) -> Option<TreeNode>
    decreases p.len(),
{
    if p.len() == 0 {
        Some(n)
    } else if 0 <= p[0] < n.children@.len() {
        node_at(n.children@[p[0]], p.drop_first())
    } else {
        None
    }
}

/// What the identities of the children of a directory start with.
pub open spec fn base_of(parent: Seq<char>) -> Seq<char> {
    if parent.len() == 0 {
        parent
    } else if parent.last() == '/' {
        parent
    } else {
        parent + seq!['/']
    }
}

/// `x` is `b + m` followed by nothing or by a `'/'`.
pub open spec fn extends(x: Seq<char>, b: Seq<char>, m: Seq<char>) -> bool {
    &&& x.len() >= b.len() + m.len()
    &&& x.subrange(0, b.len() + m.len() as int) == b + m
    &&& (x.len() == b.len() + m.len() || x[b.len() + m.len() as int] == '/')
}

proof fn lemma_join_is_base(parent: Seq<char>, m: Seq<char>)
    ensures
        join_path(parent, m) == base_of(parent) + m,
{
    if parent.len() > 0 && parent.last() != '/' {
        assert(parent + seq!['/'] + m =~= (parent + seq!['/']) + m);
    }
}

/// Two paths below a common prefix that go through different valid names
/// differ.
proof fn lemma_different_names(x: Seq<char>, y: Seq<char>, b: Seq<char>, m1: Seq<char>, m2: Seq<char>)
    requires
        extends(x, b, m1),
        extends(y, b, m2),
        valid_name(m1),
        valid_name(m2),
        m1 != m2,
    ensures
        x != y,
{
    if x == y {
        let l: int = b.len() as int;
        let l1: int = m1.len() as int;
        let l2: int = m2.len() as int;
        if l1 == l2 {
            assert(m1 =~= x.subrange(0, l + l1).subrange(l, l + l1));
            assert(m2 =~= y.subrange(0, l + l2).subrange(l, l + l2));
        } else if l1 < l2 {
            assert(y.subrange(0, l + l2)[l + l1] == (b + m2)[l + l1]);
            assert(x[l + l1] == m2[l1]);
            assert(m2[l1] != '/');
        } else {
            assert(x.subrange(0, l + l1)[l + l2] == (b + m1)[l + l2]);
            assert(y[l + l2] == m1[l2]);
            assert(m1[l2] != '/');
        }
    }
}

/// The children of `n` are built from the valid listing `kids`.
pub open spec fn children_valid(n: TreeNode, kids: Seq<FsEntry>) -> bool {
    &&& children_built(n, kids)
    &&& valid_listing(kids)
}

/// A child of a node built from a valid listing is built from a valid
/// entry, its name is that entry's, and its own children come from a valid
/// listing.
proof fn lemma_child(n: TreeNode, kids: Seq<FsEntry>, k: int)
    requires
        children_valid(n, kids),
        0 <= k < n.children@.len(),
    ensures
        ({
            let order = sorted_order(names_of(kids));
            let c = n.children@[k];
            let e = kids[order[k]];
            &&& 0 <= order[k] < kids.len()
            &&& built_from(c, n.identity@, e)
            &&& valid_entry(e)
            &&& valid_name(c.display_name@)
            &&& c.identity@ == base_of(n.identity@) + c.display_name@
            &&& children_valid(c, entry_children(e))
        }),
{
    let order = sorted_order(names_of(kids));
    lemma_sort_prefix(names_of(kids), kids.len());
    let c = n.children@[k];
    let e = kids[order[k]];
    assert(built_from(c, n.identity@, e));
    assert(valid_entry(e));
    lemma_join_is_base(n.identity@, e.name@);
    if !(e.is_dir && e.listing is Some) {
        assert(entry_children(e) =~= Seq::<FsEntry>::empty());
    }
}

/// Every node below a child of `n` has an identity that extends the
/// child's.
proof fn lemma_shape(n: TreeNode, kids: Seq<FsEntry>, q: Seq<int>)
    requires
        children_valid(n, kids),
        q.len() > 0,
        node_at(n, q) is Some,
    ensures
        extends(node_at(n, q)->0.identity@, base_of(n.identity@), n.children@[q[0]].display_name@),
    decreases q.len(),
{
    let k = q[0];
    lemma_child(n, kids, k);
    let order = sorted_order(names_of(kids));
    let c = n.children@[k];
    let b = base_of(n.identity@);
    let m = c.display_name@;
    let x = node_at(n, q)->0.identity@;
    if q.len() == 1 {
        assert(q.drop_first() =~= Seq::<int>::empty());
        assert(x == b + m);
        assert(x.subrange(0, (b.len() + m.len()) as int) =~= b + m);
    } else {
        let r = q.drop_first();
        let ce = entry_children(kids[order[k]]);
        lemma_shape(c, ce, r);
        lemma_child(c, ce, r[0]);
        let cid = c.identity@;
        assert(cid.len() > 0);
        assert(cid.last() == m.last());
        assert(base_of(cid) == cid + seq!['/']);
        let m2 = c.children@[r[0]].display_name@;
        let lb: int = b.len() as int;
        let lm: int = m.len() as int;
        let lc: int = cid.len() as int;
        let l2: int = m2.len() as int;
        assert(lc == lb + lm);
        let pre = x.subrange(0, lc + 1 + l2);
        assert(pre == cid + seq!['/'] + m2);
        assert(x.subrange(0, lb + lm) =~= pre.subrange(0, lb + lm));
        assert(pre.subrange(0, lb + lm) =~= cid);
        assert(x[lb + lm] == pre[lb + lm]);
    }
}

/// In a tree built from a valid listing, two different positions hold
/// nodes with different identities.
proof fn lemma_unique_below(n: TreeNode, kids: Seq<FsEntry>, p1: Seq<int>, p2: Seq<int>)
    requires
        children_valid(n, kids),
        node_at(n, p1) is Some,
        node_at(n, p2) is Some,
        p1 != p2,
    ensures
        node_at(n, p1)->0.identity@ != node_at(n, p2)->0.identity@,
    decreases n,
{
    let order = sorted_order(names_of(kids));
    if p1.len() == 0 {
        if p2.len() == 0 {
            assert(p1 =~= p2);
        }
        lemma_shape(n, kids, p2);
        lemma_child(n, kids, p2[0]);
        assert(base_of(n.identity@).len() >= n.identity@.len());
    } else if p2.len() == 0 {
        lemma_shape(n, kids, p1);
        lemma_child(n, kids, p1[0]);
        assert(base_of(n.identity@).len() >= n.identity@.len());
    } else if p1[0] == p2[0] {
        let k = p1[0];
        lemma_child(n, kids, k);
        let c = n.children@[k];
        assert(p1.drop_first() != p2.drop_first()) by {
            if p1.drop_first() == p2.drop_first() {
                assert(p1 =~= seq![k] + p1.drop_first());
                assert(p2 =~= seq![k] + p2.drop_first());
            }
        }
        lemma_unique_below(c, entry_children(kids[order[k]]), p1.drop_first(), p2.drop_first());
    } else {
        let i = p1[0];
        let j = p2[0];
        lemma_shape(n, kids, p1);
        lemma_shape(n, kids, p2);
        lemma_child(n, kids, i);
        lemma_child(n, kids, j);
        lemma_sort_prefix(names_of(kids), kids.len());
        assert(order[i] != order[j]);
        assert(kids[order[i]].name@ != kids[order[j]].name@) by {
            if order[i] < order[j] {
                assert(kids[order[i]].name@ != kids[order[j]].name@);
            } else {
                assert(kids[order[j]].name@ != kids[order[i]].name@);
            }
        }
        lemma_different_names(
            node_at(n, p1)->0.identity@,
            node_at(n, p2)->0.identity@,
            base_of(n.identity@),
            n.children@[i].display_name@,
            n.children@[j].display_name@,
        );
    }
}

/// A tree built from what a filesystem lists has no two nodes with the
/// same identity.
pub proof fn lemma_identities_unique(
    n: TreeNode,
    root: Seq<char>,
    is_dir: bool,
    listing: Seq<FsEntry>,
    p1: Seq<int>,
    p2: Seq<int>,
)
    requires
        built_root(n, root, is_dir, listing),
        valid_listing(listing),
        node_at(n, p1) is Some,
        node_at(n, p2) is Some,
        p1 != p2,
    ensures
        node_at(n, p1)->0.identity@ != node_at(n, p2)->0.identity@,
{
    lemma_unique_below(n, listing, p1, p2);
}

/// In a tree built from a valid listing, the children of each node have
/// distinct identities.
pub proof fn lemma_children_distinct(n: TreeNode, kids: Seq<FsEntry>)
    requires
        children_valid(n, kids),
    ensures
        forall|i: int, j: int|
            0 <= i < j < n.children@.len() ==> (#[trigger] n.children@[i]).identity@ != (
            #[trigger] n.children@[j]).identity@,
        forall|k: int|
            0 <= k < n.children@.len() ==> children_valid(
                #[trigger] n.children@[k],
                entry_children(kids[sorted_order(names_of(kids))[k]]),
            ),
{
    let order = sorted_order(names_of(kids));
    let b = base_of(n.identity@);
    lemma_sort_prefix(names_of(kids), kids.len());
    assert forall|i: int, j: int| 0 <= i < j < n.children@.len() implies (
    #[trigger] n.children@[i]).identity@ != (#[trigger] n.children@[j]).identity@ by {
        lemma_child(n, kids, i);
        lemma_child(n, kids, j);
        let mi = n.children@[i].display_name@;
        let mj = n.children@[j].display_name@;
        assert(order[i] != order[j]);
        assert(mi != mj) by {
            if order[i] < order[j] {
                assert(kids[order[i]].name@ != kids[order[j]].name@);
            } else {
                assert(kids[order[j]].name@ != kids[order[i]].name@);
            }
        }
        if (b + mi) == (b + mj) {
            assert(mi =~= (b + mi).subrange(b.len() as int, (b + mi).len() as int));
            assert(mj =~= (b + mj).subrange(b.len() as int, (b + mj).len() as int));
        }
    }
    assert forall|k: int| 0 <= k < n.children@.len() implies children_valid(
        #[trigger] n.children@[k],
        entry_children(kids[order[k]]),
    ) by {
        lemma_child(n, kids, k);
    }
}

} // verus!
