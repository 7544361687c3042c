use vstd::prelude::*;
use tui_tree_widget::{TreeItem, TreeState};
use ratatui::layout::Position;
use crate::component::{Action, ComponentState, Focus};
use crate::error::ClideError;
use crate::event::{Event, KeyCode, KeyEvent, MouseEvent, MouseEventKind};
use crate::text::views;
use crate::tree::{
    FsEntry, TreeNode, build_tree, built_root, children_valid, entry_children, lemma_children_distinct,
    names_of, sorted_order, valid_listing,
};
use crate::path::file_name_of;

verus! {

#[verifier::external_type_specification]
#[verifier::external_body]
#[verifier::reject_recursive_types(Identifier)]
pub struct ExTreeState<Identifier>(TreeState<Identifier>);

#[verifier::external_type_specification]
#[verifier::external_body]
#[verifier::reject_recursive_types(Identifier)]
pub struct ExTreeItem<'text, Identifier>(TreeItem<'text, Identifier>);

#[verifier::external_type_specification]
#[verifier::external_body]
pub struct ExIoError(std::io::Error);

/// The identifier path of the selected item (from a top-level item down),
/// empty when nothing is selected.
pub uninterp spec fn tree_selected(state: TreeState<String>) -> Seq<Seq<char>>;

/// The identifier paths of the opened (expanded) items.
pub uninterp spec fn tree_opened(state: TreeState<String>) -> Set<Seq<Seq<char>>>;

/// The scroll offset: how many rows of the tree are scrolled past.
pub uninterp spec fn tree_offset(state: TreeState<String>) -> nat;

/// The largest scroll offset that the last render allowed.
pub uninterp spec fn tree_scroll_limit(state: TreeState<String>) -> nat;

/// The identifier path of the item that the last render drew at
/// (`column`, `row`), if any.
pub uninterp spec fn tree_item_at(state: TreeState<String>, column: u16, row: u16) -> Option<
    Seq<Seq<char>>,
>;

/// The identifier of a tree item.
pub uninterp spec fn tree_item_id(item: TreeItem<'static, String>) -> Seq<char>;

/// Relies on `TreeItem::new_leaf`: an item without children, with the
/// given identifier.
#[verifier::external_body]
fn new_leaf(id: String, text: String) -> (r: TreeItem<'static, String>)
    ensures
        tree_item_id(r) == id@,
{
    TreeItem::new_leaf(id, text)
}

/// Relies on `TreeItem::new`: it fails exactly when two children share an
/// identifier, and otherwise carries the given identifier.
#[verifier::external_body]
fn new_item(id: String, text: String, children: Vec<TreeItem<'static, String>>) -> (r: Result<
    TreeItem<'static, String>,
    std::io::Error,
>)
    ensures
        r is Ok <==> forall|i: int, j: int|
            0 <= i < j < children@.len() ==> tree_item_id(#[trigger] children@[i]) != tree_item_id(
                #[trigger] children@[j],
            ),
        r matches Ok(item) ==> tree_item_id(item) == id@,
{
    TreeItem::new(id, text, children)
}

/// Relies on `TreeState::default`: nothing selected, nothing opened.
#[verifier::external_body]
fn new_tree_state() -> (r: TreeState<String>)
    ensures
        tree_selected(r) == Seq::<Seq<char>>::empty(),
        tree_opened(r) == Set::<Seq<Seq<char>>>::empty(),
{
    TreeState::default()
}

/// Relies on `TreeState::selected`: the selected identifier path.
#[verifier::external_body]
fn selected_path(state: &TreeState<String>) -> (r: Vec<String>)
    ensures
        views(r@) == tree_selected(*state),
{
    state.selected().to_vec()
}

/// Relies on `TreeState::key_up`: it moves the selection among the items
/// shown by the last render, reports whether it moved, and leaves the
/// opened items and the scroll offset alone.
#[verifier::external_body]
fn key_up(state: &mut TreeState<String>) -> (r: bool)
    ensures
        tree_opened(*final(state)) == tree_opened(*old(state)),
        tree_offset(*final(state)) == tree_offset(*old(state)),
        r == (tree_selected(*final(state)) != tree_selected(*old(state))),
{
    state.key_up()
}

/// Relies on `TreeState::key_down`: it moves the selection among the items
/// shown by the last render, reports whether it moved, and leaves the
/// opened items and the scroll offset alone.
#[verifier::external_body]
fn key_down(state: &mut TreeState<String>) -> (r: bool)
    ensures
        tree_opened(*final(state)) == tree_opened(*old(state)),
        tree_offset(*final(state)) == tree_offset(*old(state)),
        r == (tree_selected(*final(state)) != tree_selected(*old(state))),
{
    state.key_down()
}

/// Relies on `TreeState::key_right`: it opens the selected item, if any,
/// and reports whether it was closed before.
#[verifier::external_body]
fn key_right(state: &mut TreeState<String>) -> (r: bool)
    ensures
        tree_offset(*final(state)) == tree_offset(*old(state)),
        tree_selected(*final(state)) == tree_selected(*old(state)),
        tree_selected(*old(state)).len() == 0 ==> tree_opened(*final(state)) == tree_opened(
            *old(state),
        ) && !r,
        tree_selected(*old(state)).len() > 0 ==> tree_opened(*final(state)) == tree_opened(
            *old(state),
        ).insert(tree_selected(*old(state))) && r == !tree_opened(*old(state)).contains(
            tree_selected(*old(state)),
        ),
{
    state.key_right()
}

/// Relies on `TreeState::close`: it closes the item at `id` and reports
/// whether it was open; the selection stays.
#[verifier::external_body]
fn close(state: &mut TreeState<String>, id: &[String]) -> (r: bool)
    ensures
        tree_offset(*final(state)) == tree_offset(*old(state)),
        tree_selected(*final(state)) == tree_selected(*old(state)),
        tree_opened(*final(state)) == tree_opened(*old(state)).remove(views(id@)),
        r == tree_opened(*old(state)).contains(views(id@)),
{
    state.close(id)
}

/// Relies on `TreeState::toggle`: it opens the item at `id` if it was
/// closed and closes it if it was open; an empty `id` changes nothing.
/// The selection stays.
#[verifier::external_body]
fn toggle(state: &mut TreeState<String>, id: Vec<String>) -> (r: bool)
    ensures
        tree_offset(*final(state)) == tree_offset(*old(state)),
        tree_selected(*final(state)) == tree_selected(*old(state)),
        id@.len() == 0 ==> tree_opened(*final(state)) == tree_opened(*old(state)) && !r,
        id@.len() > 0 ==> r && tree_opened(*final(state)) == if tree_opened(
            *old(state),
        ).contains(views(id@)) {
            tree_opened(*old(state)).remove(views(id@))
        } else {
            tree_opened(*old(state)).insert(views(id@))
        },
{
    state.toggle(id)
}

/// Relies on `TreeState::scroll_up`: the offset goes down by `lines`,
/// stopping at zero; it reports whether the offset changed.
#[verifier::external_body]
fn scroll_up(state: &mut TreeState<String>, lines: usize) -> (r: bool)
    ensures
        tree_selected(*final(state)) == tree_selected(*old(state)),
        tree_opened(*final(state)) == tree_opened(*old(state)),
        tree_scroll_limit(*final(state)) == tree_scroll_limit(*old(state)),
        tree_offset(*final(state)) == if tree_offset(*old(state)) >= lines {
            (tree_offset(*old(state)) - lines) as nat
        } else {
            0nat
        },
        r == (tree_offset(*final(state)) != tree_offset(*old(state))),
{
    state.scroll_up(lines)
}

/// Relies on `TreeState::scroll_down`: the offset goes up by `lines`,
/// stopping at the limit of the last render; it reports whether the offset
/// changed.
#[verifier::external_body]
fn scroll_down(state: &mut TreeState<String>, lines: usize) -> (r: bool)
    ensures
        tree_selected(*final(state)) == tree_selected(*old(state)),
        tree_opened(*final(state)) == tree_opened(*old(state)),
        tree_scroll_limit(*final(state)) == tree_scroll_limit(*old(state)),
        tree_offset(*final(state)) == if tree_offset(*old(state)) + lines <= tree_scroll_limit(
            *old(state),
        ) {
            (tree_offset(*old(state)) + lines) as nat
        } else {
            tree_scroll_limit(*old(state))
        },
        r == (tree_offset(*final(state)) != tree_offset(*old(state))),
{
    state.scroll_down(lines)
}

/// What a click at (`column`, `row`) does to the tree state `s`: nothing
/// when no item was drawn there by the last render; a click on the selected
/// item toggles it open or closed; a click on another item selects it and
/// opens nothing.
pub open spec fn clicked(s: TreeState<String>, column: u16, row: u16, t: TreeState<String>) -> bool {
    let sel = tree_selected(s);
    let opened = tree_opened(s);
    &&& tree_offset(t) == tree_offset(s)
    &&& match tree_item_at(s, column, row) {
        None => tree_selected(t) == sel && tree_opened(t) == opened,
        Some(id) => if id == sel {
            &&& tree_selected(t) == sel
            &&& tree_opened(t) == if sel.len() == 0 {
                opened
            } else if opened.contains(sel) {
                opened.remove(sel)
            } else {
                opened.insert(sel)
            }
        } else {
            tree_selected(t) == id && tree_opened(t) == opened
        },
    }
}

/// Relies on `TreeState::click_at` (through `rendered_at` and
/// `toggle_selected`): a click where the last render drew no item does
/// nothing; a click on the selected item toggles it open or closed; a click
/// on another item selects it and opens nothing. It reports whether
/// anything changed; the scroll offset stays.
#[verifier::external_body]
fn click_at(state: &mut TreeState<String>, column: u16, row: u16) -> (r: bool)
    ensures
        tree_offset(*final(state)) == tree_offset(*old(state)),
        match tree_item_at(*old(state), column, row) {
            None => tree_selected(*final(state)) == tree_selected(*old(state)) && tree_opened(
                *final(state),
            ) == tree_opened(*old(state)),
            Some(id) => if id == tree_selected(*old(state)) {
                &&& tree_selected(*final(state)) == tree_selected(*old(state))
                &&& tree_opened(*final(state)) == if id.len() == 0 {
                    tree_opened(*old(state))
                } else if tree_opened(*old(state)).contains(id) {
                    tree_opened(*old(state)).remove(id)
                } else {
                    tree_opened(*old(state)).insert(id)
                }
            } else {
                tree_selected(*final(state)) == id && tree_opened(*final(state)) == tree_opened(
                    *old(state),
                )
            },
        },
        r == (tree_selected(*final(state)) != tree_selected(*old(state)) || tree_opened(
            *final(state),
        ) != tree_opened(*old(state))),
{
    state.click_at(Position::new(column, row))
}

/// The identities of the children of every node are pairwise distinct.
pub open spec fn siblings_distinct(n: TreeNode) -> bool
    decreases n,
{
    &&& forall|i: int, j: int|
        0 <= i < j < n.children@.len() ==> (#[trigger] n.children@[i]).identity@ != (
        #[trigger] n.children@[j]).identity@
    &&& forall|k: int| 0 <= k < n.children@.len() ==> siblings_distinct(#[trigger] n.children@[k])
}

/// A tree built from a valid listing has distinct identities among the
/// children of every node.
pub proof fn lemma_valid_siblings(n: TreeNode, kids: Seq<FsEntry>)
    requires
        children_valid(n, kids),
    ensures
        siblings_distinct(n),
    decreases n,
{
    lemma_children_distinct(n, kids);
    let order = sorted_order(names_of(kids));
    assert forall|k: int| 0 <= k < n.children@.len() implies siblings_distinct(
        #[trigger] n.children@[k],
    ) by {
        lemma_valid_siblings(n.children@[k], entry_children(kids[order[k]]));
    }
}

/// The widget items for the tree `n`; fails with `DuplicateEntry` when two
/// children of one node share an identity.
fn to_tree_item(n: &TreeNode) -> (r: Result<TreeItem<'static, String>, ClideError>)
    ensures
        r is Ok <==> siblings_distinct(*n),
        r is Err ==> r == Err::<TreeItem<'static, String>, ClideError>(ClideError::DuplicateEntry),
        r matches Ok(item) ==> tree_item_id(item) == n.identity@,
    decreases n,
{
    let mut items: Vec<TreeItem<'static, String>> = Vec::new();
    let mut k: usize = 0;
    while k < n.children.len()
        invariant
            k <= n.children@.len(),
            items@.len() == k,
            forall|j: int|
                0 <= j < k ==> tree_item_id(#[trigger] items@[j]) == n.children@[j].identity@,
            forall|j: int| 0 <= j < k ==> siblings_distinct(#[trigger] n.children@[j]),
        decreases n.children@.len() - k,
    {
        match to_tree_item(&n.children[k]) {
            Ok(item) => items.push(item),
            Err(e) => {
                assert(!siblings_distinct(n.children@[k as int]));
                return Err(e);
            },
        }
        k = k + 1;
    }
    let ghost its = items@;
    if n.children.len() == 0 {
        let leaf = new_leaf(n.identity.clone(), n.display_name.clone());
        return Ok(leaf);
    }
    match new_item(n.identity.clone(), n.display_name.clone(), items) {
        Ok(item) => {
            proof {
                assert forall|i: int, j: int| 0 <= i < j < n.children@.len() implies (
                #[trigger] n.children@[i]).identity@ != (#[trigger] n.children@[j]).identity@ by {
                    assert(tree_item_id(its[i]) != tree_item_id(its[j]));
                }
            }
            Ok(item)
        },
        Err(_) => {
            proof {
                let (i, j) = choose|i: int, j: int|
                    0 <= i < j < its.len() && tree_item_id(#[trigger] its[i]) == tree_item_id(
                        #[trigger] its[j],
                    );
                assert(n.children@[i].identity@ == n.children@[j].identity@);
            }
            Err(ClideError::DuplicateEntry)
        },
    }
}

/// The index of the first child of `n` whose identity is `id`.
pub open spec fn first_child(n: TreeNode, id: Seq<char>) -> Option<int> {
    if exists|k: int| 0 <= k < n.children@.len() && #[trigger] n.children@[k].identity@ == id {
        Some(
            choose|k: int|
                0 <= k < n.children@.len() && #[trigger] n.children@[k].identity@ == id && forall|
                    j: int,
                | 0 <= j < k ==> (#[trigger] n.children@[j]).identity@ != id,
        )
    } else {
        None
    }
}

/// The node reached from `n` by following the identities of `path` down
/// through its children.
pub open spec fn descend(n: TreeNode, path: Seq<Seq<char>>) -> Option<TreeNode>
    decreases path.len(),
{
    if path.len() == 0 {
        Some(n)
    } else {
        match first_child(n, path[0]) {
            Some(k) => descend(n.children@[k], path.drop_first()),
            None => None,
        }
    }
}

/// The first child of `n` with identity `id`, as `first_child` states.
fn find_child(n: &TreeNode, id: &String) -> (r: Option<usize>)
    ensures
        r is None ==> first_child(*n, id@) is None,
        r matches Some(k) ==> first_child(*n, id@) == Some(k as int) && k < n.children@.len(),
{
    let mut k: usize = 0;
    while k < n.children.len()
        invariant
            k <= n.children@.len(),
            forall|j: int| 0 <= j < k ==> (#[trigger] n.children@[j]).identity@ != id@,
        decreases n.children@.len() - k,
    {
        if n.children[k].identity == *id {
            proof {
                let c = choose|c: int|
                    0 <= c < n.children@.len() && #[trigger] n.children@[c].identity@ == id@
                        && forall|j: int| 0 <= j < c ==> (#[trigger] n.children@[j]).identity@ != id@;
                if c < k {
                } else if c > k {
                    assert(n.children@[k as int].identity@ == id@);
                }
            }
            return Some(k);
        }
        k = k + 1;
    }
    None
}

/// An action that a panel reports as `Pass` stands for `Noop` here.
pub open spec fn unpass(r: Action) -> Action {
    if r == Action::Pass {
        Action::Noop
    } else {
        r
    }
}

/// `t` is `s` with at most its tree state changed.
pub open spec fn same_but_tree_state(s: Explorer, t: Explorer) -> bool {
    t == (Explorer { tree_state: t.tree_state, ..s })
}

/// `handle_key_events(key)` takes the explorer `s` to `t` and returns `r`.
pub open spec fn explorer_key_step(s: Explorer, key: KeyEvent, t: Explorer, r: Action) -> bool {
    let sel = s.selection();
    let opened = s.expanded();
    &&& same_but_tree_state(s, t)
    &&& r == Action::OpenTab || r == Action::Handled || r == Action::Noop
    &&& r == Action::OpenTab <==> key.code == KeyCode::Enter && s.selects_file()
    &&& r == Action::OpenTab ==> t == s
    &&& match key.code {
        KeyCode::Left | KeyCode::Char('h') => {
            &&& t.selection() == sel
            &&& t.expanded() == opened.remove(sel)
            &&& r == if opened.contains(sel) {
                Action::Handled
            } else {
                Action::Noop
            }
        },
        KeyCode::Right | KeyCode::Char('l') => {
            &&& t.selection() == sel
            &&& t.expanded() == if sel.len() > 0 {
                opened.insert(sel)
            } else {
                opened
            }
            &&& r == if sel.len() > 0 && !opened.contains(sel) {
                Action::Handled
            } else {
                Action::Noop
            }
        },
        KeyCode::Up | KeyCode::Char('k') | KeyCode::Down | KeyCode::Char('j') => {
            &&& t.expanded() == opened
            &&& r == if t.selection() != sel {
                Action::Handled
            } else {
                Action::Noop
            }
        },
        KeyCode::Char(' ') | KeyCode::Enter => {
            r != Action::OpenTab ==> {
                &&& t.selection() == sel
                &&& t.expanded() == if sel.len() == 0 {
                    opened
                } else if opened.contains(sel) {
                    opened.remove(sel)
                } else {
                    opened.insert(sel)
                }
                &&& r == if sel.len() > 0 {
                    Action::Handled
                } else {
                    Action::Noop
                }
            }
        },
        _ => r == Action::Noop && t == s,
    }
}

/// `handle_mouse_events(mouse)` takes the explorer `s` to `t` and returns `r`.
pub open spec fn explorer_mouse_step(s: Explorer, mouse: MouseEvent, t: Explorer, r: Action) -> bool {
    let off = tree_offset(s.tree_state);
    let limit = tree_scroll_limit(s.tree_state);
    &&& same_but_tree_state(s, t)
    &&& match mouse.kind {
        MouseEventKind::ScrollDown => {
            &&& t.selection() == s.selection()
            &&& t.expanded() == s.expanded()
            &&& tree_scroll_limit(t.tree_state) == limit
            &&& tree_offset(t.tree_state) == if off + 1 <= limit {
                (off + 1) as nat
            } else {
                limit
            }
            &&& r == if tree_offset(t.tree_state) != off {
                Action::Handled
            } else {
                Action::Noop
            }
        },
        MouseEventKind::ScrollUp => {
            &&& t.selection() == s.selection()
            &&& t.expanded() == s.expanded()
            &&& tree_scroll_limit(t.tree_state) == limit
            &&& tree_offset(t.tree_state) == if off >= 1 {
                (off - 1) as nat
            } else {
                0nat
            }
            &&& r == if tree_offset(t.tree_state) != off {
                Action::Handled
            } else {
                Action::Noop
            }
        },
        MouseEventKind::Down(_) => {
            &&& clicked(s.tree_state, mouse.column, mouse.row, t.tree_state)
            &&& r == if t.selection() != s.selection() || t.expanded() != s.expanded() {
                Action::Handled
            } else {
                Action::Noop
            }
        },
        _ => r == Action::Noop && t == s,
    }
}

/// `handle_event(event)` takes the explorer `s` to `t` and returns `r`:
/// keys as `handle_key_events` and pointer events as `handle_mouse_events`
/// handle them, with `Pass` in place of `Noop`.
pub open spec fn explorer_event_step(s: Explorer, event: Event, t: Explorer, r: Action) -> bool {
    match event {
        Event::Key(k) => r != Action::Noop && explorer_key_step(s, k, t, unpass(r)),
        Event::Mouse(m) => r != Action::Noop && explorer_mouse_step(s, m, t, unpass(r)),
        Event::Other => r == Action::Pass && t == s,
    }
}

pub const EXPLORER_HELP: &'static str =
    "(↑/k)/(↓/j): Select item | ←/h: Close folder | →/l: Open folder | Space: Open / close folder | Enter: Open file in new editor tab";

/// The file explorer: the tree model, the widget items built from it, the
/// selection and expansion state, and the panel's focus state.
pub struct Explorer {
    pub root_path: String,
    pub root: TreeNode,
    pub tree_items: TreeItem<'static, String>,
    pub tree_state: TreeState<String>,
    pub component_state: ComponentState,
}

impl Explorer {
    /// The identifier path of the selection.
    pub open spec fn selection(&self) -> Seq<Seq<char>> {
        tree_selected(self.tree_state)
    }

    /// The identifier paths of the expanded nodes.
    pub open spec fn expanded(&self) -> Set<Seq<Seq<char>>> {
        tree_opened(self.tree_state)
    }

    /// Whether the selection denotes a file (not a directory) of the tree.
    pub open spec fn selects_file(&self) -> bool {
        &&& self.selection().len() > 0
        &&& descend(self.root, self.selection()) matches Some(m)
        &&& !m.is_directory
    }

    /// The explorer for the directory `root_path`, built from what was read
    /// of the filesystem (see `build_tree`), with nothing selected or
    /// expanded. Fails as `build_tree` does, and with `DuplicateEntry` when
    /// one directory lists two entries of the same name.
    pub fn new(root_path: &str, is_dir: bool, listing: &Option<Vec<FsEntry>>) -> (r: Result<
        Explorer,
        ClideError,
    >)
        ensures
            file_name_of(root_path@) is None ==> r == Err::<Explorer, ClideError>(
                ClideError::NoFileName,
            ),
            file_name_of(root_path@) is Some && listing is None ==> r == Err::<
                Explorer,
                ClideError,
            >(ClideError::Io),
            file_name_of(root_path@) is Some && listing is Some ==> (r is Ok || r == Err::<
                Explorer,
                ClideError,
            >(ClideError::DuplicateEntry)),
            file_name_of(root_path@) is Some && listing is Some && valid_listing(listing->0@) ==> r is Ok,
            r == Err::<Explorer, ClideError>(ClideError::DuplicateEntry) ==> exists|n: TreeNode|
                built_root(n, root_path@, is_dir, listing->0@) && !siblings_distinct(n),
            r matches Ok(x) ==> {
                &&& built_root(x.root, root_path@, is_dir, listing->0@)
                &&& siblings_distinct(x.root)
                &&& tree_item_id(x.tree_items) == x.root.identity@
                &&& x.root_path@ == root_path@
                &&& x.selection() == Seq::<Seq<char>>::empty()
                &&& x.expanded() == Set::<Seq<Seq<char>>>::empty()
                &&& x.component_state.focus == Focus::Inactive
                &&& x.component_state.help_text@ == EXPLORER_HELP@
            },
    {
        let root = match build_tree(root_path, is_dir, listing) {
            Ok(n) => n,
            Err(e) => {
                return Err(e);
            },
        };
        proof {
            if listing is Some && valid_listing(listing->0@) {
                lemma_valid_siblings(root, listing->0@);
            }
        }
        let tree_items = match to_tree_item(&root) {
            Ok(item) => item,
            Err(e) => {
                return Err(e);
            },
        };
        Ok(Explorer {
            root_path: root_path.to_owned(),
            root,
            tree_items,
            tree_state: new_tree_state(),
            component_state: ComponentState::default().with_help_text(EXPLORER_HELP),
        })
    }

    /// The identity of the selected node; fails with `NoSelection` when
    /// nothing is selected.
    pub fn selected(&self) -> (r: Result<String, ClideError>)
        ensures
            self.selection().len() == 0 <==> r == Err::<String, ClideError>(ClideError::NoSelection),
            self.selection().len() > 0 <==> r is Ok,
            r matches Ok(p) ==> p@ == self.selection().last(),
    {
        let sel = selected_path(&self.tree_state);
        if sel.len() == 0 {
            Err(ClideError::NoSelection)
        } else {
            Ok(sel[sel.len() - 1].clone())
        }
    }

    /// Whether the selection denotes a file of the tree.
    pub fn selected_is_file(&self) -> (r: bool)
        ensures
            r == self.selects_file(),
    {
        let sel = selected_path(&self.tree_state);
        if sel.len() == 0 {
            return false;
        }
        let ghost path = views(sel@);
        let mut cur: &TreeNode = &self.root;
        let mut i: usize = 0;
        assert(path.skip(0) =~= path);
        while i < sel.len()
            invariant
                i <= sel@.len(),
                path == views(sel@),
                path == self.selection(),
                descend(self.root, path) == descend(*cur, path.skip(i as int)),
            decreases sel@.len() - i,
        {
            assert(path.skip(i as int)[0] == sel@[i as int]@);
            assert(path.skip(i as int).drop_first() =~= path.skip(i + 1));
            match find_child(cur, &sel[i]) {
                None => {
                    return false;
                },
                Some(k) => {
                    cur = &cur.children[k];
                },
            }
            i = i + 1;
        }
        assert(path.skip(i as int) =~= Seq::<Seq<char>>::empty());
        !cur.is_directory
    }

    /// Enter on a file asks for it to be opened in a tab; whether the
    /// selection is a file is read from the tree as it was built. Up and
    /// down move the selection, left collapses the selected node without
    /// moving the selection, right expands it, space (or Enter on a
    /// directory) toggles it. `Handled` when the state changed, `Noop`
    /// otherwise.
    pub fn handle_key_events(&mut self, key: KeyEvent) -> (r: Action)
        ensures
            explorer_key_step(*old(self), key, *final(self), r),
    {
        if key.code == KeyCode::Enter && self.selected_is_file() {
            return Action::OpenTab;
        }
        let changed = match key.code {
            KeyCode::Up | KeyCode::Char('k') => key_up(&mut self.tree_state),
            KeyCode::Down | KeyCode::Char('j') => key_down(&mut self.tree_state),
            KeyCode::Left | KeyCode::Char('h') => {
                let sel = selected_path(&self.tree_state);
                close(&mut self.tree_state, sel.as_slice())
            },
            KeyCode::Char(' ') | KeyCode::Enter => {
                let sel = selected_path(&self.tree_state);
                toggle(&mut self.tree_state, sel)
            },
            KeyCode::Right | KeyCode::Char('l') => key_right(&mut self.tree_state),
            _ => false,
        };
        if changed {
            Action::Handled
        } else {
            Action::Noop
        }
    }

    /// The wheel scrolls, a button press selects (or toggles) the item under
    /// the pointer. `Handled` when the state changed, `Noop` otherwise.
    pub fn handle_mouse_events(&mut self, mouse: MouseEvent) -> (r: Action)
        ensures
            explorer_mouse_step(*old(self), mouse, *final(self), r),
    {
        let changed = match mouse.kind {
            MouseEventKind::ScrollDown => scroll_down(&mut self.tree_state, 1),
            MouseEventKind::ScrollUp => scroll_up(&mut self.tree_state, 1),
            MouseEventKind::Down(_) => click_at(&mut self.tree_state, mouse.column, mouse.row),
            _ => false,
        };
        if changed {
            Action::Handled
        } else {
            Action::Noop
        }
    }

    /// Keys first, then the pointer; `Pass` for what neither handled.
    pub fn handle_event(&mut self, event: Event) -> (r: Action)
        ensures
            explorer_event_step(*old(self), event, *final(self), r),
    {
        match event {
            Event::Key(k) => {
                let a = self.handle_key_events(k);
                if a == Action::Handled || a == Action::OpenTab {
                    return a;
                }
            },
            Event::Mouse(m) => {
                if self.handle_mouse_events(m) == Action::Handled {
                    return Action::Handled;
                }
            },
            Event::Other => {},
        }
        Action::Pass
    }

    pub fn is_active(&self) -> (r: bool)
        ensures
            r == (self.component_state.focus == Focus::Active),
    {
        self.component_state.focus == Focus::Active
    }
}

} // verus!
