use vstd::prelude::*;
use crate::component::{Action, ComponentState, Focus};
use crate::editor::{Editor, editor_cursor, editor_lines};
use crate::error::ClideError;
use crate::event::{Event, KeyCode, KeyEvent};
use crate::text::{lines_of, views};

verus! {

/// The editor with its focus flag replaced.
pub open spec fn with_focus(e: Editor, focus: Focus) -> Editor {
    Editor { component_state: ComponentState { focus, ..e.component_state }, ..e }
}

/// The index after `next_editor` among `n` tabs.
pub open spec fn next_index(i: int, n: int) -> int {
    if n <= 1 {
        i
    } else {
        (i + 1) % n
    }
}

/// The index after `prev_editor` among `n` tabs.
pub open spec fn prev_index(i: int, n: int) -> int {
    if n <= 1 {
        i
    } else if i == 0 {
        n - 1
    } else {
        i - 1
    }
}

/// The current index after closing tab `index`, when `n` tabs remain: the
/// tab before it, or the last tab when the first was closed.
pub open spec fn index_after_close(index: int, n: int) -> int {
    if n == 0 {
        0
    } else if index == 0 {
        n - 1
    } else {
        index - 1
    }
}

/// The editors after the current tab's focus moved from `from` to `to`.
pub open spec fn move_focus(eds: Seq<Editor>, from: int, to: int) -> Seq<Editor> {
    let f = eds[from].component_state.focus;
    let cleared = eds.update(from, with_focus(eds[from], Focus::Inactive));
    cleared.update(to, with_focus(cleared[to], f))
}

/// Whether editor `i` has focus.
pub open spec fn active_at(eds: Seq<Editor>, i: int) -> bool {
    eds[i].component_state.focus == Focus::Active
}

/// At most one editor has focus.
pub open spec fn single_focus(eds: Seq<Editor>) -> bool {
    forall|i: int, j: int|
        0 <= i < eds.len() && 0 <= j < eds.len() && #[trigger] active_at(eds, i) && #[trigger] active_at(
            eds,
            j,
        ) ==> i == j
}

/// Some editor has focus.
pub open spec fn any_active(eds: Seq<Editor>) -> bool {
    exists|i: int| 0 <= i < eds.len() && #[trigger] active_at(eds, i)
}

/// Moving the current tab's focus gives no second editor focus, and gives
/// focus to none when none had it.
pub proof fn lemma_move_focus(eds: Seq<Editor>, from: int, to: int)
    requires
        0 <= from < eds.len(),
        0 <= to < eds.len(),
        from != to,
    ensures
        move_focus(eds, from, to).len() == eds.len(),
        single_focus(eds) ==> single_focus(move_focus(eds, from, to)),
        any_active(move_focus(eds, from, to)) ==> any_active(eds),
{
    let m = move_focus(eds, from, to);
    assert forall|k: int| 0 <= k < eds.len() && k != from && k != to implies m[k] == eds[k] by {}
    if single_focus(eds) {
        assert forall|i: int, j: int|
            0 <= i < m.len() && 0 <= j < m.len() && #[trigger] active_at(m, i) && #[trigger] active_at(
                m,
                j,
            ) implies i == j by {
            if i == to {
                assert(active_at(eds, from));
            }
            if j == to {
                assert(active_at(eds, from));
            }
            if i != to && j != to {
                assert(active_at(eds, i) && active_at(eds, j));
            } else if i != to {
                assert(active_at(eds, i));
            } else if j != to {
                assert(active_at(eds, j));
            }
        }
    }
    if any_active(m) {
        let i = choose|i: int| 0 <= i < m.len() && #[trigger] active_at(m, i);
        if i == to {
            assert(active_at(eds, from));
        } else {
            assert(active_at(eds, i));
        }
    }
}

/// Closing an editor gives no second editor focus, and gives focus to
/// none when none had it.
pub proof fn lemma_close_focus(eds: Seq<Editor>, index: int, cur: int)
    requires
        0 <= index < eds.len(),
        eds.len() > 1 ==> 0 <= cur < eds.len() - 1,
    ensures
        ({
            let rem = eds.remove(index);
            let r = if active_at(eds, index) && eds.len() > 1 {
                rem.update(cur, with_focus(rem[cur], Focus::Active))
            } else {
                rem
            };
            &&& single_focus(eds) ==> single_focus(r)
            &&& any_active(r) ==> any_active(eds)
        }),
{
    let rem = eds.remove(index);
    let r = if active_at(eds, index) && eds.len() > 1 {
        rem.update(cur, with_focus(rem[cur], Focus::Active))
    } else {
        rem
    };
    assert forall|k: int| 0 <= k < rem.len() implies #[trigger] rem[k] == eds[if k < index {
        k
    } else {
        k + 1
    }] by {}
    if single_focus(eds) {
        assert forall|i: int, j: int|
            0 <= i < r.len() && 0 <= j < r.len() && #[trigger] active_at(r, i) && #[trigger] active_at(
                r,
                j,
            ) implies i == j by {
            let oi = if i < index { i } else { i + 1 };
            let oj = if j < index { j } else { j + 1 };
            if active_at(eds, index) && eds.len() > 1 {
                if i != cur {
                    assert(active_at(eds, oi));
                }
                if j != cur {
                    assert(active_at(eds, oj));
                }
            } else {
                assert(active_at(eds, oi) && active_at(eds, oj));
            }
        }
    }
    if any_active(r) {
        let i = choose|i: int| 0 <= i < r.len() && #[trigger] active_at(r, i);
        let oi = if i < index { i } else { i + 1 };
        if active_at(eds, index) {
        } else {
            assert(active_at(eds, oi));
        }
    }
}

/// The view of an optional string.
pub open spec fn str_view(c: Option<&str>) -> Option<Seq<char>> {
    match c {
        Some(t) => Some(t@),
        None => None,
    }
}

/// What `open_tab(path, contents)` does to the registry `s`, giving `t`
/// and the result `r`: a path that is open already changes nothing; a
/// failed read (`contents` is `None`) fails with `Io` and changes nothing;
/// otherwise a new tab for `path` holding the lines of `contents`, inactive
/// and with the cursor at the origin, comes last and becomes current.
pub open spec fn open_tab_post(
    s: EditorTab,
    path: Seq<char>,
    contents: Option<Seq<char>>,
    t: EditorTab,
    r: Result<(), ClideError>,
) -> bool {
    if s.contains(path) {
        r is Ok && t == s
    } else if contents is None {
        r == Err::<(), ClideError>(ClideError::Io) && t == s
    } else {
        &&& r is Ok
        &&& t.order() == s.order().push(path)
        &&& t.editors@.drop_last() == s.editors@
        &&& t.editors@.len() == s.editors@.len() + 1
        &&& t.current_editor == s.len()
        &&& t.editors@.last().has_path(path)
        &&& editor_lines(t.editors@.last().state) == lines_of(contents->0)
        &&& editor_cursor(t.editors@.last().state) == (0nat, 0nat)
        &&& t.editors@.last().component_state.focus == Focus::Inactive
    }
}

/// Opening a path twice in succession leaves the registry as opening it
/// once did: no second tab, and the first tab's buffer and cursor kept.
pub proof fn lemma_open_idempotent(
    s: EditorTab,
    path: Seq<char>,
    contents: Option<Seq<char>>,
    t: EditorTab,
    r1: Result<(), ClideError>,
    u: EditorTab,
    r2: Result<(), ClideError>,
)
    requires
        s.wf(),
        open_tab_post(s, path, contents, t, r1),
        open_tab_post(t, path, contents, u, r2),
    ensures
        u == t,
        r2 is Ok <==> r1 is Ok,
{
    if !s.contains(path) && contents is Some {
        assert(t.order()[t.order().len() - 1] == path);
        assert(t.contains(path));
    }
}

/// `next_editor` applied `k` times to index `i` among `n` tabs.
pub open spec fn next_times(i: int, n: int, k: nat) -> int
    decreases k,
{
    if k == 0 {
        i
    } else {
        next_index(next_times(i, n, (k - 1) as nat), n)
    }
}

proof fn lemma_next_times(i: int, n: int, k: nat)
    requires
        0 <= i < n,
        n > 1,
        k <= n,
    ensures
        next_times(i, n, k) == if i + k < n {
            i + k
        } else {
            i + k - n
        },
    decreases k,
{
    if k > 0 {
        lemma_next_times(i, n, (k - 1) as nat);
        let x = next_times(i, n, (k - 1) as nat);
        let y = if i + k < n { i + k } else { i + k - n };
        if x + 1 < n {
            assert((x + 1) % n == x + 1) by (nonlinear_arith)
                requires 0 <= x + 1 < n;
        } else {
            assert((x + 1) % n == 0) by (nonlinear_arith)
                requires x + 1 == n, n > 0;
        }
    }
}

/// With `n` tabs, `next_editor` applied `n` times comes back to the tab it
/// started from, and `prev_editor` after `next_editor` does too.
pub proof fn lemma_tab_rotation(i: int, n: int)
    requires
        0 <= i < n,
    ensures
        next_times(i, n, n as nat) == i,
        prev_index(next_index(i, n), n) == i,
{
    if n > 1 {
        lemma_next_times(i, n, n as nat);
        lemma_next_times(i, n, 1);
        assert(next_times(i, n, 0) == i);
        assert(next_times(i, n, 1) == next_index(i, n));
    } else {
        lemma_next_fixed(i, n, n as nat);
    }
}

proof fn lemma_next_fixed(i: int, n: int, k: nat)
    requires
        n <= 1,
    ensures
        next_times(i, n, k) == i,
    decreases k,
{
    if k > 0 {
        lemma_next_fixed(i, n, (k - 1) as nat);
    }
}

/// What `close_tab(index)` does to the registry `s`, giving `t` and the
/// result `r`: out of range it fails with `InvalidIndex` and changes
/// nothing; otherwise the tab is removed, the tab before it (or the last,
/// when the first was closed) becomes current and takes the closed tab's
/// focus if it had it, and every other editor stays as it was.
pub open spec fn close_post(s: EditorTab, index: int, t: EditorTab, r: Result<(), ClideError>) -> bool {
    &&& t.wf()
    &&& single_focus(s.editors@) ==> single_focus(t.editors@)
    &&& any_active(t.editors@) ==> any_active(s.editors@)
    &&& if index < 0 || index >= s.len() {
        r == Err::<(), ClideError>(ClideError::InvalidIndex) && t == s
    } else {
        let n = s.len() - 1;
        let rem = s.editors@.remove(index);
        let cur = index_after_close(index, n);
        &&& r is Ok
        &&& t.order() == s.order().remove(index)
        &&& t.current_editor == cur
        &&& t.editors@ == if s.editors@[index].component_state.focus == Focus::Active && n > 0 {
            rem.update(cur, with_focus(rem[cur], Focus::Active))
        } else {
            rem
        }
    }
}

/// Alt with h or left.
pub open spec fn is_prev_key(k: KeyEvent) -> bool {
    k.modifiers.is_alt() && (k.code == KeyCode::Char('h') || k.code == KeyCode::Left)
}

/// Alt with l or right.
pub open spec fn is_next_key(k: KeyEvent) -> bool {
    k.modifiers.is_alt() && (k.code == KeyCode::Char('l') || k.code == KeyCode::Right)
}

/// An event that switches tabs.
pub open spec fn is_switch_event(event: Event) -> bool {
    match event {
        Event::Key(k) => is_prev_key(k) || is_next_key(k),
        _ => false,
    }
}

/// `t` is `s` with the current tab moved to `to`, its focus moving along;
/// nothing changes with fewer than two tabs.
pub open spec fn rotated(s: EditorTab, t: EditorTab, to: int) -> bool {
    &&& t.tab_order == s.tab_order
    &&& t.current_editor == to
    &&& t.editors@ == if s.len() <= 1 {
        s.editors@
    } else {
        move_focus(s.editors@, s.current_editor as int, to)
    }
}

/// `handle_key_events(key)` takes the registry `s` to `t` and returns `r`.
pub open spec fn tab_key_step(s: EditorTab, key: KeyEvent, t: EditorTab, r: Action) -> bool {
    &&& t.wf()
    &&& single_focus(s.editors@) ==> single_focus(t.editors@)
    &&& any_active(t.editors@) ==> any_active(s.editors@)
    &&& if is_prev_key(key) {
        r == Action::Handled && rotated(s, t, prev_index(s.current_editor as int, s.len() as int))
    } else if is_next_key(key) {
        r == Action::Handled && rotated(s, t, next_index(s.current_editor as int, s.len() as int))
    } else {
        r == Action::Noop && t == s
    }
}

/// `handle_event(event)` takes the registry `s` to `t` and returns `r`: tab
/// switching as `handle_key_events` does it; otherwise, with a tab open,
/// `Save` for Control+S and `Pass` (for the editing engine) for the rest,
/// and `Noop` without tabs.
pub open spec fn tab_event_step(s: EditorTab, event: Event, t: EditorTab, r: Action) -> bool {
    if is_switch_event(event) {
        event matches Event::Key(k) && tab_key_step(s, k, t, r)
    } else {
        &&& t == s
        &&& r == if s.len() == 0 {
            Action::Noop
        } else if event matches Event::Key(k) && k.code == KeyCode::Char('s')
            && k.modifiers.is_control() {
            Action::Save
        } else {
            Action::Pass
        }
    }
}

/// The open editors, one per tab, in tab order, with the index of the
/// current tab.
pub struct EditorTab {
    pub editors: Vec<Editor>,
    pub tab_order: Vec<String>,
    pub current_editor: usize,
}

impl EditorTab {
    /// The paths of the open tabs, in order.
    pub open spec fn order(&self) -> Seq<Seq<char>> {
        views(self.tab_order@)
    }

    pub open spec fn len(&self) -> nat {
        self.tab_order@.len()
    }

    /// Whether a tab for `p` is open.
    pub open spec fn contains(&self, p: Seq<char>) -> bool {
        self.order().contains(p)
    }

    /// One editor per path, the paths without duplicates, and the current
    /// index in range whenever a tab is open.
    pub open spec fn wf(&self) -> bool {
        &&& self.editors@.len() == self.tab_order@.len()
        &&& forall|i: int|
            0 <= i < self.editors@.len() ==> #[trigger] self.editors@[i].has_path(
                self.tab_order@[i]@,
            )
        &&& forall|i: int, j: int|
            0 <= i < j < self.tab_order@.len() ==> #[trigger] self.tab_order@[i]@
                != #[trigger] self.tab_order@[j]@
        &&& if self.tab_order@.len() == 0 {
            self.current_editor == 0
        } else {
            self.current_editor < self.tab_order@.len()
        }
    }

    /// No tabs.
    pub fn new() -> (r: EditorTab)
        ensures
            r.wf(),
            r.len() == 0,
            r.editors@.len() == 0,
    {
        EditorTab { editors: Vec::new(), tab_order: Vec::new(), current_editor: 0 }
    }

    pub fn is_empty(&self) -> (r: bool)
        requires
            self.wf(),
        ensures
            r == (self.len() == 0),
    {
        self.editors.len() == 0
    }

    pub fn current_index(&self) -> (r: usize)
        ensures
            r == self.current_editor,
    {
        self.current_editor
    }

    fn set_editor_focus(&mut self, i: usize, focus: Focus)
        requires
            i < old(self).editors@.len(),
        ensures
            final(self).editors@ == old(self).editors@.update(
                i as int,
                with_focus(old(self).editors@[i as int], focus),
            ),
            final(self).tab_order == old(self).tab_order,
            final(self).current_editor == old(self).current_editor,
    {
        let mut e = self.editors.remove(i);
        e.component_state.focus = focus;
        self.editors.insert(i, e);
        assert(self.editors@ =~= old(self).editors@.update(
            i as int,
            with_focus(old(self).editors@[i as int], focus),
        ));
    }

    /// Moves to the next tab, wrapping after the last; the current tab's
    /// focus moves along. No change with fewer than two tabs.
    pub fn next_editor(&mut self)
        requires
            old(self).wf(),
        ensures
            single_focus(old(self).editors@) ==> single_focus(final(self).editors@),
            any_active(final(self).editors@) ==> any_active(old(self).editors@),
            final(self).wf(),
            final(self).tab_order == old(self).tab_order,
            final(self).current_editor == next_index(
                old(self).current_editor as int,
                old(self).len() as int,
            ),
            final(self).editors@ == if old(self).len() <= 1 {
                old(self).editors@
            } else {
                move_focus(
                    old(self).editors@,
                    old(self).current_editor as int,
                    final(self).current_editor as int,
                )
            },
    {
        let n = self.tab_order.len();
        if n <= 1 {
            return;
        }
        let cur = self.current_editor;
        let next = (cur + 1) % n;
        self.move_current_focus(next);
        proof {
            if cur + 1 < n {
                assert(((cur + 1) as int) % (n as int) == (cur + 1) as int) by (nonlinear_arith)
                    requires (cur + 1) < n;
            } else {
                assert(((cur + 1) as int) % (n as int) == 0) by (nonlinear_arith)
                    requires (cur + 1) as int == n as int, n > 1;
            }
            lemma_move_focus(old(self).editors@, cur as int, next as int);
        }
    }

    /// Moves to the previous tab, wrapping before the first; the current
    /// tab's focus moves along. No change with fewer than two tabs.
    pub fn prev_editor(&mut self)
        requires
            old(self).wf(),
        ensures
            single_focus(old(self).editors@) ==> single_focus(final(self).editors@),
            any_active(final(self).editors@) ==> any_active(old(self).editors@),
            final(self).wf(),
            final(self).tab_order == old(self).tab_order,
            final(self).current_editor == prev_index(
                old(self).current_editor as int,
                old(self).len() as int,
            ),
            final(self).editors@ == if old(self).len() <= 1 {
                old(self).editors@
            } else {
                move_focus(
                    old(self).editors@,
                    old(self).current_editor as int,
                    final(self).current_editor as int,
                )
            },
    {
        let n = self.tab_order.len();
        if n <= 1 {
            return;
        }
        let cur = self.current_editor;
        let prev = if cur == 0 {
            n - 1
        } else {
            cur - 1
        };
        self.move_current_focus(prev);
        proof {
            lemma_move_focus(old(self).editors@, cur as int, prev as int);
        }
    }

    fn move_current_focus(&mut self, to: usize)
        requires
            old(self).wf(),
            old(self).len() > 0,
            to < old(self).len(),
        ensures
            final(self).wf(),
            final(self).tab_order == old(self).tab_order,
            final(self).current_editor == to,
            final(self).editors@ == move_focus(
                old(self).editors@,
                old(self).current_editor as int,
                to as int,
            ),
    {
        let cur = self.current_editor;
        let f = self.editors[cur].component_state.focus;
        self.set_editor_focus(cur, Focus::Inactive);
        self.set_editor_focus(to, f);
        self.current_editor = to;
        assert forall|i: int| 0 <= i < self.editors@.len() implies #[trigger] self.editors@[i].has_path(
            self.tab_order@[i]@,
        ) by {
            assert(old(self).editors@[i].has_path(self.tab_order@[i]@));
        }
    }

    /// The path of tab `index`, if there is one.
    pub fn get_editor_key(&self, index: usize) -> (r: Option<String>)
        requires
            self.wf(),
        ensures
            index < self.len() ==> (r matches Some(k) && k@ == self.order()[index as int]),
            index >= self.len() ==> r is None,
    {
        if index < self.tab_order.len() {
            Some(self.tab_order[index].clone())
        } else {
            None
        }
    }

    /// The editor of the current tab; none when no tab is open.
    pub fn current_editor(&self) -> (r: Option<&Editor>)
        requires
            self.wf(),
        ensures
            self.len() == 0 ==> r is None,
            self.len() > 0 ==> (r matches Some(e) && *e == self.editors@[self.current_editor as int]),
    {
        if self.editors.len() == 0 {
            None
        } else {
            Some(&self.editors[self.current_editor])
        }
    }

    /// The index of the tab for `path`, if one is open.
    pub fn find(&self, path: &str) -> (r: Option<usize>)
        requires
            self.wf(),
        ensures
            r matches Some(i) ==> i < self.len() && self.order()[i as int] == path@,
            r is None ==> !self.contains(path@),
    {
        let p = path.to_owned();
        let mut i: usize = 0;
        while i < self.tab_order.len()
            invariant
                i <= self.tab_order@.len(),
                p@ == path@,
                forall|j: int| 0 <= j < i ==> self.tab_order@[j]@ != path@,
            decreases self.tab_order@.len() - i,
        {
            if self.tab_order[i] == p {
                return Some(i);
            }
            i = i + 1;
        }
        proof {
            if self.contains(path@) {
                let j = choose|j: int| 0 <= j < self.order().len() && self.order()[j] == path@;
                assert(self.tab_order@[j]@ == path@);
            }
        }
        None
    }

    /// Opens a tab for `path` whose file read as `contents` (`None` when the
    /// read failed) and makes it current. A path that is open already leaves
    /// everything as it was; a failed read fails with `Io` and changes nothing.
    pub fn open_tab(&mut self, path: &str, contents: Option<&str>) -> (r: Result<(), ClideError>)
        requires
            old(self).wf(),
        ensures
            final(self).wf(),
            open_tab_post(*old(self), path@, str_view(contents), *final(self), r),
    {
        match self.find(path) {
            Some(_) => Ok(()),
            None => match contents {
                None => Err(ClideError::Io),
                Some(text) => {
                    let mut editor = Editor::new(path);
                    editor.set_contents(path, text);
                    let ghost old_order = self.order();
                    self.tab_order.push(path.to_owned());
                    self.editors.push(editor);
                    self.current_editor = self.tab_order.len() - 1;
                    proof {
                        assert(self.order() =~= old_order.push(path@));
                        assert(self.editors@.drop_last() =~= old(self).editors@);
                        assert forall|i: int, j: int|
                            0 <= i < j < self.tab_order@.len() implies #[trigger] self.tab_order@[i]@
                            != #[trigger] self.tab_order@[j]@ by {
                            if j == self.tab_order@.len() - 1 {
                                assert(old_order[i] == self.tab_order@[i]@);
                            }
                        }
                    }
                    Ok(())
                },
            },
        }
    }

    /// Closes tab `index`; the tab before it becomes current, or the last
    /// tab when the first was closed. If the closed tab had focus, the new
    /// current tab takes it. Fails with `InvalidIndex` out of range.
    pub fn close_tab(&mut self, index: usize) -> (r: Result<(), ClideError>)
        requires
            old(self).wf(),
        ensures
            close_post(*old(self), index as int, *final(self), r),
    {
        if index >= self.tab_order.len() {
            return Err(ClideError::InvalidIndex);
        }
        let ghost old_order = self.order();
        let closed = self.editors.remove(index);
        let _ = self.tab_order.remove(index);
        let n = self.tab_order.len();
        let cur = if n == 0 {
            0
        } else if index == 0 {
            n - 1
        } else {
            index - 1
        };
        self.current_editor = cur;
        proof {
            assert(self.order() =~= old_order.remove(index as int));
            assert forall|i: int| 0 <= i < self.editors@.len() implies #[trigger] self.editors@[i].has_path(
                self.tab_order@[i]@,
            ) by {
                if i < index {
                    assert(old(self).editors@[i].has_path(old(self).tab_order@[i]@));
                } else {
                    assert(old(self).editors@[i + 1].has_path(old(self).tab_order@[i + 1]@));
                }
            }
            assert forall|i: int, j: int|
                0 <= i < j < self.tab_order@.len() implies #[trigger] self.tab_order@[i]@
                != #[trigger] self.tab_order@[j]@ by {
                let oi = if i < index { i } else { i + 1 };
                let oj = if j < index { j } else { j + 1 };
                assert(old(self).tab_order@[oi]@ != old(self).tab_order@[oj]@);
            }
        }
        proof {
            lemma_close_focus(old(self).editors@, index as int, cur as int);
        }
        if closed.component_state.focus == Focus::Active && n > 0 {
            self.set_editor_focus(cur, Focus::Active);
            assert forall|i: int| 0 <= i < self.editors@.len() implies #[trigger] self.editors@[i].has_path(
                self.tab_order@[i]@,
            ) by {
                if i < index {
                    assert(old(self).editors@[i].has_path(old(self).tab_order@[i]@));
                } else {
                    assert(old(self).editors@[i + 1].has_path(old(self).tab_order@[i + 1]@));
                }
            }
        }
        Ok(())
    }

    /// Closes the current tab, as `close_tab` does.
    pub fn close_current_tab(&mut self) -> (r: Result<(), ClideError>)
        requires
            old(self).wf(),
        ensures
            close_post(*old(self), old(self).current_editor as int, *final(self), r),
    {
        let index = self.current_editor;
        self.close_tab(index)
    }

    /// Sets the focus of tab `index`; making it active makes every other tab
    /// inactive. An index out of range changes nothing.
    pub fn set_tab_focus(&mut self, focus: Focus, index: usize)
        requires
            old(self).wf(),
        ensures
            final(self).wf(),
            final(self).tab_order == old(self).tab_order,
            final(self).current_editor == old(self).current_editor,
            final(self).editors@.len() == old(self).editors@.len(),
            index >= old(self).len() ==> final(self).editors@ == old(self).editors@,
            index < old(self).len() ==> forall|i: int|
                0 <= i < old(self).editors@.len() ==> #[trigger] final(self).editors@[i] == if i
                    == index {
                    with_focus(old(self).editors@[i], focus)
                } else if focus == Focus::Active {
                    with_focus(old(self).editors@[i], Focus::Inactive)
                } else {
                    old(self).editors@[i]
                },
    {
        if index >= self.editors.len() {
            return;
        }
        let n = self.editors.len();
        let mut i: usize = 0;
        while i < n
            invariant
                n == self.editors@.len(),
                n == old(self).editors@.len(),
                index < n,
                i <= n,
                self.tab_order == old(self).tab_order,
                self.current_editor == old(self).current_editor,
                forall|j: int|
                    0 <= j < n ==> #[trigger] self.editors@[j] == if j >= i {
                        old(self).editors@[j]
                    } else if j == index {
                        with_focus(old(self).editors@[j], focus)
                    } else if focus == Focus::Active {
                        with_focus(old(self).editors@[j], Focus::Inactive)
                    } else {
                        old(self).editors@[j]
                    },
            decreases n - i,
        {
            if i == index {
                self.set_editor_focus(i, focus);
            } else if focus == Focus::Active {
                self.set_editor_focus(i, Focus::Inactive);
            }
            i = i + 1;
        }
        assert forall|i: int| 0 <= i < self.editors@.len() implies #[trigger] self.editors@[i].has_path(
            self.tab_order@[i]@,
        ) by {
            assert(old(self).editors@[i].has_path(self.tab_order@[i]@));
        }
    }

    /// Sets the focus of the current tab, as `set_tab_focus` does.
    pub fn set_current_tab_focus(&mut self, focus: Focus)
        requires
            old(self).wf(),
        ensures
            final(self).wf(),
            final(self).tab_order == old(self).tab_order,
            final(self).current_editor == old(self).current_editor,
            final(self).editors@.len() == old(self).editors@.len(),
            old(self).len() == 0 ==> final(self).editors@ == old(self).editors@,
            old(self).len() > 0 ==> forall|i: int|
                0 <= i < old(self).editors@.len() ==> #[trigger] final(self).editors@[i] == if i
                    == old(self).current_editor {
                    with_focus(old(self).editors@[i], focus)
                } else if focus == Focus::Active {
                    with_focus(old(self).editors@[i], Focus::Inactive)
                } else {
                    old(self).editors@[i]
                },
    {
        let index = self.current_editor;
        self.set_tab_focus(focus, index);
    }

    /// Makes every tab inactive.
    pub fn clear_focus(&mut self)
        requires
            old(self).wf(),
        ensures
            final(self).wf(),
            final(self).tab_order == old(self).tab_order,
            final(self).current_editor == old(self).current_editor,
            final(self).editors@.len() == old(self).editors@.len(),
            forall|i: int|
                0 <= i < old(self).editors@.len() ==> #[trigger] final(self).editors@[i] == with_focus(
                    old(self).editors@[i],
                    Focus::Inactive,
                ),
    {
        let n = self.editors.len();
        let mut i: usize = 0;
        while i < n
            invariant
                n == self.editors@.len(),
                n == old(self).editors@.len(),
                i <= n,
                self.tab_order == old(self).tab_order,
                self.current_editor == old(self).current_editor,
                forall|j: int|
                    0 <= j < n ==> #[trigger] self.editors@[j] == if j >= i {
                        old(self).editors@[j]
                    } else {
                        with_focus(old(self).editors@[j], Focus::Inactive)
                    },
            decreases n - i,
        {
            self.set_editor_focus(i, Focus::Inactive);
            i = i + 1;
        }
        assert forall|i: int| 0 <= i < self.editors@.len() implies #[trigger] self.editors@[i].has_path(
            self.tab_order@[i]@,
        ) by {
            assert(old(self).editors@[i].has_path(self.tab_order@[i]@));
        }
    }

    /// Alt with h or left moves to the previous tab, Alt with l or right to
    /// the next; other keys are not handled here.
    pub fn handle_key_events(&mut self, key: KeyEvent) -> (r: Action)
        requires
            old(self).wf(),
        ensures
            tab_key_step(*old(self), key, *final(self), r),
    {
        if key.modifiers.only_alt() {
            match key.code {
                KeyCode::Char('h') | KeyCode::Left => {
                    self.prev_editor();
                    return Action::Handled;
                },
                KeyCode::Char('l') | KeyCode::Right => {
                    self.next_editor();
                    return Action::Handled;
                },
                _ => {},
            }
        }
        Action::Noop
    }

    /// Tab switching first; then the current editor's own handling, `Noop`
    /// when no tab is open.
    pub fn handle_event(&mut self, event: Event) -> (r: Action)
        requires
            old(self).wf(),
        ensures
            tab_event_step(*old(self), event, *final(self), r),
    {
        match event {
            Event::Key(k) => {
                let a = self.handle_key_events(k);
                if a == Action::Handled {
                    return a;
                }
            },
            _ => {},
        }
        match self.current_editor() {
            Some(editor) => editor.handle_event(event),
            None => Action::Noop,
        }
    }

    /// Replaces the current editor's buffer with `contents`, freshly read
    /// from its path (see `Editor::reload_contents`); fails with
    /// `InvalidIndex` when no tab is open.
    pub fn reload_current(&mut self, contents: &str) -> (r: Result<(), ClideError>)
        requires
            old(self).wf(),
        ensures
            final(self).wf(),
            final(self).tab_order == old(self).tab_order,
            final(self).current_editor == old(self).current_editor,
            final(self).editors@.len() == old(self).editors@.len(),
            old(self).len() == 0 ==> r == Err::<(), ClideError>(ClideError::InvalidIndex)
                && *final(self) == *old(self),
            old(self).len() > 0 ==> {
                let i = old(self).current_editor as int;
                let e = old(self).editors@[i];
                let f = final(self).editors@[i];
                &&& forall|j: int|
                    0 <= j < old(self).editors@.len() && j != i ==> #[trigger] final(self).editors@[j]
                    == old(self).editors@[j]
                &&& e.file_path is None ==> r == Err::<(), ClideError>(ClideError::NoFilePath)
                    && f == e
                &&& e.file_path is Some ==> r is Ok && f.file_path == e.file_path
                    && f.component_state == e.component_state && editor_lines(f.state) == lines_of(
                    contents@,
                ) && editor_cursor(f.state) == (0nat, 0nat)
            },
            r is Err ==> *final(self) == *old(self),
            single_focus(old(self).editors@) ==> single_focus(final(self).editors@),
            any_active(final(self).editors@) ==> any_active(old(self).editors@),
    {
        if self.editors.len() == 0 {
            return Err(ClideError::InvalidIndex);
        }
        let i = self.current_editor;
        if self.editors[i].file_path.is_none() {
            return Err(ClideError::NoFilePath);
        }
        let mut e = self.editors.remove(i);
        let ghost e0 = e;
        assert(e0 == old(self).editors@[i as int]);
        let r = e.reload_contents(contents);
        let ghost e1 = e;
        self.editors.insert(i, e);
        proof {
            assert(self.editors@[i as int] == e1);
            assert forall|j: int|
                0 <= j < old(self).editors@.len() && j != i implies #[trigger] self.editors@[j]
                == old(self).editors@[j] by {}
            assert forall|j: int| 0 <= j < self.editors@.len() implies #[trigger] self.editors@[j].has_path(
                self.tab_order@[j]@,
            ) by {
                assert(old(self).editors@[j].has_path(self.tab_order@[j]@));
            }
            assert forall|a: int| 0 <= a < self.editors@.len() implies #[trigger] active_at(self.editors@, a) == active_at(old(self).editors@, a) by {}
            if any_active(self.editors@) {
                let a = choose|a: int| 0 <= a < self.editors@.len() && #[trigger] active_at(self.editors@, a);
                assert(active_at(old(self).editors@, a));
            }
        }
        r
    }
}

} // verus!
