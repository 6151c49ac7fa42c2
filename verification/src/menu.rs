//! The menu tree: an immutable-after-construction hierarchy of sections and
//! leaf items, plus pure navigation operations that compute a new cursor
//! position from the current one. Leaf items carry a tagged action that the
//! controller dispatches when the leaf is entered.
use vstd::prelude::*;
use crate::job::{CommandSpec, SlotId, SpawnRequest};
use crate::model::{action_applied, Model};
use crate::prompt::SubmitRule;
use crate::util::{copy_vec, eq_indices, eq_opt_usize};

verus! {

/// What entering a leaf item does to the dashboard: a small fixed set of
/// inspectable operations in place of an arbitrary callback.
#[derive(Debug)]
pub enum Action {
    /// A placeholder leaf that changes nothing.
    Noop,
    /// Open a modal prompt with this title, secrecy flag and submit rule.
    OpenPrompt { title: String, secret: bool, rule: SubmitRule },
    /// Start this external command in the given job slot.
    StartJob { slot: SlotId, command: CommandSpec },
}

/// One node of the menu tree. Every node except the synthetic root records
/// its parent; a section lists the indices of its children in order.
#[derive(Debug)]
pub enum MenuItem {
    Section { title: String, children: Vec<usize>, parent: Option<usize> },
    Item { title: String, action: Action, parent: Option<usize> },
}

impl MenuItem {
    /// The recorded parent index, if any.
    pub open spec fn parent_spec(&self) -> Option<usize> {
        match self {
            MenuItem::Section { parent, .. } => *parent,
            MenuItem::Item { parent, .. } => *parent,
        }
    }

    /// The recorded parent index, if any.
    pub fn parent(&self) -> (r: Option<usize>)
        ensures
            r == self.parent_spec(),
    {
        match self {
            MenuItem::Section { parent, .. } => *parent,
            MenuItem::Item { parent, .. } => *parent,
        }
    }

    /// The node's child indices: a section's listed children, nothing for a
    /// leaf item.
    pub open spec fn items_spec(&self) -> Seq<usize> {
        match self {
            MenuItem::Section { children, .. } => children@,
            MenuItem::Item { .. } => Seq::empty(),
        }
    }

    /// The node's child indices: a section's listed children, nothing for a
    /// leaf item.
    pub fn items(&self) -> (r: Vec<usize>)
        ensures
            r@ == self.items_spec(),
    {
        match self {
            MenuItem::Section { children, .. } => copy_vec(children),
            MenuItem::Item { .. } => Vec::new(),
        }
    }

    /// The node's display title.
    pub open spec fn title_spec(&self) -> Seq<char> {
        match self {
            MenuItem::Section { title, .. } => title@,
            MenuItem::Item { title, .. } => title@,
        }
    }

    /// The node's display title.
    pub fn title(&self) -> (r: String)
        ensures
            r@ == self.title_spec(),
    {
        match self {
            MenuItem::Section { title, .. } => title.clone(),
            MenuItem::Item { title, .. } => title.clone(),
        }
    }
}

impl PartialEq for MenuItem {
    /// Two nodes are equal as menu entries: same kind, title, parent and,
    /// for sections, the same child list. A leaf's action takes no part:
    /// what an entry does has no equality of its own.
    fn eq(&self, other: &Self) -> bool {
        match (self, other) {
            (
                MenuItem::Section { title: lt, children: lc, parent: lp },
                MenuItem::Section { title: rt, children: rc, parent: rp },
            ) => *lt == *rt && eq_indices(lc, rc) && eq_opt_usize(*lp, *rp),
            (
                MenuItem::Item { title: lt, parent: lp, .. },
                MenuItem::Item { title: rt, parent: rp, .. },
            ) => *lt == *rt && eq_opt_usize(*lp, *rp),
            _ => false,
        }
    }
}

impl vstd::std_specs::cmp::PartialEqSpecImpl for MenuItem {
    open spec fn obeys_eq_spec() -> bool {
        true
    }

    open spec fn eq_spec(&self, other: &Self) -> bool {
        match (self, other) {
            (
                MenuItem::Section { title: lt, children: lc, parent: lp },
                MenuItem::Section { title: rt, children: rc, parent: rp },
            ) => lt@ == rt@ && lc@ == rc@ && lp == rp,
            (
                MenuItem::Item { title: lt, parent: lp, .. },
                MenuItem::Item { title: rt, parent: rp, .. },
            ) => lt@ == rt@ && lp == rp,
            _ => false,
        }
    }
}

/// A parent link is consistent: it points backwards to an earlier section
/// whose child list mentions this node.
pub open spec fn wf_parent(nodes: Seq<MenuItem>, i: int) -> bool {
    match nodes[i].parent_spec() {
        Some(p) => {
            &&& p < i
            &&& nodes[p as int] is Section
            &&& nodes[p as int].items_spec().contains(i as usize)
        },
        None => true,
    }
}

/// The `j`-th listed child of node `i` lies further along the vector and
/// records `i` as its parent.
pub open spec fn wf_child_at(nodes: Seq<MenuItem>, i: int, j: int) -> bool {
    let c = nodes[i].items_spec()[j];
    &&& i < c < nodes.len()
    &&& nodes[c as int].parent_spec() == Some(i as usize)
}

/// A node's child list mentions no index twice and every entry points back.
pub open spec fn wf_children(nodes: Seq<MenuItem>, i: int) -> bool {
    &&& nodes[i].items_spec().no_duplicates()
    &&& forall|j: int|
        0 <= j < nodes[i].items_spec().len() ==> #[trigger] wf_child_at(nodes, i, j)
}

/// The tree invariant the builder maintains: every parent link and every
/// child list is consistent, so the graph is a forest with parents before
/// children.
pub open spec fn wf_nodes(nodes: Seq<MenuItem>) -> bool {
    &&& forall|i: int| 0 <= i < nodes.len() ==> #[trigger] wf_parent(nodes, i)
    &&& forall|i: int| 0 <= i < nodes.len() ==> #[trigger] wf_children(nodes, i)
}

/// The position of `x` in a child list (unique when the list has no
/// duplicates).
pub open spec fn sib_pos(items: Seq<usize>, x: usize) -> int {
    choose|j: int| 0 <= j < items.len() && items[j] == x
}

/// A section kept as it was but for one more child at the end of its list.
pub open spec fn sec_extended(a: MenuItem, b: MenuItem, c: usize) -> bool {
    &&& a is Section
    &&& b is Section
    &&& b.title_spec() == a.title_spec()
    &&& b.parent_spec() == a.parent_spec()
    &&& b.items_spec() == a.items_spec().push(c)
}

/// One builder step: node `r` was appended and, when a parent was named,
/// exactly that parent's child list grew by `r`; every other node is
/// untouched.
pub open spec fn extended(pre: Seq<MenuItem>, post: Seq<MenuItem>, p: Option<usize>, r: usize) -> bool {
    &&& r == pre.len()
    &&& post.len() == pre.len() + 1
    &&& match p {
        Some(q) => {
            &&& q < pre.len()
            &&& forall|i: int| 0 <= i < pre.len() && i != q ==> post[i] == pre[i]
            &&& sec_extended(pre[q as int], post[q as int], r)
        },
        None => forall|i: int| 0 <= i < pre.len() ==> post[i] == pre[i],
    }
}

/// The menu: all nodes in construction order, children always after their
/// parents.
pub struct Menu(pub Vec<MenuItem>);

/// What one frame draws of the open menu: the visible section's title, its
/// children's titles, which of them are sections, and which one the cursor
/// highlights.
pub struct MenuView {
    pub title: String,
    pub entries: Vec<String>,
    pub sections: Vec<bool>,
    pub selected: usize,
}

impl Menu {
    /// The tree invariant, over the node vector.
    pub open spec fn wf(&self) -> bool {
        wf_nodes(self.0@)
    }

    /// A cursor may rest on this node: it exists and sits inside some
    /// section's child list (the synthetic root is never selectable).
    pub open spec fn selectable(&self, idx: usize) -> bool {
        &&& idx < self.0@.len()
        &&& self.0@[idx as int].parent_spec() is Some
    }

    /// The index of the selectable node's parent.
    pub open spec fn parent_of(&self, idx: usize) -> int {
        match self.0@[idx as int].parent_spec() {
            Some(p) => p as int,
            None => -1,
        }
    }

    /// The child list the node is navigated within: its parent's children.
    pub open spec fn siblings(&self, idx: usize) -> Seq<usize> {
        self.0@[self.parent_of(idx)].items_spec()
    }

    /// Where `up` lands: the previous sibling, or the node itself when it is
    /// already first (no wraparound).
    pub open spec fn up_spec(&self, idx: usize) -> usize {
        let items = self.siblings(idx);
        let j = sib_pos(items, idx);
        if j > 0 {
            items[j - 1]
        } else {
            idx
        }
    }

    /// Where `down` lands: the next sibling, or the node itself when it is
    /// already last (no wraparound).
    pub open spec fn down_spec(&self, idx: usize) -> usize {
        let items = self.siblings(idx);
        let j = sib_pos(items, idx);
        if j + 1 < items.len() {
            items[j + 1]
        } else {
            idx
        }
    }

    /// Where `enter` lands: a section's first child (or the section itself
    /// when childless); a leaf item keeps the cursor.
    pub open spec fn enter_target_spec(&self, idx: usize) -> usize {
        match self.0@[idx as int] {
            MenuItem::Section { children, .. } => if children@.len() > 0 {
                children@[0]
            } else {
                idx
            },
            MenuItem::Item { .. } => idx,
        }
    }

    /// Where `back` lands: the node's parent, unless that parent is the
    /// synthetic root — then the cursor is already at the top-visible level
    /// and `back` yields nothing.
    pub open spec fn back_spec(&self, idx: usize) -> Option<usize> {
        match self.0@[idx as int].parent_spec() {
            Some(p) => if self.0@[p as int].parent_spec() is Some {
                Some(p)
            } else {
                None
            },
            None => None,
        }
    }

    /// Append a section node, linking it into the named parent's child list
    /// in the same step.
    pub fn with_section(&mut self, title: &str, p: Option<usize>) -> (r: usize)
        requires
            old(self).wf(),
            old(self).0@.len() < usize::MAX,
            p matches Some(q) ==> q < old(self).0@.len() && old(self).0@[q as int] is Section,
        ensures
            final(self).wf(),
            extended(old(self).0@, final(self).0@, p, r),
            final(self).0@[r as int] is Section,
            final(self).0@[r as int].title_spec() == title@,
            final(self).0@[r as int].items_spec() == Seq::<usize>::empty(),
            final(self).0@[r as int].parent_spec() == p,
    {
        let idx = self.0.len();
        self.0.push(MenuItem::Section { title: title.to_owned(), children: Vec::new(), parent: p });
        self.attach(idx, p);
        proof {
            lemma_wf_extend(old(self).0@, self.0@, p, idx);
        }
        idx
    }

    /// Append a leaf item carrying an action, linking it into the named
    /// parent's child list in the same step.
    pub fn with_item(&mut self, title: &str, action: Action, p: Option<usize>) -> (r: usize)
        requires
            old(self).wf(),
            old(self).0@.len() < usize::MAX,
            p matches Some(q) ==> q < old(self).0@.len() && old(self).0@[q as int] is Section,
        ensures
            final(self).wf(),
            extended(old(self).0@, final(self).0@, p, r),
            (final(self).0@[r as int] matches MenuItem::Item { title: t, action: a, parent: pp }
                && t@ == title@ && a == action && pp == p),
    {
        let idx = self.0.len();
        self.0.push(MenuItem::Item { title: title.to_owned(), action, parent: p });
        self.attach(idx, p);
        proof {
            lemma_wf_extend(old(self).0@, self.0@, p, idx);
        }
        idx
    }

    /// Record the freshly pushed node `idx` in its parent's child list.
    fn attach(&mut self, idx: usize, p: Option<usize>)
        requires
            old(self).0@.len() >= 1,
            idx == old(self).0@.len() - 1,
            p matches Some(q) ==> q < idx && old(self).0@[q as int] is Section,
        ensures
            final(self).0@.len() == old(self).0@.len(),
            final(self).0@[idx as int] == old(self).0@[idx as int],
            match p {
                Some(q) => {
                    &&& forall|i: int|
                        0 <= i < old(self).0@.len() && i != q ==> final(self).0@[i] == old(
                            self,
                        ).0@[i]
                    &&& sec_extended(old(self).0@[q as int], final(self).0@[q as int], idx)
                },
                None => final(self).0@ == old(self).0@,
            },
    {
        if let Some(q) = p {
            let (t, mut ch, par) = match &self.0[q] {
                MenuItem::Section { title, children, parent } => (
                    title.clone(),
                    copy_vec(children),
                    *parent,
                ),
                MenuItem::Item { .. } => unreached(),
            };
            ch.push(idx);
            self.0.set(q, MenuItem::Section { title: t, children: ch, parent: par });
        }
    }

    /// Move the cursor to the previous sibling; the first child stays put.
    pub fn up(&self, idx: usize) -> (r: usize)
        requires
            self.wf(),
            self.selectable(idx),
        ensures
            r == self.up_spec(idx),
            self.selectable(r),
    {
        let p = match self.0[idx].parent() {
            Some(p) => p,
            None => unreached(),
        };
        proof {
            assert(wf_parent(self.0@, idx as int));
            assert(wf_children(self.0@, p as int));
        }
        let items = self.0[p].items();
        let j = find_pos(&items, idx);
        if j > 0 {
            proof {
                assert(wf_child_at(self.0@, p as int, j - 1));
            }
            items[j - 1]
        } else {
            idx
        }
    }

    /// Move the cursor to the next sibling; the last child stays put.
    pub fn down(&self, idx: usize) -> (r: usize)
        requires
            self.wf(),
            self.selectable(idx),
        ensures
            r == self.down_spec(idx),
            self.selectable(r),
    {
        let p = match self.0[idx].parent() {
            Some(p) => p,
            None => unreached(),
        };
        proof {
            assert(wf_parent(self.0@, idx as int));
            assert(wf_children(self.0@, p as int));
        }
        let items = self.0[p].items();
        let n = items.len();
        let j = find_pos(&items, idx);
        if j + 1 < n {
            proof {
                assert(wf_child_at(self.0@, p as int, j + 1));
            }
            items[j + 1]
        } else {
            idx
        }
    }

    /// The least node index at or after `i` whose child list is non-empty,
    /// or -1 when there is none.
    pub open spec fn first_sec_from(nodes: Seq<MenuItem>, i: nat) -> int
        decreases nodes.len() - i,
    {
        if i >= nodes.len() {
            -1
        } else if nodes[i as int].items_spec().len() > 0 {
            i as int
        } else {
            Self::first_sec_from(nodes, i + 1)
        }
    }

    /// Some section of the menu has a child, so `first` has somewhere to go.
    pub open spec fn has_first(&self) -> bool {
        Self::first_sec_from(self.0@, 0) >= 0
    }

    /// Where `first` lands: the first child of the first section that has
    /// at least one child.
    pub open spec fn first_spec(&self) -> usize {
        self.0@[Self::first_sec_from(self.0@, 0)].items_spec()[0]
    }

    /// The initial cursor: the first child of the first section with
    /// children. Callers guarantee a non-empty tree.
    pub fn first(&self) -> (r: usize)
        requires
            self.wf(),
            self.has_first(),
        ensures
            r == self.first_spec(),
            self.selectable(r),
    {
        let n = self.0.len();
        let mut i: usize = 0;
        while i < n
            invariant
                self.wf(),
                self.has_first(),
                n == self.0@.len(),
                i <= n,
                Self::first_sec_from(self.0@, 0) == Self::first_sec_from(self.0@, i as nat),
            decreases n - i,
        {
            let items = self.0[i].items();
            if items.len() > 0 {
                proof {
                    assert(Self::first_sec_from(self.0@, i as nat) == i as int);
                    assert(wf_children(self.0@, i as int));
                    assert(wf_child_at(self.0@, i as int, 0));
                }
                return items[0];
            }
            proof {
                assert(Self::first_sec_from(self.0@, i as nat) == Self::first_sec_from(
                    self.0@,
                    (i + 1) as nat,
                ));
            }
            i = i + 1;
        }
        proof {
            assert(Self::first_sec_from(self.0@, i as nat) == -1);
            assert(false);
        }
        unreached()
    }

    /// Enter the node under the cursor: descend into a section's first
    /// child (staying put when it is childless), or dispatch a leaf item's
    /// action against the dashboard exactly once, keeping the cursor. The
    /// second component is the spawn request the action produced, if any.
    pub fn enter(&self, idx: usize, model: &mut Model) -> (r: (usize, Option<SpawnRequest>))
        requires
            self.wf(),
            idx < self.0@.len(),
            old(model).wf(),
        ensures
            final(model).wf(),
            final(model).menu == old(model).menu,
            r.0 == self.enter_target_spec(idx),
            match self.0@[idx as int] {
                MenuItem::Item { action: a, .. } => action_applied(*old(model), *final(model), a, r.1),
                MenuItem::Section { .. } => *final(model) == *old(model) && r.1 is None,
            },
            self.selectable(idx) ==> self.selectable(r.0),
    {
        match &self.0[idx] {
            MenuItem::Section { children, .. } => {
                if children.len() > 0 {
                    proof {
                        assert(wf_children(self.0@, idx as int));
                        assert(wf_child_at(self.0@, idx as int, 0));
                    }
                    (children[0], None)
                } else {
                    (idx, None)
                }
            },
            MenuItem::Item { action, .. } => {
                let spawn = model.apply_action(action);
                (idx, spawn)
            },
        }
    }

    /// Per-frame render data for the open menu: the visible section (the
    /// cursor's parent) by title, each of its children's title and kind in
    /// order, and the cursor's position among them.
    pub fn visible(&self, idx: usize) -> (r: MenuView)
        requires
            self.wf(),
            self.selectable(idx),
        ensures
            r.title@ == self.0@[self.parent_of(idx)].title_spec(),
            r.entries@.len() == self.siblings(idx).len(),
            r.sections@.len() == self.siblings(idx).len(),
            forall|j: int|
                0 <= j < self.siblings(idx).len() ==> r.entries@[j]@ == self.0@[#[trigger] self.siblings(idx)[j] as int].title_spec(),
            forall|j: int|
                0 <= j < self.siblings(idx).len() ==> r.sections@[j] == (self.0@[#[trigger] self.siblings(idx)[j] as int] is Section),
            r.selected as int == sib_pos(self.siblings(idx), idx),
            r.selected < self.siblings(idx).len(),
    {
        let p = match self.0[idx].parent() {
            Some(p) => p,
            None => unreached(),
        };
        proof {
            assert(wf_parent(self.0@, idx as int));
            assert(wf_children(self.0@, p as int));
        }
        let items = self.0[p].items();
        let title = self.0[p].title();
        let mut entries: Vec<String> = Vec::new();
        let mut sections: Vec<bool> = Vec::new();
        let n = items.len();
        for j in 0..n
            invariant
                self.wf(),
                p < self.0@.len(),
                n == items@.len(),
                items@ == self.siblings(idx),
                self.0@[p as int].items_spec() == items@,
                entries@.len() == j,
                sections@.len() == j,
                forall|t: int|
                    0 <= t < j ==> entries@[t]@ == self.0@[#[trigger] items@[t] as int].title_spec(),
                forall|t: int|
                    0 <= t < j ==> sections@[t] == (self.0@[#[trigger] items@[t] as int] is Section),
        {
            proof {
                assert(wf_children(self.0@, p as int));
                assert(wf_child_at(self.0@, p as int, j as int));
            }
            let c = items[j];
            entries.push(self.0[c].title());
            let is_sec = match &self.0[c] {
                MenuItem::Section { .. } => true,
                MenuItem::Item { .. } => false,
            };
            sections.push(is_sec);
        }
        let selected = find_pos(&items, idx);
        MenuView { title, entries, sections, selected }
    }

    /// Step up one visible level: to the parent, unless the parent is the
    /// synthetic root.
    pub fn back(&self, idx: usize) -> (r: Option<usize>)
        requires
            self.wf(),
            self.selectable(idx),
        ensures
            r == self.back_spec(idx),
            r matches Some(t) ==> self.selectable(t),
    {
        proof {
            assert(wf_parent(self.0@, idx as int));
        }
        match self.0[idx].parent() {
            Some(p) => {
                match self.0[p].parent() {
                    Some(_g) => Some(p),
                    None => None,
                }
            },
            None => None,
        }
    }
}

/// The exact tree `main_menu` builds: a synthetic root section holding
/// three sections, whose leaves are job placeholders and one prompt opener.
pub open spec fn main_menu_shape(m: Menu) -> bool {
    let nodes = m.0@;
    &&& nodes.len() == 8
    &&& (nodes[0] matches MenuItem::Section { title, children, parent } && title@ == "Jobs"@
        && children@ == seq![1usize, 3usize, 6usize] && parent is None)
    &&& (nodes[1] matches MenuItem::Section { title, children, parent } && title@
        == "Run (Server)"@ && children@ == seq![2usize] && parent == Some(0usize))
    &&& (nodes[2] matches MenuItem::Item { title, action, parent } && title@ == "Sites (bin)"@
        && action is Noop && parent == Some(1usize))
    &&& (nodes[3] matches MenuItem::Section { title, children, parent } && title@
        == "Build Frontend"@ && children@ == seq![4usize, 5usize] && parent == Some(0usize))
    &&& (nodes[4] matches MenuItem::Item { title, action, parent } && title@ == "Sites (wasm)"@
        && action is Noop && parent == Some(3usize))
    &&& (nodes[5] matches MenuItem::Item { title, action, parent } && title@
        == "Something (wasm+elm)"@ && action is Noop && parent == Some(3usize))
    &&& (nodes[6] matches MenuItem::Section { title, children, parent } && title@
        == "Configure iTask"@ && children@ == seq![7usize] && parent == Some(0usize))
    &&& (nodes[7] matches MenuItem::Item { title, action, parent } && title@ == "Set ENV"@
        && parent == Some(6usize) && (action matches Action::OpenPrompt {
        title: pt,
        secret,
        rule,
    } && pt@ == "Enter your Yubikey pin"@ && secret == true && (rule matches
    SubmitRule::RejectWith(msg) && msg@ == "Invalid pin"@)))
}

/// The dashboard's command menu: job launchers grouped under sections, and
/// a configuration leaf that opens a masked prompt whose submissions are
/// all rejected.
pub fn main_menu() -> (r: Menu)
    ensures
        r.wf(),
        main_menu_shape(r),
{
    let mut menu = Menu(Vec::new());
    let parent = menu.with_section("Jobs", None);
    let run = menu.with_section("Run (Server)", Some(parent));
    menu.with_item("Sites (bin)", Action::Noop, Some(run));
    let build = menu.with_section("Build Frontend", Some(parent));
    menu.with_item("Sites (wasm)", Action::Noop, Some(build));
    menu.with_item("Something (wasm+elm)", Action::Noop, Some(build));
    let conf = menu.with_section("Configure iTask", Some(parent));
    menu.with_item(
        "Set ENV",
        Action::OpenPrompt {
            title: "Enter your Yubikey pin".to_owned(),
            secret: true,
            rule: SubmitRule::RejectWith("Invalid pin".to_owned()),
        },
        Some(conf),
    );
    proof {
        assert(menu.0@[0].items_spec() =~= seq![1usize, 3usize, 6usize]);
        assert(menu.0@[1].items_spec() =~= seq![2usize]);
        assert(menu.0@[3].items_spec() =~= seq![4usize, 5usize]);
        assert(menu.0@[6].items_spec() =~= seq![7usize]);
    }
    menu
}

/// The index of `x` in a duplicate-free list that contains it.
fn find_pos(items: &Vec<usize>, x: usize) -> (r: usize)
    requires
        items@.contains(x),
        items@.no_duplicates(),
    ensures
        r < items@.len(),
        items@[r as int] == x,
        r as int == sib_pos(items@, x),
{
    let n = items.len();
    let mut j: usize = 0;
    while j < n && items[j] != x
        invariant
            n == items@.len(),
            j <= n,
            forall|t: int| 0 <= t < j ==> items@[t] != x,
            items@.contains(x),
        decreases n - j,
    {
        j = j + 1;
    }
    proof {
        if j == items@.len() {
            let w = choose|w: int| 0 <= w < items@.len() && items@[w] == x;
            assert(items@[w] != x);
        }
        lemma_sib_pos(items@, x, j as int);
    }
    j
}

/// In a duplicate-free list, `sib_pos` is the one index holding `x`.
proof fn lemma_sib_pos(items: Seq<usize>, x: usize, j: int)
    requires
        items.no_duplicates(),
        0 <= j < items.len(),
        items[j] == x,
    ensures
        sib_pos(items, x) == j,
{
    let s = sib_pos(items, x);
    assert(0 <= s < items.len() && items[s] == x) by {
        assert(items[j] == x);
    }
    if s != j {
        assert(items[s] == items[j]);
    }
}

/// Moving within a section's child list does not wrap: with children
/// `[a, b, c]`, `down` steps a to b and b to c but leaves c in place, and
/// `up` leaves the first child in place.
pub proof fn lemma_up_down_no_wrap(m: Menu, s: usize, a: usize, b: usize, c: usize)
    requires
        m.wf(),
        s < m.0@.len(),
        m.0@[s as int].items_spec() == seq![a, b, c],
    ensures
        m.down_spec(a) == b,
        m.down_spec(b) == c,
        m.down_spec(c) == c,
        m.up_spec(a) == a,
{
    let nodes = m.0@;
    let items = seq![a, b, c];
    assert(wf_children(nodes, s as int));
    assert(wf_child_at(nodes, s as int, 0));
    assert(wf_child_at(nodes, s as int, 1));
    assert(wf_child_at(nodes, s as int, 2));
    assert(nodes[a as int].parent_spec() == Some(s));
    assert(nodes[b as int].parent_spec() == Some(s));
    assert(nodes[c as int].parent_spec() == Some(s));
    lemma_sib_pos(items, a, 0);
    lemma_sib_pos(items, b, 1);
    lemma_sib_pos(items, c, 2);
}

/// Entering a section with children lands on its first child; a childless
/// section keeps the cursor, and so does a leaf item (whose action is
/// dispatched exactly once, as `enter`'s own contract states).
pub proof fn lemma_enter_target(m: Menu, idx: usize)
    requires
        m.wf(),
        idx < m.0@.len(),
    ensures
        m.0@[idx as int] matches MenuItem::Section { children, .. } ==> m.enter_target_spec(idx)
            == (if children@.len() > 0 {
            children@[0]
        } else {
            idx
        }),
        m.0@[idx as int] is Item ==> m.enter_target_spec(idx) == idx,
{
}

/// Round trip through one level: entering a section that has children and
/// stepping back returns to that very section, a node with the same parent
/// as the start.
pub proof fn lemma_back_after_enter(m: Menu, s: usize)
    requires
        m.wf(),
        s < m.0@.len(),
        m.0@[s as int] is Section,
        m.0@[s as int].parent_spec() is Some,
        m.0@[s as int].items_spec().len() > 0,
    ensures
        m.back_spec(m.enter_target_spec(s)) == Some(s),
{
    let nodes = m.0@;
    assert(wf_children(nodes, s as int));
    assert(wf_child_at(nodes, s as int, 0));
}

/// Appending a fresh childless node, and listing it in its named parent,
/// preserves the tree invariant.
proof fn lemma_wf_extend(pre: Seq<MenuItem>, post: Seq<MenuItem>, p: Option<usize>, r: usize)
    requires
        wf_nodes(pre),
        extended(pre, post, p, r),
        post[r as int].parent_spec() == p,
        post[r as int].items_spec() == Seq::<usize>::empty(),
    ensures
        wf_nodes(post),
{
    let q: int = match p {
        Some(q) => q as int,
        None => -1,
    };
    assert forall|i: int| 0 <= i < post.len() implies #[trigger] wf_parent(post, i) by {
        if i == r {
            if p is Some {
                assert(wf_children(pre, q));
                assert(post[q].items_spec() == pre[q].items_spec().push(r));
                assert(post[q].items_spec()[pre[q].items_spec().len() as int] == r);
                assert(post[q].items_spec().contains(r));
            }
        } else {
            assert(wf_parent(pre, i));
            assert(post[i].parent_spec() == pre[i].parent_spec());
            match pre[i].parent_spec() {
                Some(pp) => {
                    if pp as int == q {
                        let items = pre[q].items_spec();
                        let w = choose|w: int| 0 <= w < items.len() && items[w] == i as usize;
                        assert(post[q].items_spec()[w] == i as usize);
                        assert(post[q].items_spec().contains(i as usize));
                    } else {
                        assert(post[pp as int] == pre[pp as int]);
                    }
                },
                None => {},
            }
        }
    }
    assert forall|i: int| 0 <= i < post.len() implies #[trigger] wf_children(post, i) by {
        if i == r {
            assert(post[r as int].items_spec().no_duplicates());
        } else {
            assert(wf_children(pre, i));
            if i == q {
                let items = pre[q].items_spec();
                let items2 = post[q].items_spec();
                assert(items2 == items.push(r));
                assert forall|j: int| 0 <= j < items2.len() implies #[trigger] wf_child_at(
                    post,
                    i,
                    j,
                ) by {
                    if j < items.len() {
                        assert(wf_child_at(pre, i, j));
                        let c = items[j];
                        assert(items2[j] == c);
                        if c as int == q {
                            assert(sec_extended(pre[q], post[q], r));
                        } else {
                            assert(post[c as int] == pre[c as int]);
                        }
                    } else {
                        assert(items2[j] == r);
                    }
                }
                assert(items2.no_duplicates()) by {
                    assert forall|a: int, b: int|
                        0 <= a < items2.len() && 0 <= b < items2.len() && a != b implies items2[a]
                        != items2[b] by {
                        if a < items.len() && b < items.len() {
                            assert(items[a] != items[b]);
                        } else if a < items.len() {
                            assert(wf_child_at(pre, i, a));
                            assert(items[a] < pre.len());
                        } else if b < items.len() {
                            assert(wf_child_at(pre, i, b));
                            assert(items[b] < pre.len());
                        }
                    }
                }
            } else {
                assert forall|j: int|
                    0 <= j < post[i].items_spec().len() implies #[trigger] wf_child_at(
                    post,
                    i,
                    j,
                ) by {
                    assert(post[i] == pre[i]);
                    assert(wf_child_at(pre, i, j));
                    let c = post[i].items_spec()[j];
                    if c as int == q {
                        assert(sec_extended(pre[q], post[q], r));
                    } else {
                        assert(post[c as int] == pre[c as int]);
                    }
                }
            }
        }
    }
}

} // verus!
