//! The menu tree, held as an arena of nodes, and the navigation and
//! selection that act on its active level.
//!
//! Every node lives in one vector and names its parent and its children by
//! index; node 0 is the root. The active level is the index of a submenu
//! node. State changed inside a submenu (a checkbox toggled, a selector
//! advanced) stays in the tree and is seen again when the submenu is
//! re-entered.
use crate::items::{
    clamped_option, ActionItem, BackItem, CheckboxItem, ExitItem, MenuItem, MenuItemData, MenuItems,
    MultiOptionItem, SectionItem, SelectedData, SubmenuItem,
};
use crate::state::{lemma_navigation_avoids_sections, navigate_down_index, navigate_up_index, skip_down, skip_up, step_down, step_up, MenuState};
use crate::viewport::{is_window, viewport_window, Viewport};
use vstd::prelude::*;

verus! {

/// A node as the contracts see it.
pub struct NodeView<'a, T> {
    pub item: MenuItems<'a, T>,
    /// `None` for the root only.
    pub parent: Option<usize>,
    /// Arena indices of the children, in insertion order.
    pub children: Seq<usize>,
}

/// A menu as the contracts see it: the arena, the active level and the
/// cursor over that level.
pub struct MenuView<'a, T> {
    pub nodes: Seq<NodeView<'a, T>>,
    /// Arena index of the submenu node whose children are shown.
    pub active: nat,
    pub highlighted: nat,
    pub item_count: nat,
}

/// A node of a tree moved `off` places down an arena; the top node of the
/// moved tree becomes a child of node 0.
pub open spec fn shift_node<'a, T>(n: NodeView<'a, T>, off: nat, top: bool) -> NodeView<'a, T> {
    NodeView {
        item: n.item,
        parent: if top {
            Some(0usize)
        } else {
            match n.parent {
                Some(p) => Some((p + off) as usize),
                None => None,
            }
        },
        children: n.children.map_values(|c: usize| (c + off) as usize),
    }
}

impl<'a, T: Copy> MenuView<'a, T> {
    /// Arena indices of the entries of the active level.
    pub open spec fn level(self) -> Seq<usize> {
        self.nodes[self.active as int].children
    }

    /// The `i`-th entry of the active level.
    pub open spec fn entry(self, i: int) -> MenuItems<'a, T> {
        self.nodes[self.level()[i] as int].item
    }

    /// Which entries of the active level are sections.
    pub open spec fn sections(self) -> Seq<bool> {
        Seq::new(self.level().len(), |i: int| self.entry(i) is Section)
    }

    /// The arena forms one tree rooted at node 0: each node but the root
    /// has one parent, a submenu that comes before it and lists it once
    /// among its children. Every entry's own state is consistent.
    pub open spec fn tree_wf(self) -> bool {
        &&& self.nodes.len() > 0
        &&& self.nodes.len() <= usize::MAX
        &&& forall|i: int| 0 <= i < self.nodes.len() ==> (#[trigger] self.nodes[i]).item.inv()
        &&& forall|i: int|
            0 <= i < self.nodes.len() ==> (#[trigger] self.nodes[i]).children.no_duplicates()
        &&& self.nodes[0].item is Submenu
        &&& self.nodes[0].parent is None
        &&& forall|i: int|
            0 < i < self.nodes.len() ==> {
                &&& (#[trigger] self.nodes[i]).parent is Some
                &&& self.nodes[i].parent->0 < i
                &&& self.nodes[self.nodes[i].parent->0 as int].item is Submenu
            }
        &&& forall|i: int, j: int|
            0 <= i < self.nodes.len() && 0 <= j < self.nodes[i].children.len() ==> {
                &&& i < #[trigger] self.nodes[i].children[j] < self.nodes.len()
                &&& self.nodes[self.nodes[i].children[j] as int].parent == Some(i as usize)
            }
    }

    /// A well-formed tree whose active level is a submenu, with the cursor
    /// on one of its entries and the count equal to its size.
    pub open spec fn wf(self) -> bool {
        &&& self.tree_wf()
        &&& self.active < self.nodes.len()
        &&& self.nodes[self.active as int].item is Submenu
        &&& self.item_count == self.level().len()
        &&& if self.item_count == 0 {
            self.highlighted == 0
        } else {
            self.highlighted < self.item_count
        }
    }

    /// The menu with node `n` as the active level and the cursor reset.
    pub open spec fn enter(self, n: nat) -> Self {
        MenuView {
            active: n,
            highlighted: 0,
            item_count: self.nodes[n as int].children.len(),
            ..self
        }
    }

    /// The level that "back" returns to: the parent of the active level, or
    /// the root when the active level is the root.
    pub open spec fn parent_level(self) -> nat {
        match self.nodes[self.active as int].parent {
            Some(p) => p as nat,
            None => 0,
        }
    }

    /// The menu after "down".
    pub open spec fn after_down(self) -> Self {
        MenuView { highlighted: navigate_down_index(self.sections(), self.highlighted), ..self }
    }

    /// The menu after "up".
    pub open spec fn after_up(self) -> Self {
        MenuView { highlighted: navigate_up_index(self.sections(), self.highlighted), ..self }
    }

    /// The menu after "select", and what it reports: nothing on an empty
    /// level; otherwise the highlighted entry is activated, and a submenu
    /// entry enters its level while a back entry returns to the parent
    /// level.
    pub open spec fn after_select(self) -> (Self, Option<SelectedData<T>>) {
        if self.item_count == 0 {
            (self, None)
        } else {
            let c = self.level()[self.highlighted as int];
            let item = self.nodes[c as int].item;
            let updated = MenuView {
                nodes: self.nodes.update(
                    c as int,
                    NodeView { item: item.activated(), ..self.nodes[c as int] },
                ),
                ..self
            };
            let next = match item {
                MenuItems::Submenu(_) => updated.enter(c as nat),
                MenuItems::Back(_) => updated.enter(self.parent_level()),
                _ => updated,
            };
            (next, Some(item.selection()))
        }
    }

    /// The menu after a sequence of moves, taken in order: `true` for
    /// "down", `false` for "up".
    pub open spec fn after_moves(self, moves: Seq<bool>) -> Self
        decreases moves.len(),
    {
        if moves.len() == 0 {
            self
        } else {
            let prev = self.after_moves(moves.drop_last());
            if moves.last() {
                prev.after_down()
            } else {
                prev.after_up()
            }
        }
    }

    /// The menu with the tree of `sub` hung under the root as its last
    /// entry: `sub`'s nodes follow this menu's, with every index shifted by
    /// the size of this arena.
    pub open spec fn with_root_submenu(self, sub: MenuView<'a, T>) -> Self {
        let off = self.nodes.len();
        MenuView {
            nodes: self.nodes.update(
                0,
                NodeView { children: self.nodes[0].children.push(off as usize), ..self.nodes[0] },
            ) + Seq::new(sub.nodes.len(), |j: int| shift_node(sub.nodes[j], off, j == 0)),
            item_count: if self.active == 0 {
                self.item_count + 1
            } else {
                self.item_count
            },
            ..self
        }
    }

    /// The menu with `item` appended to the root's entries.
    pub open spec fn with_root_entry(self, item: MenuItems<'a, T>) -> Self {
        let k = self.nodes.len();
        MenuView {
            nodes: self.nodes.update(
                0,
                NodeView { children: self.nodes[0].children.push(k as usize), ..self.nodes[0] },
            ).push(NodeView { item, parent: Some(0usize), children: Seq::empty() }),
            item_count: if self.active == 0 {
                self.item_count + 1
            } else {
                self.item_count
            },
            ..self
        }
    }
}

/// On a level with at least one entry that is not a section, no sequence
/// of moves leaves the cursor on a section. (With no moves at all, the
/// cursor stays where it was, which may be a leading section.)
pub proof fn lemma_moves_avoid_sections<'a, T: Copy>(m: MenuView<'a, T>, moves: Seq<bool>)
    requires
        m.wf(),
        exists|i: int| 0 <= i < m.item_count && !(m.entry(i) is Section),
        moves.len() > 0 || !(m.entry(m.highlighted as int) is Section),
    ensures
        m.after_moves(moves).wf(),
        m.after_moves(moves).nodes == m.nodes,
        m.after_moves(moves).active == m.active,
        !(m.after_moves(moves).entry(m.after_moves(moves).highlighted as int) is Section),
    decreases moves.len(),
{
    if moves.len() > 0 {
        let prev = m.after_moves(moves.drop_last());
        if moves.len() > 1 {
            lemma_moves_avoid_sections(m, moves.drop_last());
        } else {
            assert(moves.drop_last().len() == 0);
            assert(prev == m);
        }
        assert(prev.wf() && prev.nodes == m.nodes && prev.active == m.active);
        assert(prev.sections() =~= m.sections());
        let i = choose|i: int| 0 <= i < m.item_count && !(m.entry(i) is Section);
        assert(!m.sections()[i]);
        lemma_navigation_avoids_sections(m.sections(), prev.highlighted);
    }
}

/// Entering a submenu whose first entry is a back entry, then selecting
/// that entry at once, returns to the level the menu was on, with the
/// entry count it had.
pub proof fn lemma_back_after_descend<'a, T: Copy>(m: MenuView<'a, T>)
    requires
        m.wf(),
        m.item_count > 0,
        m.entry(m.highlighted as int) is Submenu,
        m.after_select().0.item_count > 0,
        m.after_select().0.entry(0) is Back,
    ensures
        m.after_select().0.after_select().0.active == m.active,
        m.after_select().0.after_select().0.item_count == m.item_count,
{
    let c = m.level()[m.highlighted as int];
    assert(m.nodes[c as int].parent == Some(m.active as usize));
}

proof fn lemma_with_root_entry_wf<'a, T: Copy>(m: MenuView<'a, T>, item: MenuItems<'a, T>)
    requires
        m.wf(),
        item.inv(),
        m.nodes.len() < usize::MAX,
    ensures
        m.with_root_entry(item).wf(),
{
    let r = m.with_root_entry(item);
    let k = m.nodes.len();
    assert forall|i: int| 0 < i < r.nodes.len() implies {
        &&& (#[trigger] r.nodes[i]).parent is Some
        &&& r.nodes[i].parent->0 < i
        &&& r.nodes[r.nodes[i].parent->0 as int].item is Submenu
    } by {
        if i < k {
            assert(m.nodes[i].parent is Some);
        }
    }
    assert forall|i: int, j: int|
        0 <= i < r.nodes.len() && 0 <= j < r.nodes[i].children.len() implies {
        &&& i < #[trigger] r.nodes[i].children[j] < r.nodes.len()
        &&& r.nodes[r.nodes[i].children[j] as int].parent == Some(i as usize)
    } by {
        if i == 0 && j == m.nodes[0].children.len() {
        } else {
            let c = m.nodes[i].children[j];
            assert(m.nodes[c as int].parent == Some(i as usize));
        }
    }
}

proof fn lemma_with_root_submenu_wf<'a, T: Copy>(m: MenuView<'a, T>, sub: MenuView<'a, T>)
    requires
        m.wf(),
        sub.tree_wf(),
        m.nodes.len() + sub.nodes.len() <= usize::MAX,
    ensures
        m.with_root_submenu(sub).wf(),
{
    let r = m.with_root_submenu(sub);
    let off = m.nodes.len();
    assert forall|i: int| 0 < i < r.nodes.len() implies {
        &&& (#[trigger] r.nodes[i]).parent is Some
        &&& r.nodes[i].parent->0 < i
        &&& r.nodes[r.nodes[i].parent->0 as int].item is Submenu
    } by {
        if i >= off && i > off {
            let j = i - off;
            let p = sub.nodes[j].parent->0;
            assert(sub.nodes[j].parent is Some);
            assert(r.nodes[p + off] == shift_node(sub.nodes[p as int], off, p == 0));
        }
    }
    assert forall|i: int, j: int|
        0 <= i < r.nodes.len() && 0 <= j < r.nodes[i].children.len() implies {
        &&& i < #[trigger] r.nodes[i].children[j] < r.nodes.len()
        &&& r.nodes[r.nodes[i].children[j] as int].parent == Some(i as usize)
    } by {
        if i >= off {
            let k = i - off;
            let c = sub.nodes[k].children[j];
            assert(k < c < sub.nodes.len());
            assert(sub.nodes[c as int].parent == Some(k as usize));
            assert(r.nodes[c + off] == shift_node(sub.nodes[c as int], off, c == 0));
        } else if i == 0 && j == m.nodes[0].children.len() {
        } else {
            let c = m.nodes[i].children[j];
            assert(m.nodes[c as int].parent == Some(i as usize));
        }
    }
}

struct MenuNode<'a, T> {
    item: MenuItems<'a, T>,
    parent: Option<usize>,
    children: Vec<usize>,
}

spec fn node_view<'a, T>(n: MenuNode<'a, T>) -> NodeView<'a, T> {
    NodeView { item: n.item, parent: n.parent, children: n.children@ }
}

/// `v` with `off` added to every index; the indices lie below `bound`.
fn shift_indices(v: &Vec<usize>, off: usize, bound: usize) -> (r: Vec<usize>)
    requires
        forall|i: int| 0 <= i < v@.len() ==> v@[i] < bound,
        off + bound <= usize::MAX,
    ensures
        r@ == v@.map_values(|c: usize| (c + off) as usize),
{
    let mut r: Vec<usize> = Vec::new();
    let mut i: usize = 0;
    while i < v.len()
        invariant
            forall|k: int| 0 <= k < v@.len() ==> v@[k] < bound,
            off + bound <= usize::MAX,
            i <= v@.len(),
            r@ == v@.subrange(0, i as int).map_values(|c: usize| (c + off) as usize),
        decreases v@.len() - i,
    {
        r.push(v[i] + off);
        i = i + 1;
        assert(r@ =~= v@.subrange(0, i as int).map_values(|c: usize| (c + off) as usize));
    }
    assert(v@.subrange(0, v@.len() as int) =~= v@);
    r
}

/// A menu: a tree of entries, the level being shown, and the cursor on it.
pub struct Menu<'a, T> {
    nodes: Vec<MenuNode<'a, T>>,
    active: usize,
    menu_state: MenuState,
}

impl<'a, T> View for Menu<'a, T> {
    type V = MenuView<'a, T>;

    closed spec fn view(&self) -> MenuView<'a, T> {
        MenuView {
            nodes: self.nodes@.map_values(|n: MenuNode<'a, T>| node_view(n)),
            active: self.active as nat,
            highlighted: self.menu_state.cursor(),
            item_count: self.menu_state.count(),
        }
    }
}

impl<'a, T: Copy> Menu<'a, T> {
    /// The menu's tree and cursor are consistent: see `MenuView::wf`.
    pub open spec fn wf(&self) -> bool {
        self@.wf()
    }

    /// A menu with no entries whose root heading is `label`.
    pub fn new(label: &'static str, root_id: T) -> (r: Self)
        ensures
            r.wf(),
            r@.nodes.len() == 1,
            r@.nodes[0].item is Submenu,
            r@.nodes[0].item.label_view() == label@,
            r@.nodes[0].item.id_view() == root_id,
            r@.nodes[0].children.len() == 0,
            r@.active == 0,
            r@.highlighted == 0,
            r@.item_count == 0,
    {
        let root = MenuNode {
            item: MenuItems::Submenu(SubmenuItem::new(label, root_id)),
            parent: None,
            children: Vec::new(),
        };
        let mut nodes = Vec::new();
        nodes.push(root);
        let r = Menu { nodes, active: 0, menu_state: MenuState::new() };
        assert(r@.nodes[0].children =~= Seq::empty());
        r
    }

    /// Appends `item` to the root's entries.
    pub fn add_item(&mut self, item: MenuItems<'a, T>)
        requires
            old(self).wf(),
            item.inv(),
        ensures
            final(self).wf(),
            final(self)@ == old(self)@.with_root_entry(item),
    {
        let k = self.nodes.len();
        let ghost item_g = item;
        self.nodes[0].children.push(k);
        self.nodes.push(MenuNode { item, parent: Some(0), children: Vec::new() });
        // The arena's length is a `usize`, so the new node's index `k` is
        // below `usize::MAX`.
        let size = self.nodes.len();
        assert(k < size);
        if self.active == 0 {
            let n = self.nodes[0].children.len();
            self.menu_state.update_item_count(n);
        }
        proof {
            let expected = old(self)@.with_root_entry(item_g);
            assert(self@.nodes[k as int].children =~= Seq::empty());
            assert(self@.nodes =~= expected.nodes);
            lemma_with_root_entry_wf(old(self)@, item_g);
        }
    }

    /// Appends an unchecked checkbox to the root's entries.
    pub fn add_checkbox(&mut self, label: &'static str, id: T)
        requires
            old(self).wf(),
        ensures
            final(self).wf(),
            final(self)@ == old(self)@.with_root_entry(final(self)@.nodes.last().item),
            final(self)@.nodes.last().item is Checkbox,
            final(self)@.nodes.last().item.label_view() == label@,
            final(self)@.nodes.last().item.id_view() == id,
            !final(self)@.nodes.last().item->Checkbox_0.checked(),
    {
        self.add_item(MenuItems::Checkbox(CheckboxItem::new(label, id)));
    }

    /// Appends a selector over `options` to the root's entries, at
    /// `initial_option` (the first option when it is `None`, the last when it
    /// is out of range).
    pub fn add_selector(
        &mut self,
        label: &'static str,
        id: T,
        options: &'a [&'static str],
        initial_option: Option<usize>,
    )
        requires
            old(self).wf(),
            options@.len() > 0,
        ensures
            final(self).wf(),
            final(self)@ == old(self)@.with_root_entry(final(self)@.nodes.last().item),
            final(self)@.nodes.last().item is Selector,
            final(self)@.nodes.last().item.label_view() == label@,
            final(self)@.nodes.last().item.id_view() == id,
            final(self)@.nodes.last().item->Selector_0.options_view() == options@,
            final(self)@.nodes.last().item->Selector_0.option_index() == clamped_option(
                match initial_option {
                    Some(i) => i as nat,
                    None => 0,
                },
                options@.len(),
            ),
    {
        self.add_item(MenuItems::Selector(MultiOptionItem::new(
            label,
            id,
            options,
            match initial_option {
                Some(i) => i,
                None => 0,
            },
        )));
    }

    /// Appends a section, which the cursor passes over, to the root's entries.
    pub fn add_section(&mut self, label: &'static str, id: T)
        requires
            old(self).wf(),
        ensures
            final(self).wf(),
            final(self)@ == old(self)@.with_root_entry(final(self)@.nodes.last().item),
            final(self)@.nodes.last().item is Section,
            final(self)@.nodes.last().item.label_view() == label@,
            final(self)@.nodes.last().item.id_view() == id,
    {
        self.add_item(MenuItems::Section(SectionItem::new(label, id)));
    }

    /// Appends a back entry to the root's entries.
    pub fn add_back(&mut self, label: &'static str, id: T)
        requires
            old(self).wf(),
        ensures
            final(self).wf(),
            final(self)@ == old(self)@.with_root_entry(final(self)@.nodes.last().item),
            final(self)@.nodes.last().item is Back,
            final(self)@.nodes.last().item.label_view() == label@,
            final(self)@.nodes.last().item.id_view() == id,
    {
        self.add_item(MenuItems::Back(BackItem::new(label, id)));
    }

    /// Appends an action entry to the root's entries.
    pub fn add_action(&mut self, label: &'static str, id: T)
        requires
            old(self).wf(),
        ensures
            final(self).wf(),
            final(self)@ == old(self)@.with_root_entry(final(self)@.nodes.last().item),
            final(self)@.nodes.last().item is Action,
            final(self)@.nodes.last().item.label_view() == label@,
            final(self)@.nodes.last().item.id_view() == id,
    {
        self.add_item(MenuItems::Action(ActionItem::new(label, id)));
    }

    /// Appends an exit entry to the root's entries.
    pub fn add_exit(&mut self, label: &'static str, id: T)
        requires
            old(self).wf(),
        ensures
            final(self).wf(),
            final(self)@ == old(self)@.with_root_entry(final(self)@.nodes.last().item),
            final(self)@.nodes.last().item is Exit,
            final(self)@.nodes.last().item.label_view() == label@,
            final(self)@.nodes.last().item.id_view() == id,
    {
        self.add_item(MenuItems::Exit(ExitItem::new(label, id)));
    }

    /// Hangs the tree of `submenu` under the root as its last entry. The
    /// cursor and active level of `submenu` are dropped.
    pub fn add_submenu(&mut self, submenu: Menu<'a, T>)
        requires
            old(self).wf(),
            submenu.wf(),
            old(self)@.nodes.len() + submenu@.nodes.len() <= usize::MAX,
        ensures
            final(self).wf(),
            final(self)@ == old(self)@.with_root_submenu(submenu@),
    {
        let off = self.nodes.len();
        let ghost sub_v = submenu@;
        let mut sub = submenu.nodes;
        let n = sub.len();
        let mut j: usize = 0;
        while j < n
            invariant
                n == sub_v.nodes.len(),
                sub@.len() == n,
                off + n <= usize::MAX,
                sub_v.tree_wf(),
                forall|k: int|
                    0 <= k < j ==> node_view(#[trigger] sub@[k]) == shift_node(
                        sub_v.nodes[k],
                        off as nat,
                        k == 0,
                    ),
                forall|k: int| j <= k < n ==> node_view(#[trigger] sub@[k]) == sub_v.nodes[k],
            decreases n - j,
        {
            assert(node_view(sub@[j as int]) == sub_v.nodes[j as int]);
            let children = shift_indices(&sub[j].children, off, n);
            let parent = if j == 0 {
                Some(0)
            } else {
                match sub[j].parent {
                    Some(p) => Some(p + off),
                    None => None,
                }
            };
            sub[j].children = children;
            sub[j].parent = parent;
            j = j + 1;
        }
        self.nodes[0].children.push(off);
        self.nodes.append(&mut sub);
        if self.active == 0 {
            let count = self.nodes[0].children.len();
            self.menu_state.update_item_count(count);
        }
        proof {
            let expected = old(self)@.with_root_submenu(sub_v);
            assert(self@.nodes =~= expected.nodes);
            lemma_with_root_submenu_wf(old(self)@, sub_v);
        }
    }

    /// The heading of the active level.
    pub fn heading(&self) -> (r: &'static str)
        requires
            self.wf(),
        ensures
            r@ == self@.nodes[self@.active as int].item.label_view(),
    {
        self.nodes[self.active].item.label()
    }

    /// The `i`-th entry of the active level.
    pub fn item(&self, i: usize) -> (r: &MenuItems<'a, T>)
        requires
            self.wf(),
            i < self@.item_count,
        ensures
            *r == self@.entry(i as int),
    {
        let c = self.nodes[self.active].children[i];
        &self.nodes[c].item
    }

    /// The highlighted index of the active level.
    pub fn highlighted_item(&self) -> (r: usize)
        ensures
            r == self@.highlighted,
    {
        self.menu_state.highlighted_item()
    }

    /// The number of entries of the active level.
    pub fn item_count(&self) -> (r: usize)
        ensures
            r == self@.item_count,
    {
        self.menu_state.item_count()
    }

    /// The window of the active level that fits in `available` pixels of
    /// height, given the height of each of its entries.
    pub fn viewport(&self, heights: &Vec<u32>, available: u32) -> (w: Viewport)
        requires
            self.wf(),
            heights@.len() == self@.item_count,
        ensures
            is_window(self@.sections(), heights@, self@.highlighted as int, available as int, w),
    {
        let n = self.menu_state.item_count();
        let mut sections: Vec<bool> = Vec::new();
        let mut i: usize = 0;
        while i < n
            invariant
                self.wf(),
                n == self@.item_count,
                i <= n,
                sections@ == self@.sections().subrange(0, i as int),
            decreases n - i,
        {
            let s = self.entry_is_section(i);
            sections.push(s);
            i = i + 1;
            assert(sections@ =~= self@.sections().subrange(0, i as int));
        }
        assert(sections@ =~= self@.sections());
        let h = self.menu_state.highlighted_item();
        viewport_window(&sections, heights, h, available)
    }

    /// Whether the `i`-th entry of the active level is a section.
    fn entry_is_section(&self, i: usize) -> (r: bool)
        requires
            self.wf(),
            i < self@.item_count,
        ensures
            r == self@.sections()[i as int],
    {
        let c = self.nodes[self.active].children[i];
        self.nodes[c].item.is_section()
    }

    /// Moves the cursor down to the next entry that is not a section,
    /// wrapping past the end; does nothing on an empty level.
    pub fn navigate_down(&mut self)
        requires
            old(self).wf(),
        ensures
            final(self).wf(),
            final(self)@ == old(self)@.after_down(),
    {
        let n = self.menu_state.item_count();
        if n == 0 {
            return;
        }
        let ghost sections = self@.sections();
        let ghost h0 = self@.highlighted;
        self.menu_state.move_down();
        let mut fuel: usize = n - 1;
        loop
            invariant
                self.wf(),
                self.nodes@ == old(self).nodes@,
                self.active == old(self).active,
                self@.sections() == sections,
                sections.len() == n,
                self@.item_count == n,
                n > 0,
                self@.highlighted < n,
                fuel < n,
                skip_down(sections, h0, (n - 1) as nat) == if fuel == 0
                    || !sections[self@.highlighted as int] {
                    self@.highlighted
                } else {
                    skip_down(sections, self@.highlighted, (fuel - 1) as nat)
                },
            ensures
                self.wf(),
                self.nodes@ == old(self).nodes@,
                self.active == old(self).active,
                self@.item_count == n,
                self@.highlighted == skip_down(sections, h0, (n - 1) as nat),
            decreases fuel,
        {
            let h = self.menu_state.highlighted_item();
            if fuel == 0 || !self.entry_is_section(h) {
                break;
            }
            let ghost prev = self@.highlighted;
            self.menu_state.move_down();
            fuel = fuel - 1;
            assert(skip_down(sections, prev, fuel as nat) == if fuel == 0
                || !sections[self@.highlighted as int] {
                self@.highlighted
            } else {
                skip_down(sections, self@.highlighted, (fuel - 1) as nat)
            });
        }
        proof {
            assert(self@.nodes == old(self)@.nodes);
            assert(old(self)@.sections() == sections);
            assert(navigate_down_index(sections, h0) == self@.highlighted);
            assert(self@ == old(self)@.after_down());
        }
    }

    /// Moves the cursor up to the previous entry that is not a section,
    /// wrapping past the start; does nothing on an empty level.
    pub fn navigate_up(&mut self)
        requires
            old(self).wf(),
        ensures
            final(self).wf(),
            final(self)@ == old(self)@.after_up(),
    {
        let n = self.menu_state.item_count();
        if n == 0 {
            return;
        }
        let ghost sections = self@.sections();
        let ghost h0 = self@.highlighted;
        self.menu_state.move_up();
        let mut fuel: usize = n - 1;
        loop
            invariant
                self.wf(),
                self.nodes@ == old(self).nodes@,
                self.active == old(self).active,
                self@.sections() == sections,
                sections.len() == n,
                self@.item_count == n,
                n > 0,
                self@.highlighted < n,
                fuel < n,
                skip_up(sections, h0, (n - 1) as nat) == if fuel == 0
                    || !sections[self@.highlighted as int] {
                    self@.highlighted
                } else {
                    skip_up(sections, self@.highlighted, (fuel - 1) as nat)
                },
            ensures
                self.wf(),
                self.nodes@ == old(self).nodes@,
                self.active == old(self).active,
                self@.item_count == n,
                self@.highlighted == skip_up(sections, h0, (n - 1) as nat),
            decreases fuel,
        {
            let h = self.menu_state.highlighted_item();
            if fuel == 0 || !self.entry_is_section(h) {
                break;
            }
            let ghost prev = self@.highlighted;
            self.menu_state.move_up();
            fuel = fuel - 1;
            assert(skip_up(sections, prev, fuel as nat) == if fuel == 0
                || !sections[self@.highlighted as int] {
                self@.highlighted
            } else {
                skip_up(sections, self@.highlighted, (fuel - 1) as nat)
            });
        }
        proof {
            assert(self@.nodes == old(self)@.nodes);
            assert(old(self)@.sections() == sections);
            assert(navigate_up_index(sections, h0) == self@.highlighted);
            assert(self@ == old(self)@.after_up());
        }
    }

    /// Makes node `n` the active level, with the cursor at its first entry.
    fn enter_level(&mut self, n: usize)
        requires
            old(self)@.tree_wf(),
            n < old(self)@.nodes.len(),
            old(self)@.nodes[n as int].item is Submenu,
        ensures
            final(self)@ == old(self)@.enter(n as nat),
            final(self).wf(),
    {
        self.active = n;
        self.menu_state = MenuState::new();
        let count = self.nodes[n].children.len();
        self.menu_state.update_item_count(count);
    }

    /// Activates the highlighted entry and reports what it did; a submenu
    /// entry then becomes the active level, and a back entry returns to
    /// the parent level (to the root from the root). Nothing happens, and
    /// nothing is reported, on an empty level.
    pub fn select_item(&mut self) -> (r: Option<SelectedData<T>>)
        requires
            old(self).wf(),
        ensures
            final(self).wf(),
            (final(self)@, r) == old(self)@.after_select(),
            r is None <==> old(self)@.item_count == 0,
    {
        let count = self.menu_state.item_count();
        if count == 0 {
            return None;
        }
        let h = self.menu_state.highlighted_item();
        let c = self.nodes[self.active].children[h];
        let ev = self.nodes[c].item.selected();
        proof {
            let old_v = old(self)@;
            let updated = MenuView {
                nodes: old_v.nodes.update(
                    c as int,
                    NodeView { item: old_v.nodes[c as int].item.activated(), ..old_v.nodes[c as int] },
                ),
                ..old_v
            };
            assert(self@.nodes =~= updated.nodes);
        }
        match ev {
            SelectedData::Submenu { .. } => {
                self.enter_level(c);
            },
            SelectedData::Back { .. } => {
                let p = match self.nodes[self.active].parent {
                    Some(p) => p,
                    None => 0,
                };
                self.enter_level(p);
            },
            _ => {},
        }
        Some(ev)
    }
}

} // verus!
