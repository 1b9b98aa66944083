//! Copy, cut, paste and duplicate.
use vstd::prelude::*;

use crate::commands::{Edit, EditorCommand, TreeSource};
use crate::model::{Document, Location, NodeId, Parent, StyleKind};
use crate::seqs::{lemma_filter_ends, lemma_filter_step};
use crate::session::{
    next_revision, ClipboardItem, ClipboardPayload, PickerTarget, Session, StyleCopy,
};
use crate::tree::TreeRow;

verus! {

broadcast use vstd::std_specs::hash::group_hash_axioms;

impl Document {
    /// Whether `id` is there and may be changed.
    pub open spec fn is_free(&self, id: NodeId) -> bool {
        self.has(id) && !self.node(id).locked
    }

    /// The nodes that copying `sel` takes: its roots that stand somewhere and
    /// are not locked.
    pub open spec fn copyable(&self, sel: Seq<NodeId>) -> Seq<NodeId> {
        self.roots(sel).filter(|id: NodeId| self.located(id) is Some && self.is_free(id))
    }

    /// The nodes that duplicating `sel` takes: its roots that are not locked.
    pub open spec fn duplicable(&self, sel: Seq<NodeId>) -> Seq<NodeId> {
        self.roots(sel).filter(|id: NodeId| self.is_free(id))
    }

    /// Whether `item` is the copy of `id` from where it stands.
    pub open spec fn copy_of(&self, item: ClipboardItem, id: NodeId) -> bool {
        &&& item.tree@ == self.rows(id)
        &&& self.located(id) == Some(
            Location { parent: item.source_parent, index: item.source_index },
        )
    }

    pub open spec fn style_copy(&self, id: NodeId, kind: StyleKind) -> Seq<StyleCopy> {
        match self.carried_style(id, kind) {
            Some(style) => seq![StyleCopy { kind, content: self.node(style).content }],
            None => Seq::empty(),
        }
    }

    /// The styles that a copy of `id` carries, the fill first.
    pub open spec fn style_copies(&self, id: NodeId) -> Seq<StyleCopy> {
        self.style_copy(id, StyleKind::Fill) + self.style_copy(id, StyleKind::Stroke)
    }

    /// Whether `id` is there and may be changed.
    pub fn free(&self, id: NodeId) -> (r: bool)
        ensures
            r == self.is_free(id),
    {
        match self.get(id) {
            Some(n) => !n.locked,
            None => false,
        }
    }

    /// The fill and the stroke that a copy of `id` carries.
    pub fn immediate_style_kinds(&self, id: NodeId) -> (r: Vec<StyleCopy>)
        requires
            self.wf(),
        ensures
            r@ == self.style_copies(id),
    {
        let mut out: Vec<StyleCopy> = Vec::new();
        proof {
            self.lemma_carried(id, StyleKind::Fill);
            self.lemma_carried(id, StyleKind::Stroke);
        }
        if let Some(style) = self.style_of_copy(id, StyleKind::Fill) {
            if let Some(n) = self.get(style) {
                out.push(StyleCopy { kind: StyleKind::Fill, content: n.content });
            }
        }
        assert(out@ =~= self.style_copy(id, StyleKind::Fill));
        if let Some(style) = self.style_of_copy(id, StyleKind::Stroke) {
            if let Some(n) = self.get(style) {
                out.push(StyleCopy { kind: StyleKind::Stroke, content: n.content });
            }
        }
        assert(out@ =~= self.style_copies(id));
        out
    }

    /// The last style of a kind is a style of that kind, out of the list.
    pub proof fn lemma_last_style(&self, s: Seq<NodeId>, kind: StyleKind)
        ensures
            match self.last_style(s, kind) {
                Some(id) => self.is_style(id, kind) && s.contains(id),
                None => forall|i: int| 0 <= i < s.len() ==> !self.is_style(#[trigger] s[i], kind),
            },
        decreases s.len(),
    {
        if s.len() > 0 {
            let front = s.drop_last();
            self.lemma_last_style(front, kind);
            if self.is_style(s.last(), kind) {
                assert(s[s.len() - 1] == s.last());
            } else {
                match self.last_style(front, kind) {
                    Some(id) => {
                        let i = choose|i: int| 0 <= i < front.len() && front[i] == id;
                        assert(s[i] == id);
                    },
                    None => {
                        assert forall|i: int| 0 <= i < s.len() implies !self.is_style(
                            #[trigger] s[i],
                            kind,
                        ) by {
                            if i < front.len() {
                                assert(front[i] == s[i]);
                            }
                        }
                    },
                }
            }
        }
    }

    /// The nearest style is there and is of the wanted kind.
    pub proof fn lemma_nearest(&self, scopes: Seq<Parent>, kind: StyleKind)
        ensures
            self.nearest(scopes, kind) matches Some(id) ==> self.is_style(id, kind),
        decreases scopes.len(),
    {
        if scopes.len() > 0 {
            if let Some(children) = self.children_of(scopes[0]) {
                self.lemma_last_style(children, kind);
                self.lemma_nearest(scopes.drop_first(), kind);
            }
        }
    }

    /// A style that a copy carries is there and is of the wanted kind.
    pub proof fn lemma_carried(&self, id: NodeId, kind: StyleKind)
        ensures
            self.carried_style(id, kind) matches Some(style) ==> self.is_style(style, kind),
    {
        self.lemma_last_style(self.subtree(id), kind);
        self.lemma_nearest(self.scopes(id), kind);
    }
}

/// Whether two clipboard items hold the same.
pub open spec fn same_item(a: ClipboardItem, b: ClipboardItem) -> bool {
    &&& a.tree@ == b.tree@
    &&& a.source_parent == b.source_parent
    &&& a.source_index == b.source_index
}

pub open spec fn same_items(a: Seq<ClipboardItem>, b: Seq<ClipboardItem>) -> bool {
    a.len() == b.len() && forall|i: int| 0 <= i < a.len() ==> same_item(#[trigger] a[i], b[i])
}

fn copied_item(item: &ClipboardItem) -> (r: ClipboardItem)
    ensures
        same_item(r, *item),
{
    let mut tree: Vec<TreeRow> = Vec::new();
    let mut i: usize = 0;
    while i < item.tree.len()
        invariant
            i <= item.tree@.len(),
            tree@ == item.tree@.take(i as int),
        decreases item.tree.len() - i,
    {
        tree.push(item.tree[i]);
        assert(item.tree@.take(i + 1) =~= item.tree@.take(i as int).push(item.tree@[i as int]));
        i = i + 1;
    }
    assert(item.tree@.take(item.tree@.len() as int) =~= item.tree@);
    ClipboardItem { tree, source_parent: item.source_parent, source_index: item.source_index }
}

fn copied_items(items: &Vec<ClipboardItem>) -> (r: Vec<ClipboardItem>)
    ensures
        same_items(r@, items@),
{
    let mut out: Vec<ClipboardItem> = Vec::new();
    let mut i: usize = 0;
    while i < items.len()
        invariant
            i <= items@.len(),
            out@.len() == i,
            forall|j: int| 0 <= j < i ==> same_item(#[trigger] out@[j], items@[j]),
        decreases items.len() - i,
    {
        out.push(copied_item(&items[i]));
        i = i + 1;
    }
    out
}

/// The key by which pasting in place orders its items: composition children
/// first, then by parent, then by place.
pub open spec fn item_key(item: ClipboardItem) -> (int, int, int) {
    match item.source_parent {
        Parent::Comp(c) => (0, c as int, item.source_index as int),
        Parent::Node(n) => (1, n as int, item.source_index as int),
    }
}

pub open spec fn key_less(a: (int, int, int), b: (int, int, int)) -> bool {
    a.0 < b.0 || (a.0 == b.0 && (a.1 < b.1 || (a.1 == b.1 && a.2 < b.2)))
}

/// Whether item `a` is pasted before item `b`: by key, ties in copy order.
pub open spec fn pasted_before(items: Seq<ClipboardItem>, a: int, b: int) -> bool {
    ||| key_less(item_key(items[a]), item_key(items[b]))
    ||| item_key(items[a]) == item_key(items[b]) && a < b
}

/// Whether `order` lists all the items in paste order.
pub open spec fn paste_order(items: Seq<ClipboardItem>, order: Seq<usize>) -> bool {
    &&& order.len() == items.len()
    &&& forall|i: int| 0 <= i < order.len() ==> #[trigger] order[i] < items.len()
    &&& forall|i: int, j: int|
        0 <= i < j < order.len() ==> pasted_before(
            items,
            #[trigger] order[i] as int,
            #[trigger] order[j] as int,
        )
}

fn item_less(a: &ClipboardItem, b: &ClipboardItem) -> (r: bool)
    ensures
        r == key_less(item_key(*a), item_key(*b)),
{
    match (a.source_parent, b.source_parent) {
        (Parent::Comp(x), Parent::Comp(y)) => x < y || (x == y && a.source_index < b.source_index),
        (Parent::Node(x), Parent::Node(y)) => x < y || (x == y && a.source_index < b.source_index),
        (Parent::Comp(_), Parent::Node(_)) => true,
        (Parent::Node(_), Parent::Comp(_)) => false,
    }
}

fn order_items(items: &Vec<ClipboardItem>) -> (order: Vec<usize>)
    ensures
        paste_order(items@, order@),
{
    let mut order: Vec<usize> = Vec::new();
    let mut i: usize = 0;
    while i < items.len()
        invariant
            i <= items@.len(),
            order@.len() == i,
            forall|k: int| 0 <= k < i ==> #[trigger] order@[k] < i,
            forall|a: int, b: int|
                0 <= a < b < i ==> pasted_before(
                    items@,
                    #[trigger] order@[a] as int,
                    #[trigger] order@[b] as int,
                ),
        decreases items.len() - i,
    {
        let mut p: usize = 0;
        while p < i && !item_less(&items[i], &items[order[p]])
            invariant
                p <= i < items@.len(),
                order@.len() == i,
                forall|k: int| 0 <= k < i ==> #[trigger] order@[k] < i,
                forall|k: int|
                    0 <= k < p ==> pasted_before(items@, #[trigger] order@[k] as int, i as int),
            decreases i - p,
        {
            p = p + 1;
        }
        let ghost before = order@;
        order.insert(p, i);
        assert forall|a: int, b: int| 0 <= a < b < i + 1 implies pasted_before(
            items@,
            #[trigger] order@[a] as int,
            #[trigger] order@[b] as int,
        ) by {
            if b < p {
                assert(pasted_before(items@, before[a] as int, before[b] as int));
            } else if b == p {
                assert(pasted_before(items@, before[a] as int, i as int));
            } else if a == p {
                let x = before[b - 1] as int;
                if b - 1 > p {
                    assert(pasted_before(items@, before[p as int] as int, x));
                }
            } else {
                let a0 = if a < p {
                    a
                } else {
                    a - 1
                };
                assert(order@[a] == before[a0]);
                assert(order@[b] == before[b - 1]);
                assert(pasted_before(items@, before[a0] as int, before[b - 1] as int));
            }
        }
        assert forall|k: int| 0 <= k < i + 1 implies #[trigger] order@[k] < i + 1 by {
            if k < p {
                assert(order@[k] == before[k]);
            } else if k > p {
                assert(order@[k] == before[k - 1]);
            }
        }
        i = i + 1;
    }
    order
}

/// What the host does to close an edit that is under way: it commits the history's
/// transaction, remembers the picked colour as a swatch, and in any case drops the
/// canvas tools' gestures.
#[derive(Clone, Copy, Debug, PartialEq, Eq, Structural)]
pub struct EditClosed {
    pub commit: bool,
    pub add_swatch: bool,
}

/// Where the items of an insertion go.
#[derive(Clone, Copy, Debug, PartialEq, Eq, Structural)]
pub enum Placement {
    /// To the top of the main composition, moved by the paste offset.
    Top,
    /// Back to where they were taken from.
    InPlace,
}

/// An insertion of copied trees under way: the host carries out one command at a
/// time and reports the node that it created.
#[derive(Debug)]
pub struct InsertRun {
    pub label: &'static str,
    pub items: Vec<ClipboardItem>,
    pub order: Vec<usize>,
    pub placement: Placement,
    pub next: usize,
    pub created: Vec<NodeId>,
}

impl InsertRun {
    pub open spec fn wf(&self) -> bool {
        &&& self.order@.len() == self.items@.len()
        &&& forall|i: int| 0 <= i < self.order@.len() ==> #[trigger] self.order@[i] < self.items@.len()
        &&& self.next <= self.order@.len()
    }

    /// The command that inserts the item `item` into `doc`.
    pub open spec fn command(&self, item: usize, doc: Document) -> EditorCommand {
        let source = self.items@[item as int];
        match self.placement {
            Placement::Top => EditorCommand::InsertNode {
                parent: Parent::Comp(doc.main_id()),
                index: 0,
                tree: TreeSource::Item { item, shifted: true },
            },
            Placement::InPlace => EditorCommand::InsertNode {
                parent: if doc.parent_attached(source.source_parent) {
                    source.source_parent
                } else {
                    Parent::Comp(doc.main_id())
                },
                index: source.source_index,
                tree: TreeSource::Item { item, shifted: false },
            },
        }
    }

    /// The next command, on the document as it is now.
    pub fn next_command(&self, doc: &Document) -> (r: Option<EditorCommand>)
        requires
            self.wf(),
        ensures
            r == (if self.next < self.order@.len() {
                Some(self.command(self.order@[self.next as int], *doc))
            } else {
                None
            }),
    {
        if self.next >= self.order.len() {
            return None;
        }
        let item = self.order[self.next];
        match self.placement {
            Placement::Top => Some(
                EditorCommand::InsertNode {
                    parent: Parent::Comp(doc.main()),
                    index: 0,
                    tree: TreeSource::Item { item, shifted: true },
                },
            ),
            Placement::InPlace => {
                let source = self.items[item].source_parent;
                let parent = if doc.parent_is_attached(source) {
                    source
                } else {
                    Parent::Comp(doc.main())
                };
                Some(
                    EditorCommand::InsertNode {
                        parent,
                        index: self.items[item].source_index,
                        tree: TreeSource::Item { item, shifted: false },
                    },
                )
            },
        }
    }

    /// Takes the node that the last command created, if it created one.
    pub fn inserted(&mut self, created: Option<NodeId>)
        requires
            old(self).wf(),
            old(self).next < old(self).order@.len(),
        ensures
            final(self).wf(),
            final(self).created@ == (match created {
                Some(id) => old(self).created@.push(id),
                None => old(self).created@,
            }),
            *final(self) == (InsertRun {
                next: (old(self).next + 1) as usize,
                created: final(self).created,
                ..*old(self)
            }),
    {
        if let Some(id) = created {
            self.created.push(id);
        }
        assert(self.next < self.order.len());
        self.next = self.next + 1;
    }
}

/// The item numbers in copy order.
pub open spec fn straight(order: Seq<usize>, n: nat) -> bool {
    order.len() == n && forall|i: int| 0 <= i < n ==> #[trigger] order[i] == i
}

fn count_up(n: usize) -> (order: Vec<usize>)
    ensures
        straight(order@, n as nat),
{
    let mut order: Vec<usize> = Vec::new();
    let mut i: usize = 0;
    while i < n
        invariant
            i <= n,
            order@.len() == i,
            forall|k: int| 0 <= k < i ==> #[trigger] order@[k] == k,
        decreases n - i,
    {
        order.push(i);
        i = i + 1;
    }
    order
}

pub open spec fn removals(ids: Seq<NodeId>) -> Seq<EditorCommand> {
    Seq::new(ids.len(), |i: int| EditorCommand::RemoveNode { id: ids[i] })
}

/// One removal for each node of `ids`.
pub fn remove_all(ids: &Vec<NodeId>) -> (r: Vec<EditorCommand>)
    ensures
        r@ == removals(ids@),
{
    let mut out: Vec<EditorCommand> = Vec::new();
    let mut i: usize = 0;
    while i < ids.len()
        invariant
            i <= ids@.len(),
            out@ =~= removals(ids@).take(i as int),
        decreases ids.len() - i,
    {
        out.push(EditorCommand::RemoveNode { id: ids[i] });
        i = i + 1;
    }
    assert(removals(ids@).take(ids@.len() as int) =~= removals(ids@));
    out
}

impl Session {
    /// Whether the open colour picker has written something that is not
    /// committed yet.
    pub open spec fn picker_writing(&self) -> bool {
        self.open_picker matches Some(p) && p.transaction_open
    }

    /// Whether keeping the open picker's colour commits the transaction that it
    /// writes in.
    pub open spec fn picker_commits(&self) -> bool {
        self.picker_writing() && self.open_picker->0.target != PickerTarget::CurrentPaint
    }

    /// What the host does to close the edit that is under way.
    pub open spec fn closing(self, transaction_open: bool) -> EditClosed {
        EditClosed {
            commit: self.picker_commits() || transaction_open,
            add_swatch: self.picker_writing(),
        }
    }

    /// The session once the edit that was under way is closed: the picked colour
    /// is kept, an open transaction has changed the document, and no drag goes on.
    pub open spec fn edit_closed(self, transaction_open: bool) -> Session {
        let kept = if self.picker_writing() {
            self.picker_kept()
        } else {
            self
        };
        Session {
            dirty: self.dirty || (transaction_open && !self.picker_commits()),
            inspector_drag: None,
            layer_drag: None,
            machine_drag: None,
            ..kept
        }
    }

    /// Ends whatever edit is under way. `transaction_open` says whether the
    /// history has an open transaction.
    pub fn finalize_open_edit(&mut self, transaction_open: bool) -> (r: EditClosed)
        ensures
            r == old(self).closing(transaction_open),
            *final(self) == old(self).edit_closed(transaction_open),
    {
        let writing = match &self.open_picker {
            Some(open) => open.transaction_open,
            None => false,
        };
        let kept = if writing {
            self.commit_picker_color().commit
        } else {
            false
        };
        if transaction_open && !kept {
            self.dirty = true;
        }
        self.inspector_drag = None;
        self.layer_drag = None;
        self.machine_drag = None;
        EditClosed { commit: kept || transaction_open, add_swatch: writing }
    }

    /// Whether everything below the nodes that are copied is there.
    pub fn may_copy(&self, doc: &Document) -> (r: bool)
        requires
            doc.wf(),
        ensures
            r == forall|i: int|
                0 <= i < doc.copyable(self.selection@).len() ==> doc.complete(
                    #[trigger] doc.copyable(self.selection@)[i],
                ),
    {
        let roots = doc.selected_roots(&self.selection);
        let ghost keep = |id: NodeId| doc.located(id) is Some && doc.is_free(id);
        let ghost taken = doc.copyable(self.selection@);
        let mut i: usize = 0;
        while i < roots.len()
            invariant
                doc.wf(),
                i <= roots@.len(),
                keep == |id: NodeId| doc.located(id) is Some && doc.is_free(id),
                taken == roots@.filter(keep),
                taken == doc.copyable(self.selection@),
                forall|j: int|
                    0 <= j < i && keep(roots@[j]) ==> doc.complete(#[trigger] roots@[j]),
            decreases roots.len() - i,
        {
            let id = roots[i];
            if doc.locate(id).is_some() && doc.free(id) && !doc.is_complete(id) {
                proof {
                    crate::seqs::lemma_filter_contains(roots@, keep, id);
                    assert(roots@[i as int] == id && keep(id));
                    let k = choose|k: int| 0 <= k < taken.len() && taken[k] == id;
                    assert(!doc.complete(doc.copyable(self.selection@)[k]));
                }
                return false;
            }
            i = i + 1;
        }
        proof {
            assert forall|k: int| 0 <= k < taken.len() implies doc.complete(#[trigger] taken[k]) by {
                let id = taken[k];
                crate::seqs::lemma_filter_contains(roots@, keep, id);
                assert(taken.contains(id));
                let j = choose|j: int| 0 <= j < roots@.len() && roots@[j] == id;
                assert(doc.complete(roots@[j]));
            }
        }
        true
    }

    /// Whether everything below the nodes that are duplicated is there.
    pub fn may_duplicate(&self, doc: &Document) -> (r: bool)
        requires
            doc.wf(),
        ensures
            r == forall|i: int|
                0 <= i < doc.duplicable(self.selection@).len() ==> doc.complete(
                    #[trigger] doc.duplicable(self.selection@)[i],
                ),
    {
        let roots = doc.selected_roots(&self.selection);
        let ghost keep = |id: NodeId| doc.is_free(id);
        let ghost taken = doc.duplicable(self.selection@);
        let mut i: usize = 0;
        while i < roots.len()
            invariant
                doc.wf(),
                i <= roots@.len(),
                keep == |id: NodeId| doc.is_free(id),
                taken == roots@.filter(keep),
                taken == doc.duplicable(self.selection@),
                forall|j: int|
                    0 <= j < i && keep(roots@[j]) ==> doc.complete(#[trigger] roots@[j]),
            decreases roots.len() - i,
        {
            let id = roots[i];
            if doc.free(id) && !doc.is_complete(id) {
                proof {
                    crate::seqs::lemma_filter_contains(roots@, keep, id);
                    assert(roots@[i as int] == id && keep(id));
                    let k = choose|k: int| 0 <= k < taken.len() && taken[k] == id;
                    assert(!doc.complete(doc.duplicable(self.selection@)[k]));
                }
                return false;
            }
            i = i + 1;
        }
        proof {
            assert forall|k: int| 0 <= k < taken.len() implies doc.complete(#[trigger] taken[k]) by {
                let id = taken[k];
                crate::seqs::lemma_filter_contains(roots@, keep, id);
                assert(taken.contains(id));
                let j = choose|j: int| 0 <= j < roots@.len() && roots@[j] == id;
                assert(doc.complete(roots@[j]));
            }
        }
        true
    }

    /// Copies the selection, and for a cut says how to remove it.
    fn clipboard_from_selection(
        &mut self,
        doc: &Document,
        cut: bool,
        transaction_open: bool,
    ) -> (r: (EditClosed, Option<Edit>))
        requires
            doc.wf(),
            forall|i: int|
                0 <= i < doc.copyable(old(self).selection@).len() ==> doc.complete(
                    #[trigger] doc.copyable(old(self).selection@)[i],
                ),
        ensures
            r.0 == old(self).closing(transaction_open),
            old(self).edit_closed(transaction_open).copy_effect(*final(self), r.1, *doc, cut),
    {
        let closed = self.finalize_open_edit(transaction_open);
        let ghost sel = self.selection@;
        let roots = doc.selected_roots(&self.selection);
        let ghost keep = |id: NodeId| doc.located(id) is Some && doc.is_free(id);
        let mut items: Vec<ClipboardItem> = Vec::new();
        let mut ids: Vec<NodeId> = Vec::new();
        let mut i: usize = 0;
        proof {
            lemma_filter_ends(roots@, keep);
        }
        while i < roots.len()
            invariant
                doc.wf(),
                i <= roots@.len(),
                roots@ == doc.roots(sel),
                keep == |id: NodeId| doc.located(id) is Some && doc.is_free(id),
                ids@ == roots@.take(i as int).filter(keep),
                forall|k: int|
                    0 <= k < doc.copyable(sel).len() ==> doc.complete(
                        #[trigger] doc.copyable(sel)[k],
                    ),
                items@.len() == ids@.len(),
                forall|k: int|
                    0 <= k < ids@.len() ==> doc.copy_of(#[trigger] items@[k], ids@[k]),
            decreases roots.len() - i,
        {
            let id = roots[i];
            proof {
                lemma_filter_step(roots@, i as int, keep);
            }
            if let Some(at) = doc.locate(id) {
                if doc.free(id) {
                    proof {
                        crate::seqs::lemma_filter_contains(roots@, keep, id);
                        assert(roots@.contains(id));
                        let all = doc.copyable(sel);
                        assert(all == roots@.filter(keep));
                        let k = choose|k: int| 0 <= k < all.len() && all[k] == id;
                        assert(doc.complete(all[k]));
                    }
                    let tree = doc.tree_of(id);
                    items.push(
                        ClipboardItem { tree, source_parent: at.parent, source_index: at.index },
                    );
                    ids.push(id);
                }
            }
            i = i + 1;
        }
        assert(ids@ == doc.copyable(sel));
        if items.len() == 0 {
            self.refuse("Nothing to copy: selection is empty or locked");
            return (closed, None);
        }
        let style_nodes = doc.immediate_style_kinds(ids[0]);
        self.clipboard = Some(ClipboardPayload { items, style_nodes });
        if cut {
            let commands = remove_all(&ids);
            let none: Vec<NodeId> = Vec::new();
            (closed, Some(Edit { label: "Cut", commands, select: Some(none) }))
        } else {
            self.repaint();
            (closed, None)
        }
    }

    /// What copying or cutting the selection does, the edit under way once closed.
    pub open spec fn copy_effect(
        self,
        after: Session,
        edit: Option<Edit>,
        doc: Document,
        cut: bool,
    ) -> bool {
        let ids = doc.copyable(self.selection@);
        if ids.len() == 0 {
            &&& edit is None
            &&& after == self.refused("Nothing to copy: selection is empty or locked")
        } else {
            &&& after == (Session {
                clipboard: after.clipboard,
                revision: if cut {
                    self.revision
                } else {
                    next_revision(self.revision)
                },
                ..self
            })
            &&& after.clipboard matches Some(payload) && {
                &&& payload.items@.len() == ids.len()
                &&& forall|k: int|
                    0 <= k < ids.len() ==> doc.copy_of(#[trigger] payload.items@[k], ids[k])
                &&& payload.style_nodes@ == doc.style_copies(ids[0])
            }
            &&& if cut {
                edit matches Some(e) && {
                    &&& e.label == "Cut"
                    &&& e.commands@ == removals(ids)
                    &&& e.select matches Some(s) && s@ == Seq::<NodeId>::empty()
                }
            } else {
                edit is None
            }
        }
    }

    /// Closes the edit under way, copies the selection and says how to remove it.
    /// Locked nodes stay.
    pub fn cut_selection(&mut self, doc: &Document, transaction_open: bool) -> (r: (
        EditClosed,
        Option<Edit>,
    ))
        requires
            doc.wf(),
            forall|i: int|
                0 <= i < doc.copyable(old(self).selection@).len() ==> doc.complete(
                    #[trigger] doc.copyable(old(self).selection@)[i],
                ),
        ensures
            r.0 == old(self).closing(transaction_open),
            old(self).edit_closed(transaction_open).copy_effect(*final(self), r.1, *doc, true),
    {
        self.clipboard_from_selection(doc, true, transaction_open)
    }

    /// Closes the edit under way and copies the selection.
    pub fn copy_selection(&mut self, doc: &Document, transaction_open: bool) -> (r: EditClosed)
        requires
            doc.wf(),
            forall|i: int|
                0 <= i < doc.copyable(old(self).selection@).len() ==> doc.complete(
                    #[trigger] doc.copyable(old(self).selection@)[i],
                ),
        ensures
            r == old(self).closing(transaction_open),
            old(self).edit_closed(transaction_open).copy_effect(*final(self), None, *doc, false),
    {
        self.clipboard_from_selection(doc, false, transaction_open).0
    }

    /// Whether there is nothing to paste.
    pub open spec fn clipboard_empty(&self) -> bool {
        match self.clipboard {
            Some(payload) => payload.items@.len() == 0,
            None => true,
        }
    }

    /// Starts pasting what was copied, a little off its place.
    pub fn paste_clipboard(&mut self, transaction_open: bool) -> (r: Option<
        (EditClosed, InsertRun),
    >)
        ensures
            if old(self).clipboard_empty() {
                &&& r is None
                &&& *final(self) == old(self).refused("Clipboard empty")
            } else {
                &&& *final(self) == old(self).edit_closed(transaction_open)
                &&& r matches Some((closed, run)) && {
                    &&& closed == old(self).closing(transaction_open)
                    &&& run.wf()
                    &&& run.label == "Paste"
                    &&& run.placement == Placement::Top
                    &&& run.next == 0
                    &&& run.created@ == Seq::<NodeId>::empty()
                    &&& same_items(run.items@, old(self).clipboard->0.items@)
                    &&& straight(run.order@, run.items@.len())
                }
            },
    {
        let items = match &self.clipboard {
            Some(payload) => copied_items(&payload.items),
            None => Vec::new(),
        };
        if items.len() == 0 {
            self.refuse("Clipboard empty");
            return None;
        }
        let order = count_up(items.len());
        let closed = self.finalize_open_edit(transaction_open);
        let run = InsertRun {
            label: "Paste",
            items,
            order,
            placement: Placement::Top,
            next: 0,
            created: Vec::new(),
        };
        Some((closed, run))
    }

    /// Starts pasting what was copied.
    pub fn paste_selection(&mut self, transaction_open: bool) -> (r: Option<
        (EditClosed, InsertRun),
    >)
        ensures
            if old(self).clipboard_empty() {
                &&& r is None
                &&& *final(self) == old(self).refused("Clipboard empty")
            } else {
                &&& *final(self) == old(self).edit_closed(transaction_open)
                &&& r matches Some((closed, run)) && {
                    &&& closed == old(self).closing(transaction_open)
                    &&& run.wf()
                    &&& run.label == "Paste"
                    &&& run.placement == Placement::Top
                    &&& run.next == 0
                    &&& run.created@ == Seq::<NodeId>::empty()
                    &&& same_items(run.items@, old(self).clipboard->0.items@)
                    &&& straight(run.order@, run.items@.len())
                }
            },
    {
        self.paste_clipboard(transaction_open)
    }

    /// Starts pasting what was copied back to where it was taken from.
    pub fn paste_clipboard_in_place(&mut self, transaction_open: bool) -> (r: Option<
        (EditClosed, InsertRun),
    >)
        ensures
            if old(self).clipboard_empty() {
                &&& r is None
                &&& *final(self) == old(self).refused("Clipboard empty")
            } else {
                &&& *final(self) == old(self).edit_closed(transaction_open)
                &&& r matches Some((closed, run)) && {
                    &&& closed == old(self).closing(transaction_open)
                    &&& run.wf()
                    &&& run.label == "Paste in place"
                    &&& run.placement == Placement::InPlace
                    &&& run.next == 0
                    &&& run.created@ == Seq::<NodeId>::empty()
                    &&& same_items(run.items@, old(self).clipboard->0.items@)
                    &&& paste_order(run.items@, run.order@)
                }
            },
    {
        let items = match &self.clipboard {
            Some(payload) => copied_items(&payload.items),
            None => Vec::new(),
        };
        if items.len() == 0 {
            self.refuse("Clipboard empty");
            return None;
        }
        let order = order_items(&items);
        let closed = self.finalize_open_edit(transaction_open);
        let run = InsertRun {
            label: "Paste in place",
            items,
            order,
            placement: Placement::InPlace,
            next: 0,
            created: Vec::new(),
        };
        Some((closed, run))
    }

    /// Closes the edit under way and starts duplicating the selection.
    pub fn duplicate_selection(&mut self, doc: &Document, transaction_open: bool) -> (r: (
        EditClosed,
        Option<InsertRun>,
    ))
        requires
            doc.wf(),
            forall|i: int|
                0 <= i < doc.duplicable(old(self).selection@).len() ==> doc.complete(
                    #[trigger] doc.duplicable(old(self).selection@)[i],
                ),
        ensures
            r.0 == old(self).closing(transaction_open),
            ({
                let ids = doc.duplicable(old(self).selection@);
                let closed = old(self).edit_closed(transaction_open);
                if ids.len() == 0 {
                    &&& r.1 is None
                    &&& *final(self) == closed.refused(
                        "Nothing to duplicate: selection is empty or locked",
                    )
                } else {
                    &&& *final(self) == closed
                    &&& r.1 matches Some(run) && {
                        &&& run.wf()
                        &&& run.label == "Duplicate"
                        &&& run.placement == Placement::Top
                        &&& run.next == 0
                        &&& run.created@ == Seq::<NodeId>::empty()
                        &&& run.items@.len() == ids.len()
                        &&& forall|k: int|
                            0 <= k < ids.len() ==> (#[trigger] run.items@[k]).tree@ == doc.rows(
                                ids[k],
                            )
                        &&& straight(run.order@, ids.len())
                    }
                }
            }),
    {
        let closed = self.finalize_open_edit(transaction_open);
        let ghost sel = self.selection@;
        let roots = doc.selected_roots(&self.selection);
        let ghost keep = |id: NodeId| doc.is_free(id);
        let ghost all = doc.duplicable(sel);
        let mut items: Vec<ClipboardItem> = Vec::new();
        let mut i: usize = 0;
        proof {
            lemma_filter_ends(roots@, keep);
        }
        while i < roots.len()
            invariant
                doc.wf(),
                i <= roots@.len(),
                roots@ == doc.roots(sel),
                keep == |id: NodeId| doc.is_free(id),
                all == roots@.filter(keep),
                forall|k: int| 0 <= k < all.len() ==> doc.complete(#[trigger] all[k]),
                items@.len() == roots@.take(i as int).filter(keep).len(),
                forall|k: int|
                    0 <= k < items@.len() ==> (#[trigger] items@[k]).tree@ == doc.rows(
                        roots@.take(i as int).filter(keep)[k],
                    ),
            decreases roots.len() - i,
        {
            let id = roots[i];
            proof {
                lemma_filter_step(roots@, i as int, keep);
            }
            if doc.free(id) {
                proof {
                    crate::seqs::lemma_filter_contains(roots@, keep, id);
                    assert(roots@.contains(id));
                    let k = choose|k: int| 0 <= k < all.len() && all[k] == id;
                    assert(doc.complete(all[k]));
                }
                let tree = doc.tree_of(id);
                items.push(
                    ClipboardItem { tree, source_parent: Parent::Comp(doc.main()), source_index: 0 },
                );
            }
            i = i + 1;
        }
        if items.len() == 0 {
            self.refuse("Nothing to duplicate: selection is empty or locked");
            return (closed, None);
        }
        let order = count_up(items.len());
        let run = InsertRun {
            label: "Duplicate",
            items,
            order,
            placement: Placement::Top,
            next: 0,
            created: Vec::new(),
        };
        (closed, Some(run))
    }

    /// Ends an insertion, its transaction committed. `doc` is the document after
    /// it. What was inserted is selected; where nothing was, a paste to the top
    /// leaves the selection, a paste in place clears it. Says whether the host
    /// evaluates the scene anew.
    pub fn finish_insert(&mut self, run: InsertRun, doc: &Document) -> (reevaluate: bool)
        requires
            doc.wf(),
        ensures
            reevaluate == (run.created@.len() > 0 || run.placement == Placement::InPlace),
            if reevaluate {
                &&& final(self).selection@ == run.created@
                &&& final(self).expanded_layers@ == old(self).expanded_layers@.union(
                    doc.ancestors_of(run.created@),
                )
                &&& *final(self) == (Session {
                    dirty: true,
                    selection: final(self).selection,
                    expanded_layers: final(self).expanded_layers,
                    revision: next_revision(old(self).revision),
                    ..*old(self)
                })
            } else {
                *final(self) == (Session { dirty: true, ..*old(self) })
            },
    {
        self.dirty = true;
        let in_place = match run.placement {
            Placement::Top => false,
            Placement::InPlace => true,
        };
        if run.created.len() == 0 && !in_place {
            return false;
        }
        self.selection = run.created;
        self.ensure_selection_visible(doc);
        self.repaint();
        true
    }
}

} // verus!
