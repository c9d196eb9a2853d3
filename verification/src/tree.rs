//! The dataset tree as a list: the nodes that are visible given which groups
//! are expanded, in display order, with a cursor.

use crate::collections::PathSet;
use crate::node::{DataNode, DatasetInfo, NodeView};
use crate::text::{all_distinct, same_text, texts_of};
use vstd::prelude::*;

verus! {

/// One line of the tree list.
#[derive(Debug)]
pub struct TreeItem {
    /// The node shown on the line.
    pub node: DataNode,
    /// Nesting depth; the root has depth zero.
    pub level: usize,
    /// Whether the node's children are listed below it.
    pub expanded: bool,
}

/// One line of the tree list, as plain mathematical values.
pub struct ItemView {
    /// The node shown on the line.
    pub node: NodeView,
    /// Nesting depth.
    pub level: usize,
    /// Whether the node's children are listed below it.
    pub expanded: bool,
}

impl TreeItem {
    /// The line as plain mathematical values.
    pub open spec fn deep(&self) -> ItemView {
        ItemView { node: self.node.deep(), level: self.level, expanded: self.expanded }
    }
}

/// The lines as plain mathematical values.
pub open spec fn items_view(items: Seq<TreeItem>) -> Seq<ItemView> {
    Seq::new(items.len(), |i: int| items[i].deep())
}

/// Depth of the children of a node at depth `level`.
pub open spec fn next_level(level: usize) -> usize {
    if level < usize::MAX {
        (level + 1) as usize
    } else {
        level
    }
}

/// The lines for `node` and what is visible below it: the node itself, then,
/// if its path is among the expanded ones, the lines of its children in order.
pub open spec fn visible(node: NodeView, expanded: Set<Seq<char>>, level: usize) -> Seq<ItemView>
    decreases node, 0nat,
{
    let open = expanded.contains(node.path);
    seq![ItemView { node, level, expanded: open }] + (if open {
        visible_among(node.children, expanded, next_level(level), node.children.len())
    } else {
        Seq::empty()
    })
}

/// The lines for the first `count` nodes of `children`.
pub open spec fn visible_among(
    children: Seq<NodeView>,
    expanded: Set<Seq<char>>,
    level: usize,
    count: nat,
) -> Seq<ItemView>
    decreases children, count,
{
    if count == 0 || count > children.len() {
        Seq::empty()
    } else {
        visible_among(children, expanded, level, (count - 1) as nat) + visible(
            children[count - 1],
            expanded,
            level,
        )
    }
}

/// The paths of `node` and of the nodes below it that are groups.
pub open spec fn group_paths(node: NodeView) -> Set<Seq<char>>
    decreases node, 0nat,
{
    let below = group_paths_among(node.children, node.children.len());
    if node.is_group() {
        below.insert(node.path)
    } else {
        below
    }
}

/// The paths of the groups among the first `count` nodes of `children` and
/// below them.
pub open spec fn group_paths_among(children: Seq<NodeView>, count: nat) -> Set<Seq<char>>
    decreases children, count,
{
    if count == 0 || count > children.len() {
        Set::empty()
    } else {
        group_paths_among(children, (count - 1) as nat).union(group_paths(children[count - 1]))
    }
}

/// Appends the lines for `node` and what is visible below it to `items`.
pub fn collect_visible(
    node: &DataNode,
    expanded: &PathSet,
    level: usize,
    items: &mut Vec<TreeItem>,
)
    ensures
        items_view(final(items)@) == items_view(old(items)@) + visible(
            node.deep(),
            expanded@,
            level,
        ),
    decreases node,
{
    let open = expanded.contains(node.path.as_str());
    let ghost head = ItemView { node: node.deep(), level, expanded: open };
    items.push(TreeItem { node: node.duplicate(), level, expanded: open });
    if open {
        let below: usize = if level < usize::MAX {
            level + 1
        } else {
            level
        };
        let n = node.children.len();
        let mut i: usize = 0;
        while i < n
            invariant
                n == node.children@.len(),
                i <= n,
                below == next_level(level),
                items_view(items@) == items_view(old(items)@) + seq![head] + visible_among(
                    node.deep().children,
                    expanded@,
                    below,
                    i as nat,
                ),
            decreases n - i,
        {
            let ghost before = items_view(items@);
            collect_visible(&node.children[i], expanded, below, items);
            i += 1;
        }
    } else {
    }
}

/// Adds the paths of `node` and of the nodes below it that are groups to `paths`.
pub fn collect_group_paths(node: &DataNode, paths: &mut PathSet)
    ensures
        final(paths)@ == old(paths)@.union(group_paths(node.deep())),
    decreases node,
{
    let n = node.children.len();
    let mut i: usize = 0;
    while i < n
        invariant
            n == node.children@.len(),
            i <= n,
            paths@ == old(paths)@.union(group_paths_among(node.deep().children, i as nat)),
        decreases n - i,
    {
        collect_group_paths(&node.children[i], paths);
        i += 1;
    }
    if node.is_group() {
        paths.insert(node.path.clone());
    }
}

/// The paths of `node` and of every node below it, a node before its
/// children and children in order.
pub open spec fn all_paths(node: NodeView) -> Seq<Seq<char>>
    decreases node, 0nat,
{
    seq![node.path] + paths_among(node.children, node.children.len())
}

/// The paths of the first `count` nodes of `children` and of the nodes below them.
pub open spec fn paths_among(children: Seq<NodeView>, count: nat) -> Seq<Seq<char>>
    decreases children, count,
{
    if count == 0 || count > children.len() {
        Seq::empty()
    } else {
        paths_among(children, (count - 1) as nat) + all_paths(children[count - 1])
    }
}

/// Whether every node at and below `node` has a path of its own, so that a
/// path is a key within the tree.
pub open spec fn paths_are_keys(node: NodeView) -> bool {
    all_paths(node).no_duplicates()
}

/// Appends the paths of `node` and of every node below it to `paths`.
pub fn collect_paths(node: &DataNode, paths: &mut Vec<String>)
    ensures
        texts_of(final(paths)@) == texts_of(old(paths)@) + all_paths(node.deep()),
    decreases node,
{
    paths.push(node.path.clone());
    let ghost head = texts_of(old(paths)@) + seq![node.path@];
    let n = node.children.len();
    let mut i: usize = 0;
    while i < n
        invariant
            n == node.children@.len(),
            i <= n,
            texts_of(paths@) == head + paths_among(node.deep().children, i as nat),
        decreases n - i,
    {
        collect_paths(&node.children[i], paths);
        i += 1;
    }
}

/// Checks that every node at and below `node` has a path of its own.
pub fn has_unique_paths(node: &DataNode) -> (r: bool)
    ensures
        r == paths_are_keys(node.deep()),
{
    let mut paths: Vec<String> = Vec::new();
    collect_paths(node, &mut paths);
    all_distinct(&paths)
}

/// What a tree list holds, as plain mathematical values.
pub struct TreeModel {
    /// The tree that is listed, if one was given.
    pub root: Option<NodeView>,
    /// Paths of the nodes whose children are listed.
    pub expanded: Set<Seq<char>>,
    /// Index of the line under the cursor.
    pub cursor: usize,
}

impl TreeModel {
    /// The lines of the list: empty without a tree.
    pub open spec fn items(self) -> Seq<ItemView> {
        match self.root {
            Some(root) => visible(root, self.expanded, 0),
            None => Seq::empty(),
        }
    }

    /// The state after the group on line `index` was expanded: nothing
    /// changes unless the line exists and shows a collapsed group.
    pub open spec fn expanded_at(self, index: int) -> TreeModel {
        if 0 <= index < self.items().len() && self.items()[index].node.is_group()
            && !self.items()[index].expanded {
            TreeModel { expanded: self.expanded.insert(self.items()[index].node.path), ..self }
        } else {
            self
        }
    }

    /// The state after the group on line `index` was collapsed: nothing
    /// changes unless the line exists and shows an expanded group.
    pub open spec fn collapsed_at(self, index: int) -> TreeModel {
        if 0 <= index < self.items().len() && self.items()[index].node.is_group()
            && self.items()[index].expanded {
            TreeModel { expanded: self.expanded.remove(self.items()[index].node.path), ..self }
        } else {
            self
        }
    }

    /// The state after the node on line `index` changed between expanded and
    /// collapsed: nothing changes unless the line exists.
    pub open spec fn toggled_at(self, index: int) -> TreeModel {
        if 0 <= index < self.items().len() {
            if self.items()[index].expanded {
                TreeModel { expanded: self.expanded.remove(self.items()[index].node.path), ..self }
            } else {
                TreeModel { expanded: self.expanded.insert(self.items()[index].node.path), ..self }
            }
        } else {
            self
        }
    }

    /// Whether every line has a path other than `path`.
    pub open spec fn lacks_path(self, path: Seq<char>) -> bool {
        forall|k: int| 0 <= k < self.items().len() ==> (#[trigger] self.items()[k]).node.path != path
    }

    /// The index of the first line whose node has the given path, if any.
    pub open spec fn first_with_path(self, path: Seq<char>, i: int) -> bool {
        &&& 0 <= i < self.items().len()
        &&& self.items()[i].node.path == path
        &&& forall|k: int| 0 <= k < i ==> (#[trigger] self.items()[k]).node.path != path
    }
}

/// The dataset tree as a list with a cursor.
#[derive(Debug)]
pub struct TreeState {
    items: Vec<TreeItem>,
    cursor: usize,
    root: Option<DataNode>,
    expanded_paths: PathSet,
}

impl TreeState {
    /// What the list holds, as plain mathematical values.
    pub closed spec fn view(&self) -> TreeModel {
        TreeModel {
            root: match self.root {
                Some(r) => Some(r.deep()),
                None => None,
            },
            expanded: self.expanded_paths@,
            cursor: self.cursor,
        }
    }

    /// The stored lines are the visible lines of the stored tree.
    pub closed spec fn inv(&self) -> bool {
        items_view(self.items@) == self@.items()
    }

    /// An empty list.
    pub fn new() -> (r: TreeState)
        ensures
            r.inv(),
            r@ == (TreeModel { root: None, expanded: Set::empty(), cursor: 0 }),
    {
        let r = TreeState {
            items: Vec::new(),
            cursor: 0,
            root: None,
            expanded_paths: PathSet::new(),
        };
        proof {
            assert(items_view(r.items@) =~= r@.items());
        }
        r
    }

    fn rebuild_visible_items(&mut self)
        ensures
            final(self)@ == old(self)@,
            final(self).inv(),
    {
        let mut items: Vec<TreeItem> = Vec::new();
        match &self.root {
            Some(root) => {
                collect_visible(root, &self.expanded_paths, 0, &mut items);
            },
            None => {
                proof {
                    assert(items_view(items@) =~= self@.items());
                }
            },
        }
        self.items = items;
    }

    /// Lists the tree of `dataset` with only its root expanded and the
    /// cursor on the first line.
    pub fn build_from_dataset(&mut self, dataset: &DatasetInfo)
        ensures
            final(self).inv(),
            final(self)@ == (TreeModel {
                root: Some(dataset.root_node.deep()),
                expanded: Set::empty().insert(dataset.root_node.path@),
                cursor: 0,
            }),
    {
        self.root = Some(dataset.root_node.duplicate());
        self.expanded_paths.clear();
        self.expanded_paths.insert(dataset.root_node.path.clone());
        self.cursor = 0;
        self.rebuild_visible_items();
    }

    /// Moves the cursor up one line, if it is not on the first.
    pub fn cursor_up(&mut self)
        requires
            old(self).inv(),
        ensures
            final(self).inv(),
            final(self)@ == (TreeModel {
                cursor: if old(self)@.cursor > 0 {
                    (old(self)@.cursor - 1) as usize
                } else {
                    0
                },
                ..old(self)@
            }),
    {
        if self.cursor > 0 {
            self.cursor -= 1;
        }
    }

    /// Moves the cursor down one line, if there is a line below it.
    pub fn cursor_down(&mut self)
        requires
            old(self).inv(),
        ensures
            final(self).inv(),
            final(self)@ == (TreeModel {
                cursor: if old(self)@.cursor + 1 < old(self)@.items().len() {
                    (old(self)@.cursor + 1) as usize
                } else {
                    old(self)@.cursor
                },
                ..old(self)@
            }),
    {
        if self.cursor < self.items.len() && self.cursor + 1 < self.items.len() {
            self.cursor += 1;
        }
    }

    /// Lists the children of the node under the cursor, if it is a group
    /// that is not expanded yet.
    pub fn expand_current(&mut self)
        requires
            old(self).inv(),
        ensures
            final(self).inv(),
            final(self)@ == old(self)@.expanded_at(old(self)@.cursor as int),
    {
        if self.cursor < self.items.len() {
            let item = &self.items[self.cursor];
            if item.node.is_group() && !item.expanded {
                let path = item.node.path.clone();
                self.expanded_paths.insert(path);
                self.rebuild_visible_items();
            }
        }
    }

    /// Hides the children of the node under the cursor, if it is an expanded group.
    pub fn collapse_current(&mut self)
        requires
            old(self).inv(),
        ensures
            final(self).inv(),
            final(self)@ == old(self)@.collapsed_at(old(self)@.cursor as int),
    {
        if self.cursor < self.items.len() {
            let item = &self.items[self.cursor];
            if item.node.is_group() && item.expanded {
                let path = item.node.path.clone();
                self.expanded_paths.remove(path.as_str());
                self.rebuild_visible_items();
            }
        }
    }

    /// Expands the node on line `index` if it is collapsed and collapses it
    /// if it is expanded. Does nothing if there is no such line.
    pub fn toggle_expand(&mut self, index: usize)
        requires
            old(self).inv(),
        ensures
            final(self).inv(),
            final(self)@ == old(self)@.toggled_at(index as int),
    {
        if index >= self.items.len() {
            return ;
        }
        let item = &self.items[index];
        let path = item.node.path.clone();
        if item.expanded {
            self.expanded_paths.remove(path.as_str());
        } else {
            self.expanded_paths.insert(path);
        }
        self.rebuild_visible_items();
    }

    /// Puts the cursor on the first line.
    pub fn goto_first(&mut self)
        requires
            old(self).inv(),
        ensures
            final(self).inv(),
            final(self)@ == (TreeModel { cursor: 0, ..old(self)@ }),
    {
        self.cursor = 0;
    }

    /// Puts the cursor on the last line, if there is one.
    pub fn goto_last(&mut self)
        requires
            old(self).inv(),
        ensures
            final(self).inv(),
            final(self)@ == (TreeModel {
                cursor: if old(self)@.items().len() > 0 {
                    (old(self)@.items().len() - 1) as usize
                } else {
                    old(self)@.cursor
                },
                ..old(self)@
            }),
    {
        if self.items.len() > 0 {
            self.cursor = self.items.len() - 1;
        }
    }

    /// The lines of the list, in display order.
    pub fn visible_items(&self) -> (r: Vec<&TreeItem>)
        requires
            self.inv(),
        ensures
            r@.len() == self@.items().len(),
            forall|i: int| 0 <= i < r@.len() ==> (#[trigger] r@[i]).deep() == self@.items()[i],
    {
        let n = self.items.len();
        let mut out: Vec<&TreeItem> = Vec::new();
        let mut i: usize = 0;
        while i < n
            invariant
                n == self.items@.len(),
                i <= n,
                out@.len() == i,
                forall|k: int| 0 <= k < i ==> *(#[trigger] out@[k]) == self.items@[k],
            decreases n - i,
        {
            out.push(&self.items[i]);
            i += 1;
        }
        proof {
            assert forall|k: int| 0 <= k < out@.len() implies (#[trigger] out@[k]).deep()
                == self@.items()[k] by {
            }
        }
        out
    }

    /// Index of the line under the cursor.
    pub fn cursor(&self) -> (r: usize)
        ensures
            r == self@.cursor,
    {
        self.cursor
    }

    /// Number of lines.
    pub fn len(&self) -> (r: usize)
        requires
            self.inv(),
        ensures
            r == self@.items().len(),
    {
        self.items.len()
    }

    /// Whether the node with the given path is expanded.
    pub fn is_expanded(&self, path: &str) -> (r: bool)
        ensures
            r == self@.expanded.contains(path@),
    {
        self.expanded_paths.contains(path)
    }

    /// The node under the cursor, if the cursor is on a line.
    pub fn current_node(&self) -> (r: Option<&DataNode>)
        requires
            self.inv(),
        ensures
            match r {
                Some(node) => self@.cursor < self@.items().len() && node.deep()
                    == self@.items()[self@.cursor as int].node,
                None => self@.cursor >= self@.items().len(),
            },
    {
        if self.cursor < self.items.len() {
            Some(&self.items[self.cursor].node)
        } else {
            None
        }
    }

    /// Puts the cursor on the first line whose node has the given path.
    /// Leaves it where it is if there is no such line.
    pub fn goto_node(&mut self, target_path: &str)
        requires
            old(self).inv(),
        ensures
            final(self).inv(),
            final(self)@.root == old(self)@.root,
            final(self)@.expanded == old(self)@.expanded,
            if old(self)@.lacks_path(target_path@) {
                final(self)@.cursor == old(self)@.cursor
            } else {
                old(self)@.first_with_path(target_path@, final(self)@.cursor as int)
            },
    {
        let n = self.items.len();
        let mut i: usize = 0;
        while i < n
            invariant
                n == self.items@.len(),
                i <= n,
                *self == *old(self),
                self.inv(),
                forall|k: int| 0 <= k < i ==> (#[trigger] self@.items()[k]).node.path != target_path@,
            decreases n - i,
        {
            if same_text(self.items[i].node.path.as_str(), target_path) {
                self.cursor = i;
                return ;
            }
            i += 1;
        }
    }

    /// Expands every group of the tree.
    pub fn expand_all(&mut self)
        requires
            old(self).inv(),
        ensures
            final(self).inv(),
            final(self)@ == (TreeModel {
                expanded: match old(self)@.root {
                    Some(root) => old(self)@.expanded.union(group_paths(root)),
                    None => old(self)@.expanded,
                },
                ..old(self)@
            }),
    {
        let mut paths = self.expanded_paths.duplicate();
        match &self.root {
            Some(root) => {
                collect_group_paths(root, &mut paths);
            },
            None => {},
        }
        self.expanded_paths = paths;
        self.rebuild_visible_items();
    }
}

impl Default for TreeState {
    fn default() -> (r: TreeState)
        ensures
            r.inv(),
            r@ == (TreeModel { root: None, expanded: Set::empty(), cursor: 0 }),
    {
        TreeState::new()
    }
}

} // verus!
