//! The tree of groups, variables and dimensions that a dataset is browsed as.

use crate::collections::StringMap;
use crate::text::{contains_text, lowercased, occurs_in, to_lowercase};
use vstd::prelude::*;

verus! {

/// Kind of a node of the dataset tree.
#[derive(Debug, Clone, Copy, PartialEq, Eq, Structural)]
pub enum NodeType {
    /// The file itself.
    Root,
    /// A group of nodes.
    Group,
    /// A variable.
    Variable,
    /// A dimension.
    Dimension,
}

/// A node of the dataset tree.
#[derive(Debug)]
pub struct DataNode {
    /// Node name.
    pub name: String,
    /// Path of the node from the root; the key of the node within its tree.
    pub path: String,
    /// Kind of the node.
    pub node_type: NodeType,
    /// Facts about the node that are not attributes of the dataset.
    pub metadata: StringMap,
    /// Child nodes, in order.
    pub children: Vec<DataNode>,
    /// Attributes of the node.
    pub attributes: StringMap,
    /// Extents, for a variable.
    pub shape: Option<Vec<usize>>,
    /// Element type tag, for a variable.
    pub dtype: Option<String>,
}

/// A node and everything below it, as plain mathematical values.
pub struct NodeView {
    /// Node name.
    pub name: Seq<char>,
    /// Path of the node from the root.
    pub path: Seq<char>,
    /// Kind of the node.
    pub node_type: NodeType,
    /// Metadata entries in insertion order.
    pub metadata: Seq<(Seq<char>, Seq<char>)>,
    /// Child nodes, in order.
    pub children: Seq<NodeView>,
    /// Attribute entries in insertion order.
    pub attributes: Seq<(Seq<char>, Seq<char>)>,
    /// Extents, for a variable.
    pub shape: Option<Seq<usize>>,
    /// Element type tag, for a variable.
    pub dtype: Option<Seq<char>>,
}

/// Whether the lower-case form of `text` contains `query_lower`.
pub open spec fn text_matches(query_lower: Seq<char>, text: Seq<char>) -> bool {
    occurs_in(query_lower, lowercased(text))
}

/// Whether a key or a value among `entries` matches.
pub open spec fn entries_match(query_lower: Seq<char>, entries: Seq<(Seq<char>, Seq<char>)>) -> bool {
    exists|i: int|
        0 <= i < entries.len() && (text_matches(query_lower, (#[trigger] entries[i]).0)
            || text_matches(query_lower, entries[i].1))
}

impl NodeView {
    /// Whether the node is a group or the root.
    pub open spec fn is_group(self) -> bool {
        self.node_type is Group || self.node_type is Root
    }

    /// Whether the node answers a search for `query`: its name, its path, or
    /// a key or value of its attributes or metadata contains the query, all
    /// compared in lower case.
    pub open spec fn matches(self, query: Seq<char>) -> bool {
        let q = lowercased(query);
        text_matches(q, self.name) || text_matches(q, self.path) || entries_match(
            q,
            self.attributes,
        ) || entries_match(q, self.metadata)
    }
}

/// Checks whether a key or a value of `map` matches.
fn map_matches(map: &StringMap, query_lower: &str) -> (r: bool)
    ensures
        r == entries_match(query_lower@, map@),
{
    let entries = map.entries();
    let n = entries.len();
    let mut i: usize = 0;
    while i < n
        invariant
            n == entries@.len(),
            n == map@.len(),
            i <= n,
            forall|k: int|
                0 <= k < n ==> (#[trigger] entries@[k]).0@ == map@[k].0 && entries@[k].1@
                    == map@[k].1,
            forall|k: int|
                0 <= k < i ==> !text_matches(query_lower@, (#[trigger] map@[k]).0) && !text_matches(
                    query_lower@,
                    map@[k].1,
                ),
        decreases n - i,
    {
        let key = to_lowercase(entries[i].0.as_str());
        let value = to_lowercase(entries[i].1.as_str());
        if contains_text(key.as_str(), query_lower) || contains_text(value.as_str(), query_lower) {
            return true;
        }
        i += 1;
    }
    false
}

impl DataNode {
    /// The node and everything below it, as plain mathematical values.
    pub open spec fn deep(&self) -> NodeView
        decreases self,
    {
        NodeView {
            name: self.name@,
            path: self.path@,
            node_type: self.node_type,
            metadata: self.metadata@,
            children: Seq::new(
                self.children@.len(),
                |i: int|
                    if 0 <= i < self.children@.len() {
                        self.children@[i].deep()
                    } else {
                        arbitrary()
                    },
            ),
            attributes: self.attributes@,
            shape: match self.shape {
                Some(s) => Some(s@),
                None => None,
            },
            dtype: match self.dtype {
                Some(d) => Some(d@),
                None => None,
            },
        }
    }

    /// A node without children, attributes or metadata.
    pub fn new(name: String, path: String, node_type: NodeType) -> (r: DataNode)
        ensures
            r.deep() == (NodeView {
                name: name@,
                path: path@,
                node_type,
                metadata: Seq::empty(),
                children: Seq::empty(),
                attributes: Seq::empty(),
                shape: None,
                dtype: None,
            }),
    {
        let r = DataNode {
            name,
            path,
            node_type,
            metadata: StringMap::new(),
            children: Vec::new(),
            attributes: StringMap::new(),
            shape: None,
            dtype: None,
        };
        proof {
            assert(r.deep().children =~= Seq::empty());
            assert(r.deep().metadata =~= Seq::empty());
            assert(r.deep().attributes =~= Seq::empty());
        }
        r
    }

    /// Whether the node is a variable.
    pub fn is_variable(&self) -> (r: bool)
        ensures
            r == (self.node_type is Variable),
    {
        match self.node_type {
            NodeType::Variable => true,
            _ => false,
        }
    }

    /// Whether the node is a group or the root.
    pub fn is_group(&self) -> (r: bool)
        ensures
            r == self.deep().is_group(),
    {
        match self.node_type {
            NodeType::Group | NodeType::Root => true,
            _ => false,
        }
    }

    /// Appends a child.
    pub fn add_child(&mut self, child: DataNode)
        ensures
            final(self).deep() == (NodeView {
                children: old(self).deep().children.push(child.deep()),
                ..old(self).deep()
            }),
    {
        self.children.push(child);
        proof {
            assert(self.deep().children =~= old(self).deep().children.push(child.deep()));
        }
    }

    /// An independent copy of the node and everything below it.
    pub fn duplicate(&self) -> (r: DataNode)
        ensures
            r.deep() == self.deep(),
        decreases self,
    {
        let n = self.children.len();
        let mut children: Vec<DataNode> = Vec::new();
        let mut i: usize = 0;
        while i < n
            invariant
                n == self.children@.len(),
                i <= n,
                children@.len() == i,
                forall|k: int|
                    0 <= k < i ==> (#[trigger] children@[k]).deep() == self.children@[k].deep(),
            decreases n - i,
        {
            let child = self.children[i].duplicate();
            children.push(child);
            i += 1;
        }
        let shape = match &self.shape {
            Some(s) => {
                let m = s.len();
                let mut copy: Vec<usize> = Vec::new();
                let mut k: usize = 0;
                while k < m
                    invariant
                        m == s@.len(),
                        k <= m,
                        copy@.len() == k,
                        forall|a: int| 0 <= a < k ==> copy@[a] == s@[a],
                    decreases m - k,
                {
                    copy.push(s[k]);
                    k += 1;
                }
                proof {
                    assert(copy@ =~= s@);
                }
                Some(copy)
            },
            None => None,
        };
        let dtype = match &self.dtype {
            Some(d) => Some(d.clone()),
            None => None,
        };
        let r = DataNode {
            name: self.name.clone(),
            path: self.path.clone(),
            node_type: self.node_type,
            metadata: self.metadata.duplicate(),
            children,
            attributes: self.attributes.duplicate(),
            shape,
            dtype,
        };
        proof {
            assert(r.deep().children =~= self.deep().children);
        }
        r
    }

    /// Whether the node answers a search for `query`: see `NodeView::matches`.
    pub fn matches_search(&self, query: &str) -> (r: bool)
        ensures
            r == self.deep().matches(query@),
    {
        let query_lower = to_lowercase(query);
        let name = to_lowercase(self.name.as_str());
        if contains_text(name.as_str(), query_lower.as_str()) {
            return true;
        }
        let path = to_lowercase(self.path.as_str());
        if contains_text(path.as_str(), query_lower.as_str()) {
            return true;
        }
        if map_matches(&self.attributes, query_lower.as_str()) {
            return true;
        }
        map_matches(&self.metadata, query_lower.as_str())
    }
}

/// A dataset that was read: where it came from and its tree.
#[derive(Debug)]
pub struct DatasetInfo {
    /// Path of the file that the dataset was read from.
    pub file_path: String,
    /// Root of the dataset tree.
    pub root_node: DataNode,
}

impl DatasetInfo {
    /// Puts a path and a tree together.
    pub fn new(file_path: String, root_node: DataNode) -> (r: DatasetInfo)
        ensures
            r.file_path == file_path,
            r.root_node == root_node,
    {
        DatasetInfo { file_path, root_node }
    }
}

} // verus!
