//! The texts that describe a node: its line in the tree, the outline of a
//! whole tree, and the summary of a single node.

use crate::collections::StringMap;
use crate::node::{DataNode, NodeType, NodeView};
use crate::text::{decimal, lowercased, push_char, push_decimal, texts_of, to_lowercase};
use vstd::prelude::*;

verus! {

/// Index of the first comma followed by a space in `text`, or `-1`.
pub open spec fn first_separator(text: Seq<char>) -> int
    decreases text.len(),
{
    if text.len() < 2 {
        -1
    } else if text[0] == ',' && text[1] == ' ' {
        0
    } else {
        let rest = first_separator(text.drop_first());
        if rest < 0 {
            -1
        } else {
            rest + 1
        }
    }
}

/// The separator found lies within the text.
pub proof fn lemma_first_separator(text: Seq<char>)
    ensures
        first_separator(text) >= 0 ==> first_separator(text) + 2 <= text.len() && text[first_separator(
            text,
        )] == ',' && text[first_separator(text) + 1] == ' ',
        first_separator(text) >= -1,
        forall|i: int|
            0 <= i && i + 1 < text.len() && (first_separator(text) < 0 || i < first_separator(text))
                ==> !(text[i] == ',' && #[trigger] text[i + 1] == ' '),
    decreases text.len(),
{
    if text.len() >= 2 && !(text[0] == ',' && text[1] == ' ') {
        let rest = text.drop_first();
        lemma_first_separator(rest);
        assert forall|i: int|
            0 <= i && i + 1 < text.len() && (first_separator(text) < 0 || i < first_separator(
                text,
            )) implies !(text[i] == ',' && #[trigger] text[i + 1] == ' ') by {
            if i > 0 {
                assert(rest[i - 1] == text[i]);
                assert(rest[i - 1 + 1] == text[i + 1]);
            }
        }
        if first_separator(rest) >= 0 {
            assert(rest[first_separator(rest)] == text[first_separator(rest) + 1]);
            assert(rest[first_separator(rest) + 1] == text[first_separator(rest) + 2]);
        }
    }
}

/// The names in a list written with a comma and a space between them.
pub open spec fn listed_names(text: Seq<char>) -> Seq<Seq<char>>
    decreases text.len(),
{
    let at = first_separator(text);
    if 0 <= at && at + 2 <= text.len() {
        seq![text.take(at)] + listed_names(text.skip(at + 2))
    } else {
        seq![text]
    }
}

/// Splits a list written with a comma and a space between its names.
pub fn split_names(text: &str) -> (r: Vec<String>)
    ensures
        texts_of(r@) == listed_names(text@),
{
    let n = text.unicode_len();
    let mut out: Vec<String> = Vec::new();
    let mut piece = String::new();
    let mut start: usize = 0;
    let mut i: usize = 0;
    proof {
        assert(text@.skip(0) =~= text@);
        assert(texts_of(out@) =~= Seq::empty());
        assert(text@.skip(0).take(0) =~= Seq::empty());
    }
    while i < n
        invariant
            n == text@.len(),
            start <= i <= n,
            texts_of(out@) + listed_names(text@.skip(start as int)) == listed_names(text@),
            piece@ == text@.subrange(start as int, i as int),
            forall|k: int|
                start <= k < i && k + 1 < n ==> !(text@[k] == ',' && #[trigger] text@[k + 1] == ' '),
        decreases n - i,
    {
        let c = text.get_char(i);
        if c == ',' && i + 1 < n && text.get_char(i + 1) == ' ' {
            proof {
                let rest = text@.skip(start as int);
                lemma_first_separator(rest);
                let at = first_separator(rest);
                assert(rest[i - start] == ',' && rest[i - start + 1] == ' ');
                if at < 0 || at > i - start {
                    assert(!(rest[i - start] == ',' && rest[i - start + 1] == ' '));
                }
                if at < i - start {
                    assert(rest[at] == text@[start + at]);
                    assert(rest[at + 1] == text@[start + at + 1]);
                }
                assert(at == i - start);
                assert(rest.take(at) =~= piece@);
                assert(rest.skip(at + 2) =~= text@.skip(i + 2));
                assert(texts_of(out@.push(piece)) =~= texts_of(out@) + seq![piece@]);
            }
            out.push(piece);
            piece = String::new();
            i += 2;
            start = i;
            proof {
                assert(piece@ =~= text@.subrange(start as int, i as int));
            }
        } else {
            push_char(&mut piece, c);
            proof {
                assert(piece@ =~= text@.subrange(start as int, i + 1));
            }
            i += 1;
        }
    }
    proof {
        let rest = text@.skip(start as int);
        lemma_first_separator(rest);
        let at = first_separator(rest);
        if at >= 0 {
            assert(rest[at] == text@[start + at]);
            assert(rest[at + 1] == text@[start + at + 1]);
        }
        assert(at < 0);
        assert(piece@ =~= rest);
        assert(texts_of(out@.push(piece)) =~= texts_of(out@) + seq![piece@]);
    }
    out.push(piece);
    out
}

/// The picture in front of a node of the given kind.
pub open spec fn icon_text(kind: NodeType) -> Seq<char> {
    match kind {
        NodeType::Root => "🏠"@,
        NodeType::Group => "📂"@,
        NodeType::Variable => "🌡️"@,
        NodeType::Dimension => "📏"@,
    }
}

/// The first `count` dimensions written as `name=extent`, with a comma and a
/// space between them.
pub open spec fn dims_text(names: Seq<Seq<char>>, shape: Seq<usize>, count: nat) -> Seq<char>
    decreases count,
{
    if count == 0 {
        Seq::empty()
    } else {
        let entry = names[count - 1] + seq!['='] + decimal(shape[count - 1] as nat);
        if count == 1 {
            entry
        } else {
            dims_text(names, shape, (count - 1) as nat) + seq![',', ' '] + entry
        }
    }
}

/// The value stored under `key` among `entries`, if any.
pub open spec fn value_of(entries: Seq<(Seq<char>, Seq<char>)>, key: Seq<char>) -> Option<
    Seq<char>,
>
    decreases entries.len(),
{
    if entries.len() == 0 {
        None
    } else if entries.last().0 == key {
        Some(entries.last().1)
    } else {
        value_of(entries.drop_last(), key)
    }
}

/// Number of dimensions that have both a name and an extent.
pub open spec fn named_dims(node: NodeView) -> nat {
    match (value_of(node.metadata, "dims"@), node.shape) {
        (Some(dims), Some(shape)) => if dims.len() == 0 {
            0
        } else if listed_names(dims).len() <= shape.len() {
            listed_names(dims).len()
        } else {
            shape.len()
        },
        _ => 0,
    }
}

/// What follows the name of a variable: its dimensions with their extents
/// in parentheses, its rank in brackets, and its element type in lower case,
/// each preceded by a space and each left out if it is not known.
pub open spec fn variable_suffix(node: NodeView) -> Seq<char> {
    let dims = if named_dims(node) > 0 {
        seq![' ', '('] + dims_text(
            listed_names(value_of(node.metadata, "dims"@).unwrap()),
            node.shape.unwrap(),
            named_dims(node),
        ) + seq![')']
    } else {
        Seq::empty()
    };
    let rank = match node.shape {
        Some(shape) => if shape.len() > 0 {
            seq![' ', '['] + decimal(shape.len()) + seq!['D', ']']
        } else {
            Seq::empty()
        },
        None => Seq::empty(),
    };
    let kind = match node.dtype {
        Some(dtype) => seq![' '] + lowercased(dtype),
        None => Seq::empty(),
    };
    dims + rank + kind
}

/// The line that shows a node in the tree: its picture, its name, and for a
/// variable its dimensions, rank and type, for a group the number of its
/// children in parentheses.
pub open spec fn display_text(node: NodeView) -> Seq<char> {
    icon_text(node.node_type) + seq![' '] + node.name + match node.node_type {
        NodeType::Variable => variable_suffix(node),
        NodeType::Group | NodeType::Root => seq![' ', '('] + decimal(node.children.len()) + seq![
            ')',
        ],
        NodeType::Dimension => Seq::empty(),
    }
}

/// Looks up `key` in a map.
fn lookup<'a>(map: &'a StringMap, key: &str) -> (r: Option<&'a String>)
    ensures
        match r {
            Some(v) => value_of(map@, key@) == Some(v@),
            None => value_of(map@, key@) is None,
        },
{
    let r = map.get(key);
    let entries = map.entries();
    proof {
        lemma_value_of(map@, key@);
    }
    r
}

/// `value_of` finds the value of the only entry with the key, and nothing
/// if there is no such entry.
pub proof fn lemma_value_of(entries: Seq<(Seq<char>, Seq<char>)>, key: Seq<char>)
    requires
        crate::collections::keys_distinct(entries),
    ensures
        forall|i: int|
            0 <= i < entries.len() && (#[trigger] entries[i]).0 == key ==> value_of(entries, key)
                == Some(entries[i].1),
        !crate::collections::has_key(entries, key) ==> value_of(entries, key) is None,
    decreases entries.len(),
{
    if entries.len() > 0 {
        let shorter = entries.drop_last();
        assert forall|i: int, j: int| 0 <= i < j < shorter.len() implies shorter[i].0
            != shorter[j].0 by {
            assert(entries[i].0 != entries[j].0);
        }
        lemma_value_of(shorter, key);
        assert forall|i: int|
            0 <= i < entries.len() && (#[trigger] entries[i]).0 == key implies value_of(
            entries,
            key,
        ) == Some(entries[i].1) by {
            if i < shorter.len() {
                assert(shorter[i] == entries[i]);
                assert(entries[i].0 != entries[entries.len() - 1].0);
            }
        }
        if !crate::collections::has_key(entries, key) {
            assert(entries[entries.len() - 1].0 != key);
            assert forall|i: int| 0 <= i < shorter.len() implies (#[trigger] shorter[i]).0
                != key by {
                assert(entries[i].0 != key);
            }
        }
    }
}

/// Appends the suffix of a variable to `out`.
fn push_variable_suffix(out: &mut String, node: &DataNode)
    ensures
        final(out)@ == old(out)@ + variable_suffix(node.deep()),
{
    let ghost view = node.deep();
    let ghost start = out@;
    match (lookup(&node.metadata, "dims"), &node.shape) {
        (Some(dims), Some(shape)) => {
            if dims.as_str().unicode_len() > 0 {
                let names = split_names(dims.as_str());
                let count = if names.len() <= shape.len() {
                    names.len()
                } else {
                    shape.len()
                };
                proof {
                    assert(texts_of(names@).len() == names@.len());
                    assert(count == named_dims(view));
                }
                if count > 0 {
                    out.append(" (");
                    proof {
                        reveal_strlit(" (");
                        assert(out@ =~= start + seq![' ', '(']);
                    }
                    let mut i: usize = 0;
                    while i < count
                        invariant
                            i <= count,
                            count <= names@.len(),
                            count <= shape@.len(),
                            texts_of(names@) == listed_names(dims@),
                            out@ == start + seq![' ', '('] + dims_text(
                                listed_names(dims@),
                                shape@,
                                i as nat,
                            ),
                        decreases count - i,
                    {
                        let ghost before = out@;
                        if i > 0 {
                            out.append(", ");
                            proof {
                                reveal_strlit(", ");
                            }
                        }
                        out.append(names[i].as_str());
                        push_char(out, '=');
                        push_decimal(out, shape[i]);
                        proof {
                            assert(texts_of(names@)[i as int] == names@[i as int]@);
                            assert(out@ =~= start + seq![' ', '('] + dims_text(
                                listed_names(dims@),
                                shape@,
                                (i + 1) as nat,
                            ));
                        }
                        i += 1;
                    }
                    push_char(out, ')');
                }
            } else {
                proof {
                    assert(named_dims(view) == 0);
                }
            }
        },
        _ => {},
    }
    let ghost after_dims = out@;
    proof {
        assert(after_dims =~= start + (if named_dims(view) > 0 {
            seq![' ', '('] + dims_text(
                listed_names(value_of(view.metadata, "dims"@).unwrap()),
                view.shape.unwrap(),
                named_dims(view),
            ) + seq![')']
        } else {
            Seq::empty()
        }));
    }
    match &node.shape {
        Some(shape) => {
            if shape.len() > 0 {
                out.append(" [");
                push_decimal(out, shape.len());
                out.append("D]");
                proof {
                    reveal_strlit(" [");
                    reveal_strlit("D]");
                    assert(out@ =~= after_dims + (seq![' ', '['] + decimal(shape@.len()) + seq![
                        'D',
                        ']',
                    ]));
                }
            }
        },
        None => {},
    }
    let ghost after_rank = out@;
    match &node.dtype {
        Some(dtype) => {
            push_char(out, ' ');
            let lower = to_lowercase(dtype.as_str());
            out.append(lower.as_str());
            proof {
                assert(out@ =~= after_rank + (seq![' '] + lowercased(dtype@)));
            }
        },
        None => {},
    }
    proof {
        assert(out@ =~= start + variable_suffix(view));
    }
}

impl DataNode {
    /// The line that shows the node in the tree: see `display_text`.
    pub fn display_name(&self) -> (r: String)
        ensures
            r@ == display_text(self.deep()),
    {
        let icon = match self.node_type {
            NodeType::Root => "🏠",
            NodeType::Group => "📂",
            NodeType::Variable => "🌡️",
            NodeType::Dimension => "📏",
        };
        let mut out = String::new();
        out.append(icon);
        push_char(&mut out, ' ');
        out.append(self.name.as_str());
        let ghost head = out@;
        proof {
            assert(head =~= icon_text(self.node_type) + seq![' '] + self.name@);
        }
        match self.node_type {
            NodeType::Variable => {
                push_variable_suffix(&mut out, self);
            },
            NodeType::Group | NodeType::Root => {
                out.append(" (");
                push_decimal(&mut out, self.children.len());
                push_char(&mut out, ')');
                proof {
                    reveal_strlit(" (");
                    assert(out@ =~= head + (seq![' ', '('] + decimal(self.children@.len()) + seq![
                        ')',
                    ]));
                }
            },
            NodeType::Dimension => {
                proof {
                    assert(out@ =~= head + Seq::<char>::empty());
                }
            },
        }
        out
    }
}

/// What joins a line of the outline to the line of its parent: a corner for
/// the last child, a branch for every other.
pub open spec fn connector(is_last: bool) -> Seq<char> {
    if is_last {
        "└── "@
    } else {
        "├── "@
    }
}

/// What the lines below a node are indented with: blanks below a last
/// child, a vertical bar and blanks below every other.
pub open spec fn indent(is_last: bool) -> Seq<char> {
    if is_last {
        "    "@
    } else {
        "│   "@
    }
}

/// The outline of the tree below and including `node`: one line per node,
/// a node before its children, each line made of the prefix, the connector
/// and the node's display line.
pub open spec fn outline(node: NodeView, prefix: Seq<char>, is_last: bool) -> Seq<char>
    decreases node, 0nat,
{
    prefix + connector(is_last) + display_text(node) + seq!['\n'] + outline_among(
        node.children,
        prefix + indent(is_last),
        node.children.len(),
    )
}

/// The outlines of the first `count` nodes of `children`.
pub open spec fn outline_among(children: Seq<NodeView>, prefix: Seq<char>, count: nat) -> Seq<char>
    decreases children, count,
{
    if count == 0 || count > children.len() {
        Seq::empty()
    } else {
        outline_among(children, prefix, (count - 1) as nat) + outline(
            children[count - 1],
            prefix,
            count == children.len(),
        )
    }
}

/// Number of equals signs under the heading of a tree outline.
pub const RULE_WIDTH: usize = 80;

/// The text that describes a whole tree: a heading, which names the file
/// if a name is given, a rule of equals signs, a blank line and the outline.
pub open spec fn tree_text(node: NodeView, file_name: Option<Seq<char>>) -> Seq<char> {
    (match file_name {
        Some(name) => "Tree Structure: "@ + name + seq!['\n'],
        None => "Tree Structure\n"@,
    }) + Seq::new(RULE_WIDTH as nat, |i: int| '=') + seq!['\n', '\n'] + outline(
        node,
        Seq::empty(),
        true,
    )
}

/// Appends the outline of `node` to `out`.
fn push_outline(out: &mut String, node: &DataNode, prefix: &str, is_last: bool)
    ensures
        final(out)@ == old(out)@ + outline(node.deep(), prefix@, is_last),
    decreases node,
{
    let ghost start = out@;
    out.append(prefix);
    out.append(
        if is_last {
            "└── "
        } else {
            "├── "
        },
    );
    let line = node.display_name();
    out.append(line.as_str());
    push_char(out, '\n');
    let mut below = String::new();
    below.append(prefix);
    below.append(
        if is_last {
            "    "
        } else {
            "│   "
        },
    );
    let ghost head = start + prefix@ + connector(is_last) + display_text(node.deep()) + seq!['\n'];
    proof {
        assert(out@ =~= head);
        assert(below@ =~= prefix@ + indent(is_last));
        assert(out@ =~= head + outline_among(node.deep().children, below@, 0));
    }
    let n = node.children.len();
    let mut i: usize = 0;
    while i < n
        invariant
            n == node.children@.len(),
            i <= n,
            out@ == head + outline_among(node.deep().children, below@, i as nat),
        decreases n - i,
    {
        push_outline(out, &node.children[i], below.as_str(), i + 1 == n);
        proof {
            assert(node.deep().children[i as int] == node.children@[i as int].deep());
            assert(out@ =~= head + outline_among(node.deep().children, below@, (i + 1) as nat));
        }
        i += 1;
    }
    proof {
        assert(out@ =~= start + outline(node.deep(), prefix@, is_last));
    }
}

/// The text that describes the tree below `node`: see `tree_text`.
pub fn tree_structure_text(node: &DataNode, file_name: Option<&str>) -> (r: String)
    ensures
        r@ == tree_text(
            node.deep(),
            match file_name {
                Some(name) => Some(name@),
                None => None,
            },
        ),
{
    let mut out = String::new();
    match file_name {
        Some(name) => {
            out.append("Tree Structure: ");
            out.append(name);
            push_char(&mut out, '\n');
        },
        None => {
            out.append("Tree Structure\n");
        },
    }
    let ghost heading = out@;
    let mut i: usize = 0;
    proof {
        assert(out@ =~= heading + Seq::new(0, |k: int| '='));
    }
    while i < RULE_WIDTH
        invariant
            i <= RULE_WIDTH,
            out@ == heading + Seq::new(i as nat, |k: int| '='),
        decreases RULE_WIDTH - i,
    {
        push_char(&mut out, '=');
        proof {
            assert(out@ =~= heading + Seq::new((i + 1) as nat, |k: int| '='));
        }
        i += 1;
    }
    push_char(&mut out, '\n');
    push_char(&mut out, '\n');
    let ghost before = out@;
    push_outline(&mut out, node, "", true);
    proof {
        reveal_strlit("");
        assert(""@ =~= Seq::<char>::empty());
        assert(before =~= heading + Seq::new(RULE_WIDTH as nat, |k: int| '=') + seq!['\n', '\n']);
        assert(out@ =~= tree_text(
            node.deep(),
            match file_name {
                Some(name) => Some(name@),
                None => None,
            },
        ));
    }
    out
}

/// The name of a node kind.
pub open spec fn kind_text(kind: NodeType) -> Seq<char> {
    match kind {
        NodeType::Root => "Root"@,
        NodeType::Group => "Group"@,
        NodeType::Variable => "Variable"@,
        NodeType::Dimension => "Dimension"@,
    }
}

/// The first `count` extents with a comma and a space between them.
pub open spec fn extents_text(shape: Seq<usize>, count: nat) -> Seq<char>
    decreases count,
{
    if count == 0 {
        Seq::empty()
    } else if count == 1 {
        decimal(shape[0] as nat)
    } else {
        extents_text(shape, (count - 1) as nat) + seq![',', ' '] + decimal(shape[count - 1] as nat)
    }
}

/// The first `count` entries, one per line, as two blanks, the key, a colon,
/// a blank and the value.
pub open spec fn entries_text(entries: Seq<(Seq<char>, Seq<char>)>, count: nat) -> Seq<char>
    decreases count,
{
    if count == 0 || count > entries.len() {
        Seq::empty()
    } else {
        entries_text(entries, (count - 1) as nat) + seq![' ', ' '] + entries[count - 1].0 + seq![
            ':',
            ' ',
        ] + entries[count - 1].1 + seq!['\n']
    }
}

/// A titled block of entries; nothing if there are no entries.
pub open spec fn block_text(title: Seq<char>, entries: Seq<(Seq<char>, Seq<char>)>) -> Seq<char> {
    if entries.len() == 0 {
        Seq::empty()
    } else {
        title + entries_text(entries, entries.len())
    }
}

/// The text that describes a single node: name, path and kind, then extents
/// and element type where known, then attributes and metadata where present.
pub open spec fn info_text(node: NodeView) -> Seq<char> {
    "Node: "@ + node.name + seq!['\n'] + "Path: "@ + node.path + seq!['\n'] + "Type: "@ + kind_text(
        node.node_type,
    ) + seq!['\n'] + (match node.shape {
        Some(shape) => "Shape: ["@ + extents_text(shape, shape.len()) + seq![']', '\n'],
        None => Seq::empty(),
    }) + (match node.dtype {
        Some(dtype) => "DType: "@ + dtype + seq!['\n'],
        None => Seq::empty(),
    }) + block_text("\nAttributes:\n"@, node.attributes) + block_text(
        "\nMetadata:\n"@,
        node.metadata,
    )
}

/// Appends a titled block of entries to `out`.
fn push_block(out: &mut String, title: &str, map: &StringMap)
    ensures
        final(out)@ == old(out)@ + block_text(title@, map@),
{
    let ghost start = out@;
    let entries = map.entries();
    let n = entries.len();
    if n == 0 {
        proof {
            assert(out@ =~= start + block_text(title@, map@));
        }
        return ;
    }
    out.append(title);
    proof {
        assert(out@ =~= start + title@ + entries_text(map@, 0));
    }
    let mut i: usize = 0;
    while i < n
        invariant
            n == entries@.len(),
            n == map@.len(),
            i <= n,
            forall|k: int|
                0 <= k < n ==> (#[trigger] entries@[k]).0@ == map@[k].0 && entries@[k].1@
                    == map@[k].1,
            out@ == start + title@ + entries_text(map@, i as nat),
        decreases n - i,
    {
        out.append("  ");
        out.append(entries[i].0.as_str());
        out.append(": ");
        out.append(entries[i].1.as_str());
        push_char(out, '\n');
        proof {
            reveal_strlit("  ");
            reveal_strlit(": ");
            assert(out@ =~= start + title@ + entries_text(map@, (i + 1) as nat));
        }
        i += 1;
    }
    proof {
        assert(out@ =~= start + block_text(title@, map@));
    }
}

/// The text that describes `node`: see `info_text`.
pub fn node_info_text(node: &DataNode) -> (r: String)
    ensures
        r@ == info_text(node.deep()),
{
    let mut out = String::new();
    out.append("Node: ");
    out.append(node.name.as_str());
    push_char(&mut out, '\n');
    out.append("Path: ");
    out.append(node.path.as_str());
    push_char(&mut out, '\n');
    out.append("Type: ");
    out.append(
        match node.node_type {
            NodeType::Root => "Root",
            NodeType::Group => "Group",
            NodeType::Variable => "Variable",
            NodeType::Dimension => "Dimension",
        },
    );
    push_char(&mut out, '\n');
    let ghost head = out@;
    proof {
        assert(head =~= "Node: "@ + node.name@ + seq!['\n'] + "Path: "@ + node.path@ + seq!['\n']
            + "Type: "@ + kind_text(node.node_type) + seq!['\n']);
    }
    match &node.shape {
        Some(shape) => {
            out.append("Shape: [");
            let n = shape.len();
            let mut i: usize = 0;
            proof {
                assert(out@ =~= head + "Shape: ["@ + extents_text(shape@, 0));
            }
            while i < n
                invariant
                    n == shape@.len(),
                    i <= n,
                    out@ == head + "Shape: ["@ + extents_text(shape@, i as nat),
                decreases n - i,
            {
                if i > 0 {
                    out.append(", ");
                    proof {
                        reveal_strlit(", ");
                    }
                }
                push_decimal(&mut out, shape[i]);
                proof {
                    assert(out@ =~= head + "Shape: ["@ + extents_text(shape@, (i + 1) as nat));
                }
                i += 1;
            }
            push_char(&mut out, ']');
            push_char(&mut out, '\n');
            proof {
                assert(out@ =~= head + ("Shape: ["@ + extents_text(shape@, shape@.len()) + seq![
                    ']',
                    '\n',
                ]));
            }
        },
        None => {
            proof {
                assert(out@ =~= head + Seq::<char>::empty());
            }
        },
    }
    let ghost after_shape = out@;
    match &node.dtype {
        Some(dtype) => {
            out.append("DType: ");
            out.append(dtype.as_str());
            push_char(&mut out, '\n');
            proof {
                assert(out@ =~= after_shape + ("DType: "@ + dtype@ + seq!['\n']));
            }
        },
        None => {
            proof {
                assert(out@ =~= after_shape + Seq::<char>::empty());
            }
        },
    }
    push_block(&mut out, "\nAttributes:\n", &node.attributes);
    push_block(&mut out, "\nMetadata:\n", &node.metadata);
    proof {
        assert(out@ =~= info_text(node.deep()));
    }
    out
}

} // verus!
