//! Search over the dataset tree: the query being typed, the query in force,
//! and the matches to step through.

use crate::node::{DataNode, NodeView};
use crate::text::{decimal, pop_char, push_char, push_decimal, texts_of};
use vstd::prelude::*;

verus! {

/// What a search holds, as plain mathematical values.
pub struct SearchModel {
    /// Whether a query is being typed.
    pub active: bool,
    /// The text typed so far.
    pub buffer: Seq<char>,
    /// The query in force.
    pub query: Seq<char>,
    /// Paths of the matching nodes, in display order of the full tree.
    pub matches: Seq<Seq<char>>,
    /// Index of the current match.
    pub current: usize,
}

/// The paths of `node` and of the nodes below it that answer `query`, a node
/// before its children and children in order.
pub open spec fn matching_paths(node: NodeView, query: Seq<char>) -> Seq<Seq<char>>
    decreases node, 0nat,
{
    (if node.matches(query) {
        seq![node.path]
    } else {
        Seq::empty()
    }) + matching_among(node.children, query, node.children.len())
}

/// The matching paths among the first `count` nodes of `children` and below them.
pub open spec fn matching_among(children: Seq<NodeView>, query: Seq<char>, count: nat) -> Seq<
    Seq<char>,
>
    decreases children, count,
{
    if count == 0 || count > children.len() {
        Seq::empty()
    } else {
        matching_among(children, query, (count - 1) as nat) + matching_paths(
            children[count - 1],
            query,
        )
    }
}

/// Appends the paths of the nodes at and below `node` that answer `query`.
pub fn collect_matches(node: &DataNode, query: &str, matches: &mut Vec<String>)
    ensures
        texts_of(final(matches)@) == texts_of(old(matches)@) + matching_paths(
            node.deep(),
            query@,
        ),
    decreases node,
{
    let ghost head = if node.deep().matches(query@) {
        seq![node.path@]
    } else {
        Seq::empty()
    };
    if node.matches_search(query) {
        matches.push(node.path.clone());
    }
    let n = node.children.len();
    let mut i: usize = 0;
    while i < n
        invariant
            n == node.children@.len(),
            i <= n,
            texts_of(matches@) == texts_of(old(matches)@) + head + matching_among(
                node.deep().children,
                query@,
                i as nat,
            ),
        decreases n - i,
    {
        collect_matches(&node.children[i], query, matches);
        i += 1;
    }
}

/// State of the search.
#[derive(Debug)]
pub struct SearchState {
    is_active: bool,
    buffer: String,
    query: String,
    matches: Vec<String>,
    current_match: usize,
}

impl SearchModel {
    /// The current match is one of the matches, or zero when there is none.
    pub open spec fn wf(self) -> bool {
        &&& self.matches.len() <= usize::MAX
        &&& self.current < self.matches.len() || (self.current == 0 && self.matches.len() == 0)
    }

    /// The state after stepping to the next match, from the last to the first.
    pub open spec fn stepped_forward(self) -> SearchModel {
        SearchModel {
            current: if self.matches.len() == 0 {
                self.current
            } else if self.current + 1 == self.matches.len() {
                0
            } else {
                (self.current + 1) as usize
            },
            ..self
        }
    }

    /// The state after stepping to the previous match, from the first to the last.
    pub open spec fn stepped_back(self) -> SearchModel {
        SearchModel {
            current: if self.matches.len() == 0 {
                self.current
            } else if self.current == 0 {
                (self.matches.len() - 1) as usize
            } else {
                (self.current - 1) as usize
            },
            ..self
        }
    }
}

impl SearchState {
    /// What the search holds, as plain mathematical values.
    pub closed spec fn view(&self) -> SearchModel {
        SearchModel {
            active: self.is_active,
            buffer: self.buffer@,
            query: self.query@,
            matches: texts_of(self.matches@),
            current: self.current_match,
        }
    }

    #[verifier::type_invariant]
    spec fn well_formed(self) -> bool {
        self.view().wf()
    }

    /// An inactive search without query or matches.
    pub fn new() -> (r: SearchState)
        ensures
            r@ == (SearchModel {
                active: false,
                buffer: Seq::empty(),
                query: Seq::empty(),
                matches: Seq::empty(),
                current: 0,
            }),
    {
        let r = SearchState {
            is_active: false,
            buffer: String::new(),
            query: String::new(),
            matches: Vec::new(),
            current_match: 0,
        };
        proof {
            assert(r@.matches =~= Seq::empty());
        }
        r
    }

    /// Whether a query is being typed.
    pub fn is_active(&self) -> (r: bool)
        ensures
            r == self@.active,
    {
        self.is_active
    }

    /// Starts typing a query from scratch.
    pub fn start(&mut self)
        ensures
            final(self)@ == (SearchModel { active: true, buffer: Seq::empty(), ..old(self)@ }),
    {
        proof {
            use_type_invariant(&*self);
        }
        self.is_active = true;
        self.buffer = String::new();
    }

    /// Appends a character to the text typed so far.
    pub fn input(&mut self, c: char)
        ensures
            final(self)@ == (SearchModel { buffer: old(self)@.buffer.push(c), ..old(self)@ }),
    {
        proof {
            use_type_invariant(&*self);
        }
        let mut buffer = self.buffer.clone();
        push_char(&mut buffer, c);
        self.buffer = buffer;
    }

    /// Removes the last character of the text typed so far, if there is one.
    pub fn backspace(&mut self)
        ensures
            final(self)@ == (SearchModel {
                buffer: if old(self)@.buffer.len() > 0 {
                    old(self)@.buffer.drop_last()
                } else {
                    old(self)@.buffer
                },
                ..old(self)@
            }),
    {
        proof {
            use_type_invariant(&*self);
        }
        let mut buffer = self.buffer.clone();
        let _ = pop_char(&mut buffer);
        self.buffer = buffer;
    }

    /// Ends typing. A text that is not empty becomes the query in force; an
    /// empty one leaves the query as it was.
    pub fn submit(&mut self)
        ensures
            final(self)@ == (SearchModel {
                active: false,
                buffer: Seq::empty(),
                query: if old(self)@.buffer.len() > 0 {
                    old(self)@.buffer
                } else {
                    old(self)@.query
                },
                ..old(self)@
            }),
    {
        proof {
            use_type_invariant(&*self);
        }
        if self.buffer.as_str().unicode_len() > 0 {
            self.query = self.buffer.clone();
        }
        self.buffer = String::new();
        self.is_active = false;
    }

    /// Ends typing and forgets the matches. The query in force stays.
    pub fn cancel(&mut self)
        ensures
            final(self)@ == (SearchModel {
                active: false,
                buffer: Seq::empty(),
                matches: Seq::empty(),
                current: 0,
                ..old(self)@
            }),
    {
        proof {
            use_type_invariant(&*self);
        }
        self.is_active = false;
        self.buffer = String::new();
        self.current_match = 0;
        self.matches = Vec::new();
        proof {
            assert(self@.matches =~= Seq::empty());
        }
    }

    /// Finds the nodes at and below `root` that answer the query in force.
    /// With an empty query nothing matches.
    pub fn perform_search(&mut self, root: &DataNode)
        ensures
            final(self)@ == (SearchModel {
                matches: if old(self)@.query.len() > 0 {
                    matching_paths(root.deep(), old(self)@.query)
                } else {
                    Seq::empty()
                },
                current: 0,
                ..old(self)@
            }),
    {
        proof {
            use_type_invariant(&*self);
        }
        let mut matches: Vec<String> = Vec::new();
        proof {
            assert(texts_of(matches@) =~= Seq::empty());
        }
        if self.query.as_str().unicode_len() > 0 {
            collect_matches(root, self.query.as_str(), &mut matches);
        }
        proof {
            assert(texts_of(matches@).len() == matches.len());
        }
        self.current_match = 0;
        self.matches = matches;
    }

    /// Path of the current match, if there is one.
    pub fn current_match_path(&self) -> (r: Option<&str>)
        ensures
            match r {
                Some(p) => self@.current < self@.matches.len() && p@
                    == self@.matches[self@.current as int],
                None => self@.matches.len() == 0,
            },
    {
        proof {
            use_type_invariant(self);
        }
        if self.current_match < self.matches.len() {
            Some(self.matches[self.current_match].as_str())
        } else {
            None
        }
    }

    /// Steps to the next match, from the last to the first.
    pub fn next_match(&mut self)
        ensures
            final(self)@ == old(self)@.stepped_forward(),
    {
        proof {
            use_type_invariant(&*self);
        }
        if self.matches.len() > 0 {
            self.current_match = if self.current_match + 1 == self.matches.len() {
                0
            } else {
                self.current_match + 1
            };
        }
    }

    /// Steps to the previous match, from the first to the last.
    pub fn prev_match(&mut self)
        ensures
            final(self)@ == old(self)@.stepped_back(),
    {
        proof {
            use_type_invariant(&*self);
        }
        if self.matches.len() > 0 {
            if self.current_match == 0 {
                self.current_match = self.matches.len() - 1;
            } else {
                self.current_match -= 1;
            }
        }
    }

    /// The text typed so far.
    pub fn buffer(&self) -> (r: &str)
        ensures
            r@ == self@.buffer,
    {
        self.buffer.as_str()
    }

    /// The query in force.
    pub fn query(&self) -> (r: &str)
        ensures
            r@ == self@.query,
    {
        self.query.as_str()
    }

    /// Number of matches.
    pub fn match_count(&self) -> (r: usize)
        ensures
            r == self@.matches.len(),
    {
        self.matches.len()
    }

    /// Index of the current match.
    pub fn current_match_index(&self) -> (r: usize)
        ensures
            r == self@.current,
            self@.wf(),
    {
        proof {
            use_type_invariant(self);
        }
        self.current_match
    }
}

/// Stepping to the next match and back, or back and forth, returns to the
/// match one started from.
pub proof fn lemma_match_steps_undo(m: SearchModel)
    requires
        m.wf(),
    ensures
        m.stepped_forward().wf(),
        m.stepped_back().wf(),
        m.stepped_forward().stepped_back() == m,
        m.stepped_back().stepped_forward() == m,
{
}

/// The text of the status line: the text being typed after a slash while a
/// query is typed; the place among the matches while there are matches;
/// otherwise the status itself.
pub open spec fn status_text(status: Seq<char>, search: SearchModel) -> Seq<char> {
    if search.active {
        seq!['/'] + search.buffer
    } else if search.matches.len() > 0 {
        "Match "@ + decimal((search.current + 1) as nat) + seq!['/'] + decimal(search.matches.len())
            + " for '"@ + search.query + seq!['\'']
    } else {
        status
    }
}

/// The text of the status line: see `status_text`.
pub fn status_line(status: &str, search: &SearchState) -> (r: String)
    ensures
        r@ == status_text(status@, search@),
{
    let mut out = String::new();
    if search.is_active() {
        push_char(&mut out, '/');
        out.append(search.buffer());
    } else if search.match_count() > 0 {
        let current = search.current_match_index();
        out.append("Match ");
        push_decimal(&mut out, current + 1);
        push_char(&mut out, '/');
        push_decimal(&mut out, search.match_count());
        out.append(" for '");
        out.append(search.query());
        push_char(&mut out, '\'');
    } else {
        out.append(status);
    }
    out
}

impl Default for SearchState {
    fn default() -> (r: SearchState)
        ensures
            !r@.active,
            r@.buffer.len() == 0,
            r@.query.len() == 0,
            r@.matches.len() == 0,
            r@.current == 0,
    {
        SearchState::new()
    }
}

} // verus!
