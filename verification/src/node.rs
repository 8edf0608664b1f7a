//! The document tree: a dynamically typed YAML node and typed lookups on it.

use vstd::prelude::*;

verus! {

/// One key and its value in a mapping node.
#[derive(Debug, PartialEq, Eq)]
pub struct Entry {
    pub key: Node,
    pub value: Node,
}

/// A node of a YAML document.
#[derive(Debug, PartialEq, Eq)]
pub enum Node {
    /// A floating-point scalar, kept as written.
    Real(String),
    /// An integer scalar.
    Integer(i64),
    /// A text scalar.
    Text(String),
    /// A boolean scalar.
    Boolean(bool),
    /// A sequence of nodes.
    Sequence(Vec<Node>),
    /// A mapping, its entries in the order of the document.
    Mapping(Vec<Entry>),
    /// A reference to an anchor.
    Alias(usize),
    /// The null scalar.
    Null,
    /// What stands where the document holds nothing usable.
    BadValue,
}

/// The mathematical value of a [`Node`].
pub enum Tree {
    Real(Seq<char>),
    Integer(i64),
    Text(Seq<char>),
    Boolean(bool),
    Sequence(Seq<Tree>),
    Mapping(Seq<(Tree, Tree)>),
    Alias(usize),
    Null,
    BadValue,
}

/// The values of a sequence of nodes.
pub open spec fn trees_of(nodes: Seq<Node>) -> Seq<Tree> {
    Seq::new(nodes.len(), |i: int| nodes[i]@)
}

/// The values of a sequence of mapping entries.
pub open spec fn pairs_of(entries: Seq<Entry>) -> Seq<(Tree, Tree)> {
    Seq::new(entries.len(), |i: int| entries[i]@)
}

/// The value of a node, by recursion on the node.
pub open spec fn tree_of(node: Node) -> Tree
    decreases node,
{
    match node {
        Node::Real(s) => Tree::Real(s@),
        Node::Integer(i) => Tree::Integer(i),
        Node::Text(s) => Tree::Text(s@),
        Node::Boolean(b) => Tree::Boolean(b),
        Node::Sequence(items) => Tree::Sequence(
            Seq::new(
                items@.len(),
                |i: int|
                    if 0 <= i < items@.len() {
                        tree_of(items@[i])
                    } else {
                        Tree::BadValue
                    },
            ),
        ),
        Node::Mapping(entries) => Tree::Mapping(
            Seq::new(
                entries@.len(),
                |i: int|
                    if 0 <= i < entries@.len() {
                        (tree_of(entries@[i].key), tree_of(entries@[i].value))
                    } else {
                        (Tree::BadValue, Tree::BadValue)
                    },
            ),
        ),
        Node::Alias(a) => Tree::Alias(a),
        Node::Null => Tree::Null,
        Node::BadValue => Tree::BadValue,
    }
}

impl View for Node {
    type V = Tree;

    open spec fn view(&self) -> Tree {
        tree_of(*self)
    }
}

impl View for Entry {
    type V = (Tree, Tree);

    open spec fn view(&self) -> (Tree, Tree) {
        (self.key@, self.value@)
    }
}

/// The value under the first entry of `entries` whose key is the text `key`.
pub open spec fn find_in(entries: Seq<(Tree, Tree)>, key: Seq<char>) -> Option<Tree>
    decreases entries.len(),
{
    if entries.len() == 0 {
        None
    } else if entries[0].0 == Tree::Text(key) {
        Some(entries[0].1)
    } else {
        find_in(entries.drop_first(), key)
    }
}

/// Whether the entry at `at` is the first of `entries` whose key is the text
/// `key`.
pub open spec fn is_first_with(entries: Seq<(Tree, Tree)>, key: Seq<char>, at: int) -> bool {
    &&& 0 <= at < entries.len()
    &&& entries[at].0 == Tree::Text(key)
    &&& forall|j: int| 0 <= j < at ==> (#[trigger] entries[j]).0 != Tree::Text(key)
}

/// A lookup gives the value of the first entry under the key, and nothing
/// exactly where no entry has the key.
pub proof fn lemma_find_in(entries: Seq<(Tree, Tree)>, key: Seq<char>)
    ensures
        match find_in(entries, key) {
            Some(value) => exists|at: int| #[trigger]
                is_first_with(entries, key, at) && entries[at].1 == value,
            None => forall|j: int|
                0 <= j < entries.len() ==> (#[trigger] entries[j]).0 != Tree::Text(key),
        },
    decreases entries.len(),
{
    if entries.len() == 0 {
    } else if entries[0].0 == Tree::Text(key) {
        assert(is_first_with(entries, key, 0));
    } else {
        let rest = entries.drop_first();
        lemma_find_in(rest, key);
        match find_in(rest, key) {
            Some(value) => {
                let at = choose|at: int| #[trigger]
                    is_first_with(rest, key, at) && rest[at].1 == value;
                assert forall|j: int| 0 <= j < at + 1 implies (#[trigger] entries[j]).0
                    != Tree::Text(key) by {
                    if j > 0 {
                        assert(entries[j] == rest[j - 1]);
                    }
                }
                assert(entries[at + 1] == rest[at]);
                assert(is_first_with(entries, key, at + 1));
            },
            None => {
                assert forall|j: int| 0 <= j < entries.len() implies (#[trigger] entries[j]).0
                    != Tree::Text(key) by {
                    if j > 0 {
                        assert(entries[j] == rest[j - 1]);
                    }
                }
            },
        }
    }
}

impl Tree {
    /// The text of a text scalar.
    pub open spec fn text(self) -> Option<Seq<char>> {
        match self {
            Tree::Text(s) => Some(s),
            _ => None,
        }
    }

    /// The items of a sequence.
    pub open spec fn items(self) -> Option<Seq<Tree>> {
        match self {
            Tree::Sequence(items) => Some(items),
            _ => None,
        }
    }

    /// The value that a mapping holds under the text key `key`.
    pub open spec fn find(self, key: Seq<char>) -> Option<Tree> {
        match self {
            Tree::Mapping(entries) => find_in(entries, key),
            _ => None,
        }
    }

    /// The value under `key`, or `BadValue` where there is none.
    pub open spec fn field(self, key: Seq<char>) -> Tree {
        match self.find(key) {
            Some(t) => t,
            None => Tree::BadValue,
        }
    }

    /// The text under `key`, or `fallback` where `key` is missing or holds
    /// anything but a text scalar.
    pub open spec fn text_or(self, key: Seq<char>, fallback: Seq<char>) -> Seq<char> {
        match self.field(key).text() {
            Some(s) => s,
            None => fallback,
        }
    }
}

/// The value of a sequence node is the sequence of its items' values.
pub proof fn lemma_sequence_view(items: Vec<Node>)
    ensures
        Node::Sequence(items)@ == Tree::Sequence(trees_of(items@)),
{
    assert(Node::Sequence(items)@->Sequence_0 =~= trees_of(items@));
}

/// The value of a mapping node is the sequence of its entries' values.
pub proof fn lemma_mapping_view(entries: Vec<Entry>)
    ensures
        Node::Mapping(entries)@ == Tree::Mapping(pairs_of(entries@)),
{
    assert(Node::Mapping(entries)@->Mapping_0 =~= pairs_of(entries@));
}

impl Node {
    /// The text of a text scalar; `None` for any other node.
    pub fn as_str(&self) -> (r: Option<&str>)
        ensures
            match r {
                Some(s) => self@.text() == Some(s@),
                None => self@.text() is None,
            },
    {
        match self {
            Node::Text(s) => Some(s.as_str()),
            _ => None,
        }
    }

    /// The items of a sequence; `None` for any other node.
    pub fn as_vec(&self) -> (r: Option<&Vec<Node>>)
        ensures
            match r {
                Some(items) => self@.items() == Some(trees_of(items@)),
                None => self@.items() is None,
            },
    {
        match self {
            Node::Sequence(items) => {
                proof {
                    lemma_sequence_view(*items);
                }
                Some(items)
            },
            _ => None,
        }
    }

    /// The value that a mapping holds under the text key `key`: that of the
    /// first such entry. `None` where there is none or `self` is no mapping.
    pub fn get(&self, key: &str) -> (r: Option<&Node>)
        ensures
            match r {
                Some(n) => self@.find(key@) == Some(n@),
                None => self@.find(key@) is None,
            },
    {
        match self {
            Node::Mapping(entries) => {
                let ghost pairs = pairs_of(entries@);
                proof {
                    lemma_mapping_view(*entries);
                    assert(pairs.skip(0) =~= pairs);
                }
                let wanted = key.to_owned();
                let mut i: usize = 0;
                while i < entries.len()
                    invariant
                        i <= entries.len(),
                        pairs == pairs_of(entries@),
                        self@ == Tree::Mapping(pairs),
                        wanted@ == key@,
                        find_in(pairs, key@) == find_in(pairs.skip(i as int), key@),
                    decreases entries.len() - i,
                {
                    let entry = &entries[i];
                    let ghost rest = pairs.skip(i as int);
                    assert(rest[0] == entry@);
                    assert(rest.drop_first() =~= pairs.skip(i + 1));
                    match &entry.key {
                        Node::Text(s) => {
                            if *s == wanted {
                                assert(entry.key@ == Tree::Text(key@));
                                return Some(&entry.value);
                            }
                        },
                        _ => {},
                    }
                    i = i + 1;
                }
                None
            },
            _ => None,
        }
    }
}

impl Node {
    /// The text under `key`; `None` where `key` is missing or holds anything
    /// but a text scalar.
    pub fn text_at(&self, key: &str) -> (r: Option<&str>)
        ensures
            match r {
                Some(s) => self@.field(key@).text() == Some(s@),
                None => self@.field(key@).text() is None,
            },
    {
        match self.get(key) {
            Some(found) => found.as_str(),
            None => None,
        }
    }

    /// The sequence under `key`; `None` where `key` is missing or holds
    /// anything but a sequence.
    pub fn items_at(&self, key: &str) -> (r: Option<&Vec<Node>>)
        ensures
            match r {
                Some(items) => self@.field(key@).items() == Some(trees_of(items@)),
                None => self@.field(key@).items() is None,
            },
    {
        match self.get(key) {
            Some(found) => found.as_vec(),
            None => None,
        }
    }

    /// The text under `key`, or `fallback` where `key` is missing or holds
    /// anything but a text scalar.
    pub fn text_or<'a>(&'a self, key: &str, fallback: &'a str) -> (r: &'a str)
        ensures
            r@ == self@.text_or(key@, fallback@),
    {
        match self.text_at(key) {
            Some(s) => s,
            None => fallback,
        }
    }
}

fn clone_items(items: &Vec<Node>) -> (r: Vec<Node>)
    ensures
        trees_of(r@) == trees_of(items@),
    decreases items,
{
    let mut copy: Vec<Node> = Vec::new();
    let mut i: usize = 0;
    while i < items.len()
        invariant
            i <= items.len(),
            copy.len() == i,
            forall|j: int| 0 <= j < i ==> (#[trigger] copy@[j])@ == items@[j]@,
        decreases items.len() - i,
    {
        copy.push(items[i].clone());
        i = i + 1;
    }
    assert(trees_of(copy@) =~= trees_of(items@));
    copy
}

fn clone_entries(entries: &Vec<Entry>) -> (r: Vec<Entry>)
    ensures
        pairs_of(r@) == pairs_of(entries@),
    decreases entries,
{
    let mut copy: Vec<Entry> = Vec::new();
    let mut i: usize = 0;
    while i < entries.len()
        invariant
            i <= entries.len(),
            copy.len() == i,
            forall|j: int| 0 <= j < i ==> (#[trigger] copy@[j])@ == entries@[j]@,
        decreases entries.len() - i,
    {
        let entry = &entries[i];
        copy.push(Entry { key: entry.key.clone(), value: entry.value.clone() });
        i = i + 1;
    }
    assert(pairs_of(copy@) =~= pairs_of(entries@));
    copy
}

impl Clone for Node {
    /// A copy with the same value.
    fn clone(&self) -> (r: Self)
        ensures
            r@ == self@,
        decreases self,
    {
        match self {
            Node::Real(s) => Node::Real(s.clone()),
            Node::Integer(i) => Node::Integer(*i),
            Node::Text(s) => Node::Text(s.clone()),
            Node::Boolean(b) => Node::Boolean(*b),
            Node::Sequence(items) => {
                let copy = clone_items(items);
                proof {
                    lemma_sequence_view(*items);
                    lemma_sequence_view(copy);
                }
                Node::Sequence(copy)
            },
            Node::Mapping(entries) => {
                let copy = clone_entries(entries);
                proof {
                    lemma_mapping_view(*entries);
                    lemma_mapping_view(copy);
                }
                Node::Mapping(copy)
            },
            Node::Alias(a) => Node::Alias(*a),
            Node::Null => Node::Null,
            Node::BadValue => Node::BadValue,
        }
    }
}

impl Clone for Entry {
    /// A copy with the same value.
    fn clone(&self) -> (r: Self)
        ensures
            r@ == self@,
    {
        Entry { key: self.key.clone(), value: self.value.clone() }
    }
}

} // verus!
