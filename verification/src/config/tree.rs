//! The configuration tree the parsers read.

use vstd::prelude::*;
use vstd::string::StringExecFns;

verus! {

/// One node of a configuration document.
#[derive(Debug)]
pub enum Node {
    Null,
    Bool(bool),
    /// A whole number that is not negative.
    Unsigned(u64),
    /// A whole number below zero.
    Negative(i64),
    /// Any other number, kept as the bit pattern of its double-precision
    /// encoding. The library carries it and never reads it.
    Real(u64),
    Text(String),
    Sequence(Vec<Node>),
    Mapping(Mapping),
    /// A key of a mapping that carries a tag, with the node it tags. No
    /// lookup by text finds such a key. A tagged value is never kept as such:
    /// it counts as the node it tags.
    Tagged(Box<Node>),
}

/// An ordered list of key and value pairs. A key is looked up by text; where
/// a key occurs more than once, the first entry counts.
#[derive(Debug)]
pub struct Mapping {
    pub entries: Vec<(Node, Node)>,
}

/// Whether `node` is the text `key`.
pub open spec fn is_key(node: Node, key: Seq<char>) -> bool {
    node matches Node::Text(s) && s@ == key
}

/// The value of the first entry whose key is the text `key`.
pub open spec fn find_entry(entries: Seq<(Node, Node)>, key: Seq<char>) -> Option<Node>
    decreases entries.len(),
{
    if entries.len() == 0 {
        None
    } else if is_key(entries[0].0, key) {
        Some(entries[0].1)
    } else {
        find_entry(entries.drop_first(), key)
    }
}

impl Mapping {
    /// What `key` maps to, if anything.
    pub open spec fn lookup(self, key: Seq<char>) -> Option<Node> {
        find_entry(self.entries@, key)
    }

    /// A mapping without entries.
    pub fn new() -> (mapping: Mapping)
        ensures
            mapping.entries@.len() == 0,
    {
        Mapping { entries: Vec::new() }
    }

    /// Appends an entry with the text `key`.
    pub fn insert(&mut self, key: &str, value: Node)
        ensures
            final(self).entries@.len() == old(self).entries@.len() + 1,
            final(self).entries@.drop_last() == old(self).entries@,
            is_key(final(self).entries@.last().0, key@),
            final(self).entries@.last().1 == value,
    {
        self.entries.push((Node::Text(String::from_str(key)), value));
    }

    /// The number of entries.
    pub fn len(&self) -> (count: usize)
        ensures
            count == self.entries@.len(),
    {
        self.entries.len()
    }

    /// The value of the first entry whose key is the text `key`.
    pub fn get(&self, key: &str) -> (found: Option<&Node>)
        ensures
            match found {
                Some(value) => self.lookup(key@) == Some(*value),
                None => self.lookup(key@) is None,
            },
    {
        let wanted = String::from_str(key);
        let n: usize = self.entries.len();
        let mut i: usize = 0;
        assert(self.entries@.subrange(0, n as int) =~= self.entries@);
        while i < n
            invariant
                i <= n,
                n == self.entries@.len(),
                wanted@ == key@,
                self.lookup(key@) == find_entry(self.entries@.subrange(i as int, n as int), key@),
            decreases n - i,
        {
            let hit = match &self.entries[i].0 {
                Node::Text(s) => *s == wanted,
                _ => false,
            };
            if hit {
                return Some(&self.entries[i].1);
            }
            assert(self.entries@.subrange(i as int, n as int).drop_first()
                =~= self.entries@.subrange(i + 1, n as int));
            i += 1;
        }
        None
    }
}

impl Node {
    /// What `key` maps to, where this node is a mapping that has it.
    pub open spec fn lookup(self, key: Seq<char>) -> Option<Node> {
        match self {
            Node::Mapping(mapping) => mapping.lookup(key),
            _ => None,
        }
    }

    /// What `key` maps to, where this node is a mapping that has it.
    pub fn get(&self, key: &str) -> (found: Option<&Node>)
        ensures
            match found {
                Some(value) => self.lookup(key@) == Some(*value),
                None => self.lookup(key@) is None,
            },
    {
        match self {
            Node::Mapping(mapping) => mapping.get(key),
            _ => None,
        }
    }

    /// The number, where this node is a whole number that is not negative.
    pub fn as_u64(&self) -> (number: Option<u64>)
        ensures
            number == (match *self {
                Node::Unsigned(n) => Some(n),
                _ => None,
            }),
    {
        match self {
            Node::Unsigned(n) => Some(*n),
            _ => None,
        }
    }

    /// The flag, where this node is `true` or `false`.
    pub fn as_bool(&self) -> (flag: Option<bool>)
        ensures
            flag == (match *self {
                Node::Bool(b) => Some(b),
                _ => None,
            }),
    {
        match self {
            Node::Bool(b) => Some(*b),
            _ => None,
        }
    }

    /// The text, where this node is text.
    pub fn as_str(&self) -> (text: Option<&str>)
        ensures
            match text {
                Some(t) => *self matches Node::Text(s) && s@ == t@,
                None => !(*self is Text),
            },
    {
        match self {
            Node::Text(s) => Some(s.as_str()),
            _ => None,
        }
    }

    /// The elements, where this node is a sequence.
    pub fn as_sequence(&self) -> (items: Option<&Vec<Node>>)
        ensures
            match items {
                Some(list) => *self == Node::Sequence(*list),
                None => !(*self is Sequence),
            },
    {
        match self {
            Node::Sequence(list) => Some(list),
            _ => None,
        }
    }

    /// The mapping, where this node is one.
    pub fn as_mapping(&self) -> (mapping: Option<&Mapping>)
        ensures
            match mapping {
                Some(m) => *self == Node::Mapping(*m),
                None => !(*self is Mapping),
            },
    {
        match self {
            Node::Mapping(m) => Some(m),
            _ => None,
        }
    }
}

} // verus!
