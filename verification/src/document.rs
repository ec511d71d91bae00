use crate::text::str_eq;
use vstd::prelude::*;

verus! {

/// A node of a configuration document.
#[derive(Debug, PartialEq, Eq)]
pub enum Node {
    Null,
    Bool(bool),
    /// A whole number that fits in 64 bits.
    Int(i64),
    Text(String),
    List(Vec<Node>),
    /// A mapping; its entries stand in the document's order.
    Dict(Vec<(Node, Node)>),
    /// A scalar that the library reads nothing from, such as a fraction.
    Other,
}

/// Whether a node is the text `key`.
pub open spec fn has_text(n: Node, key: Seq<char>) -> bool {
    n matches Node::Text(t) && t@ == key
}

/// The value of the first entry, from position `from` on, whose key is the
/// text `key`.
pub open spec fn lookup(entries: Seq<(Node, Node)>, key: Seq<char>, from: int) -> Option<Node>
    decreases entries.len() - from,
{
    if from < 0 || from >= entries.len() {
        None
    } else if has_text(entries[from].0, key) {
        Some(entries[from].1)
    } else {
        lookup(entries, key, from + 1)
    }
}

/// Looks a key up in the entries of a mapping.
pub fn get<'a>(entries: &'a Vec<(Node, Node)>, key: &str) -> (r: Option<&'a Node>)
    ensures
        match r {
            Some(n) => lookup(entries@, key@, 0) == Some(*n),
            None => lookup(entries@, key@, 0) is None,
        },
{
    let n: usize = entries.len();
    let mut i: usize = 0;
    while i < n
        invariant
            i <= n,
            n == entries@.len(),
            lookup(entries@, key@, 0) == lookup(entries@, key@, i as int),
        decreases n - i,
    {
        let hit = match &entries[i].0 {
            Node::Text(t) => str_eq(t.as_str(), key),
            _ => false,
        };
        if hit {
            return Some(&entries[i].1);
        }
        i = i + 1;
    }
    None
}

impl Node {
    /// The whole number that a node holds, if it holds one.
    pub open spec fn int_of(self) -> Option<i64> {
        match self {
            Node::Int(v) => Some(v),
            _ => None,
        }
    }

    /// Reads the whole number that a node holds.
    pub fn as_i64(&self) -> (r: Option<i64>)
        ensures
            r == self.int_of(),
    {
        match self {
            Node::Int(v) => Some(*v),
            _ => None,
        }
    }
}

} // verus!
