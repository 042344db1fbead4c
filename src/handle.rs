//! Client-side handles to remote nodes and their outputs.
use vstd::prelude::*;

use crate::ops::{BridgeError, NodeId, Selector, Source, ValueKind};

verus! {

/// A handle to a node that exists in the remote graph.
#[derive(Clone, Copy, Debug, PartialEq, Eq, Structural)]
pub struct LuaNode {
    pub index: NodeId,
}

/// A handle to one output of a remote node.
#[derive(Clone, Debug, PartialEq, Eq)]
pub struct LuaOutput {
    pub node: NodeId,
    pub output: Selector,
}

/// The mix bus of the remote graph, whose channels a script assigns.
#[derive(Clone, Copy, Debug, PartialEq, Eq, Structural)]
pub struct LuaMixer {}

/// A key that a script indexes a handle or the mix bus with.
#[derive(Clone, Debug, PartialEq, Eq)]
pub enum Key {
    Integer(i64),
    Text(String),
    Other(ValueKind),
}

impl Key {
    /// The kind of value that this key is.
    pub open spec fn kind(self) -> ValueKind {
        match self {
            Key::Integer(_) => ValueKind::Number,
            Key::Text(_) => ValueKind::Text,
            Key::Other(k) => k,
        }
    }
}

impl LuaNode {
    /// The output that indexing this node with `key` selects: a position in
    /// `0..=u32::MAX` or a name; anything else is an invalid index.
    pub open spec fn output_for(self, key: Key) -> Result<LuaOutput, BridgeError> {
        match key {
            Key::Integer(v) => if 0 <= v <= u32::MAX {
                Ok(LuaOutput { node: self.index, output: Selector::Index(v as u32) })
            } else {
                Err(BridgeError::InvalidIndex)
            },
            Key::Text(s) => Ok(LuaOutput { node: self.index, output: Selector::Name(s) }),
            Key::Other(_) => Err(BridgeError::InvalidIndex),
        }
    }

    /// Indexes this node: an integer selects an output by position, a string
    /// by name. An integer below zero or beyond the 32-bit positions that the
    /// wire carries, and a key of any other kind, are invalid indices.
    /// Nothing is sent to the remote graph.
    pub fn index_by(&self, key: &Key) -> (r: Result<LuaOutput, BridgeError>)
        ensures
            r == self.output_for(*key),
    {
        match key {
            Key::Integer(v) => {
                if 0 <= *v && *v <= u32::MAX as i64 {
                    Ok(LuaOutput { node: self.index, output: Selector::Index(*v as u32) })
                } else {
                    Err(BridgeError::InvalidIndex)
                }
            },
            Key::Text(s) => Ok(LuaOutput { node: self.index, output: Selector::Name(s.clone()) }),
            Key::Other(_) => Err(BridgeError::InvalidIndex),
        }
    }

    /// The node's first output, which stands for the node as a source.
    pub fn source(&self) -> (r: Source)
        ensures
            r == (Source { node: self.index, output: Selector::Index(0) }),
    {
        Source { node: self.index, output: Selector::Index(0) }
    }
}

impl LuaOutput {
    /// This output as the source of a connection.
    pub fn source(&self) -> (r: Source)
        ensures
            r == (Source { node: self.node, output: self.output }),
    {
        Source { node: self.node, output: self.output.duplicate() }
    }
}

} // verus!
