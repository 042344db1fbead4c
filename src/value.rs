//! Script values, and how each becomes the source of a connection.
use vstd::prelude::*;

use crate::handle::{LuaNode, LuaOutput};
use crate::ops::{node_of, BridgeError, GraphOp, Reply, Selector, Source, ValueKind};

verus! {

/// A value that script evaluation produced.
#[derive(Clone, Debug, PartialEq, Eq)]
pub enum ScriptValue {
    /// A number, as the bits of the 32-bit float that it is sent as.
    Number(u32),
    Boolean(bool),
    Text(String),
    Node(LuaNode),
    Output(LuaOutput),
    /// The runtime's marker for "no value".
    Nil,
    /// A value of a kind that cannot become a source.
    Unsupported(ValueKind),
}

impl ScriptValue {
    /// A literal, which becomes a new constant node each time it is used.
    pub open spec fn is_literal(self) -> bool {
        self is Number || self is Boolean || self is Text
    }

    /// Whether this is the marker for "no value".
    pub fn is_nil(&self) -> (r: bool)
        ensures
            r == (*self is Nil),
    {
        match self {
            ScriptValue::Nil => true,
            _ => false,
        }
    }
}

/// How a value becomes a source: it already is one, or a constant node must
/// be created for it first.
#[derive(Debug, PartialEq, Eq)]
pub enum Coercion {
    Ready(Source),
    Create(GraphOp),
}

/// The coercion of a value: a literal asks for a new constant node, a node
/// stands for its first output, an output for itself; anything else is an
/// invalid argument of its kind.
pub open spec fn coercion_of(v: ScriptValue) -> Result<Coercion, BridgeError> {
    match v {
        ScriptValue::Number(b) => Ok(Coercion::Create(GraphOp::AddConstantF32(b))),
        ScriptValue::Boolean(b) => Ok(Coercion::Create(GraphOp::AddConstantBool(b))),
        ScriptValue::Text(s) => Ok(Coercion::Create(GraphOp::AddConstantString(s))),
        ScriptValue::Node(n) => Ok(Coercion::Ready(Source { node: n.index, output: Selector::Index(0) })),
        ScriptValue::Output(o) => Ok(Coercion::Ready(Source { node: o.node, output: o.output })),
        ScriptValue::Nil => Err(BridgeError::InvalidArgument(ValueKind::Nil)),
        ScriptValue::Unsupported(k) => Err(BridgeError::InvalidArgument(k)),
    }
}

/// Starts turning a value into the source of a connection.
pub fn value_to_output(v: &ScriptValue) -> (r: Result<Coercion, BridgeError>)
    ensures
        r == coercion_of(*v),
{
    match v {
        ScriptValue::Number(b) => Ok(Coercion::Create(GraphOp::AddConstantF32(*b))),
        ScriptValue::Boolean(b) => Ok(Coercion::Create(GraphOp::AddConstantBool(*b))),
        ScriptValue::Text(s) => Ok(Coercion::Create(GraphOp::AddConstantString(s.clone()))),
        ScriptValue::Node(n) => Ok(Coercion::Ready(n.source())),
        ScriptValue::Output(o) => Ok(Coercion::Ready(o.source())),
        ScriptValue::Nil => Err(BridgeError::InvalidArgument(ValueKind::Nil)),
        ScriptValue::Unsupported(k) => Err(BridgeError::InvalidArgument(*k)),
    }
}

/// The source that the reply to a constant-node request yields: the new
/// node's first output.
pub open spec fn created_source(reply: Reply) -> Result<Source, BridgeError> {
    match node_of(reply) {
        Ok(id) => Ok(Source { node: id, output: Selector::Index(0) }),
        Err(e) => Err(e),
    }
}

/// Finishes the coercion of a literal from the reply to its constant-node request.
pub fn resolve_created(reply: &Reply) -> (r: Result<Source, BridgeError>)
    ensures
        r == created_source(*reply),
{
    match crate::ops::expect_node(reply) {
        Ok(id) => Ok(Source { node: id, output: Selector::Index(0) }),
        Err(e) => Err(e),
    }
}

} // verus!
