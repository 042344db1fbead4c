//! A bridge between a dynamically typed script runtime and a remote
//! signal-processing graph.
//!
//! Script values and operators are translated into ordered sequences of
//! graph operations. Every translation is a small state machine: it hands
//! out the operations to send, takes back the replies, and finally yields
//! its result. The transport itself lives outside this library.
pub mod handle;
pub mod laws;
pub mod ops;
pub mod procedure;
pub mod session;
pub mod translate;
pub mod value;

pub use handle::{Key, LuaMixer, LuaNode, LuaOutput};
pub use ops::{BridgeError, GraphOp, NodeId, RemoteFailure, Reply, Selector, Source, Step, ValueKind};
pub use procedure::{call_procedure, ProcedureCall};
pub use session::{register_lua_proc, Binding, PlaybackRequest, Session};
pub use translate::{binary_op, unary_op, Arith, MixAssignment, OperatorCall, Replacement};
pub use value::{value_to_output, Coercion, ScriptValue};
