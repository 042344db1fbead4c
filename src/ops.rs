//! The vocabulary shared with the remote graph server: node identifiers,
//! output selectors, operations, replies and errors.
use vstd::prelude::*;

verus! {

/// An identifier that the remote server assigned to a node.
#[derive(Clone, Copy, Debug, PartialEq, Eq, Structural)]
pub struct NodeId(pub u32);

/// Selects one input or output of a node, by position or by name.
#[derive(Clone, Debug, PartialEq, Eq)]
pub enum Selector {
    Index(u32),
    Name(String),
}

impl Selector {
    /// A copy of this selector.
    pub fn duplicate(&self) -> (r: Selector)
        ensures
            r == *self,
    {
        match self {
            Selector::Index(i) => Selector::Index(*i),
            Selector::Name(n) => Selector::Name(n.clone()),
        }
    }
}

/// One output of a node, usable as the source of a connection.
#[derive(Clone, Debug, PartialEq, Eq)]
pub struct Source {
    pub node: NodeId,
    pub output: Selector,
}

/// The kind of a script value, as reported in errors.
#[derive(Clone, Copy, Debug, PartialEq, Eq, Structural)]
pub enum ValueKind {
    Nil,
    Boolean,
    Number,
    Text,
    Function,
    Table,
    UserData,
    Thread,
    Other,
}

/// How the remote side failed an operation.
#[derive(Clone, Debug, PartialEq, Eq)]
pub enum RemoteFailure {
    /// The server reported this failure.
    Reported(String),
    /// The reply named no node where the request creates or resolves one.
    MissingNode,
    /// The reply named this node where the request returns nothing.
    UnexpectedNode(NodeId),
}

impl RemoteFailure {
    /// A copy of this failure.
    pub fn duplicate(&self) -> (r: RemoteFailure)
        ensures
            r == *self,
    {
        match self {
            RemoteFailure::Reported(s) => RemoteFailure::Reported(s.clone()),
            RemoteFailure::MissingNode => RemoteFailure::MissingNode,
            RemoteFailure::UnexpectedNode(id) => RemoteFailure::UnexpectedNode(*id),
        }
    }
}

/// The ways in which an operation of the bridge can fail.
#[derive(Clone, Debug, PartialEq, Eq)]
pub enum BridgeError {
    /// Sending or receiving failed.
    Transport(String),
    /// The remote server failed the operation, or answered it in a shape
    /// that the operation does not have.
    Remote(RemoteFailure),
    /// A value of this kind cannot be used where it was given.
    InvalidArgument(ValueKind),
    /// A handle was indexed with a key that is neither an integer nor a string.
    InvalidIndex,
    /// The session behind a handle no longer exists.
    StaleHandle,
    /// A translation was handed another number of replies than it sent
    /// requests, or was stepped after it had finished.
    UnexpectedReply,
    /// A procedure was called with more arguments than inputs can be numbered.
    TooManyArguments,
}

impl BridgeError {
    /// A copy of this error.
    pub fn duplicate(&self) -> (r: BridgeError)
        ensures
            r == *self,
    {
        match self {
            BridgeError::Transport(s) => BridgeError::Transport(s.clone()),
            BridgeError::Remote(f) => BridgeError::Remote(f.duplicate()),
            BridgeError::InvalidArgument(k) => BridgeError::InvalidArgument(*k),
            BridgeError::InvalidIndex => BridgeError::InvalidIndex,
            BridgeError::StaleHandle => BridgeError::StaleHandle,
            BridgeError::UnexpectedReply => BridgeError::UnexpectedReply,
            BridgeError::TooManyArguments => BridgeError::TooManyArguments,
        }
    }
}

/// An operation on the remote graph.
#[derive(Clone, Debug, PartialEq, Eq)]
pub enum GraphOp {
    /// Create a node whose output is a constant 32-bit float, given by its bits.
    AddConstantF32(u32),
    AddConstantBool(bool),
    AddConstantString(String),
    AddProcessor { name: String },
    Connect { source: NodeId, source_output: Selector, target: NodeId, target_input: Selector },
    ReplaceNode { replaced: NodeId, replacement: NodeId },
    AddToMix { mixer_channel: usize, source: NodeId, source_output: Selector },
    Play,
    Stop,
}

/// What came back for one request.
#[derive(Clone, Debug, PartialEq, Eq)]
pub enum Reply {
    /// The request created or resolved this node.
    Node(NodeId),
    /// The request succeeded and returned nothing.
    Nothing,
    /// The request failed.
    Failed(BridgeError),
}

/// What a translation asks for next: send these requests (all of them may be
/// in flight at once) and hand back their replies in the same order, or stop
/// with a result.
#[derive(Debug)]
pub enum Step<T> {
    Send(Vec<GraphOp>),
    Done(Result<T, BridgeError>),
}

impl<T> Step<T> {
    /// The requests to send; empty once the translation is done.
    pub open spec fn sent(&self) -> Seq<GraphOp> {
        match self {
            Step::Send(ops) => ops@,
            Step::Done(_) => Seq::empty(),
        }
    }

    /// The result, once the translation is done.
    pub open spec fn outcome(&self) -> Option<Result<T, BridgeError>> {
        match self {
            Step::Send(_) => None,
            Step::Done(r) => Some(*r),
        }
    }
}

/// The node that a reply names, or why there is none.
pub open spec fn node_of(reply: Reply) -> Result<NodeId, BridgeError> {
    match reply {
        Reply::Node(id) => Ok(id),
        Reply::Nothing => Err(BridgeError::Remote(RemoteFailure::MissingNode)),
        Reply::Failed(e) => Err(e),
    }
}

/// Reads a reply that must name a node.
pub fn expect_node(reply: &Reply) -> (r: Result<NodeId, BridgeError>)
    ensures
        r == node_of(*reply),
{
    match reply {
        Reply::Node(id) => Ok(*id),
        Reply::Nothing => Err(BridgeError::Remote(RemoteFailure::MissingNode)),
        Reply::Failed(e) => Err(e.duplicate()),
    }
}

/// Whether a reply to a request that returns nothing is a success.
pub open spec fn nothing_of(reply: Reply) -> Result<(), BridgeError> {
    match reply {
        Reply::Node(id) => Err(BridgeError::Remote(RemoteFailure::UnexpectedNode(id))),
        Reply::Nothing => Ok(()),
        Reply::Failed(e) => Err(e),
    }
}

/// Reads a reply that must carry nothing.
pub fn expect_nothing(reply: &Reply) -> (r: Result<(), BridgeError>)
    ensures
        r == nothing_of(*reply),
{
    match reply {
        Reply::Node(id) => Err(BridgeError::Remote(RemoteFailure::UnexpectedNode(*id))),
        Reply::Nothing => Ok(()),
        Reply::Failed(e) => Err(e.duplicate()),
    }
}

/// The error that the first failed reply carries, if any fails.
pub open spec fn first_failure(replies: Seq<Reply>) -> Option<BridgeError>
    decreases replies.len(),
{
    if replies.len() == 0 {
        None
    } else if nothing_of(replies[0]) is Err {
        Some(nothing_of(replies[0])->Err_0)
    } else {
        first_failure(replies.drop_first())
    }
}

/// The outcome of a batch of requests that each return nothing: the error of
/// the earliest one that failed, otherwise success. A batch of another length
/// than `expected` is an unexpected reply.
pub open spec fn batch_of(replies: Seq<Reply>, expected: nat) -> Result<(), BridgeError> {
    if replies.len() != expected {
        Err(BridgeError::UnexpectedReply)
    } else {
        match first_failure(replies) {
            Some(e) => Err(e),
            None => Ok(()),
        }
    }
}

/// Reads the replies to a batch of requests that each return nothing.
pub fn expect_batch(replies: &Vec<Reply>, expected: usize) -> (r: Result<(), BridgeError>)
    ensures
        r == batch_of(replies@, expected as nat),
{
    if replies.len() != expected {
        return Err(BridgeError::UnexpectedReply);
    }
    let mut i: usize = 0;
    assert(replies@.subrange(0, replies@.len() as int) =~= replies@);
    while i < replies.len()
        invariant
            0 <= i <= replies@.len(),
            replies@.len() == expected,
            first_failure(replies@) == first_failure(replies@.subrange(i as int, replies@.len() as int)),
        decreases replies@.len() - i,
    {
        let step = expect_nothing(&replies[i]);
        let ghost rest = replies@.subrange(i as int, replies@.len() as int);
        assert(rest[0] == replies@[i as int]);
        match step {
            Err(e) => {
                assert(first_failure(rest) == Some(e));
                return Err(e);
            },
            Ok(()) => {
                assert(rest.drop_first() =~= replies@.subrange(i + 1, replies@.len() as int));
            },
        }
        i = i + 1;
    }
    assert(replies@.subrange(i as int, replies@.len() as int) =~= Seq::<Reply>::empty());
    Ok(())
}

/// Reads a reply to a request whose content does not matter: only a failure counts.
pub open spec fn success_of(reply: Reply) -> Result<(), BridgeError> {
    match reply {
        Reply::Failed(e) => Err(e),
        _ => Ok(()),
    }
}

/// Reads a reply to a request whose content does not matter.
pub fn expect_success(reply: &Reply) -> (r: Result<(), BridgeError>)
    ensures
        r == success_of(*reply),
{
    match reply {
        Reply::Failed(e) => Err(e.duplicate()),
        _ => Ok(()),
    }
}

} // verus!
