//! Operators on handles, translated into graph operations.
use vstd::prelude::*;

use crate::handle::{Key, LuaMixer, LuaNode, LuaOutput};
use crate::ops::{
    batch_of, expect_batch, expect_node, expect_success, node_of, success_of, BridgeError, GraphOp,
    NodeId, Reply, Selector, Source, Step, ValueKind,
};
use crate::session::Session;
use crate::value::{coercion_of, created_source, resolve_created, value_to_output, Coercion, ScriptValue};

verus! {

/// Where an operator call stands.
#[derive(Clone, Copy, Debug, PartialEq, Eq, Structural)]
pub enum OperatorStage {
    /// Waiting for the constant node of a literal operand.
    AwaitingConstant,
    /// Waiting for the operator's processor node.
    AwaitingProcessor,
    /// Waiting for the operands' connections to this processor node.
    AwaitingConnections(NodeId),
    Finished,
}

/// An arithmetic operator applied to handles: it creates the operator's
/// processor node and connects each operand to the input of its position.
#[derive(Debug)]
pub struct OperatorCall {
    pub name: String,
    pub operands: Vec<Source>,
    pub stage: OperatorStage,
}

/// The abstract state of an operator call.
pub struct OperatorView {
    pub name: String,
    pub operands: Seq<Source>,
    pub stage: OperatorStage,
}

impl View for OperatorCall {
    type V = OperatorView;

    open spec fn view(&self) -> OperatorView {
        OperatorView { name: self.name, operands: self.operands@, stage: self.stage }
    }
}

/// A state, the requests it sends, and its result once it has one.
pub type OperatorMove = (OperatorView, Seq<GraphOp>, Option<Result<LuaNode, BridgeError>>);

/// The requests that connect each operand to the input of its position on `target`.
pub open spec fn connections(operands: Seq<Source>, target: NodeId) -> Seq<GraphOp> {
    Seq::new(
        operands.len(),
        |i: int|
            GraphOp::Connect {
                source: operands[i].node,
                source_output: operands[i].output,
                target,
                target_input: Selector::Index(i as u32),
            },
    )
}

/// Stops an operator call with an error.
pub open spec fn operator_failed(s: OperatorView, e: BridgeError) -> OperatorMove {
    (OperatorView { stage: OperatorStage::Finished, ..s }, Seq::empty(), Some(Err(e)))
}

/// The first move of a binary operator: the right operand is coerced, and
/// the processor is requested once both operands are sources.
pub open spec fn binary_start(name: String, live: bool, lhs: Source, rhs: ScriptValue) -> OperatorMove {
    let s = OperatorView { name, operands: seq![lhs], stage: OperatorStage::Finished };
    if !live {
        operator_failed(s, BridgeError::StaleHandle)
    } else {
        match coercion_of(rhs) {
            Err(e) => operator_failed(s, e),
            Ok(Coercion::Ready(src)) => (
                OperatorView { name, operands: seq![lhs, src], stage: OperatorStage::AwaitingProcessor },
                seq![GraphOp::AddProcessor { name }],
                None,
            ),
            Ok(Coercion::Create(op)) => (
                OperatorView { name, operands: seq![lhs], stage: OperatorStage::AwaitingConstant },
                seq![op],
                None,
            ),
        }
    }
}

/// The first move of a unary operator: its processor is requested.
pub open spec fn unary_start(name: String, live: bool, operand: Source) -> OperatorMove {
    let s = OperatorView { name, operands: seq![operand], stage: OperatorStage::AwaitingProcessor };
    if !live {
        operator_failed(s, BridgeError::StaleHandle)
    } else {
        (s, seq![GraphOp::AddProcessor { name }], None)
    }
}

/// The move of an operator call on the replies to the requests it sent last.
pub open spec fn operator_next(s: OperatorView, replies: Seq<Reply>) -> OperatorMove {
    match s.stage {
        OperatorStage::AwaitingConstant => {
            if replies.len() != 1 {
                operator_failed(s, BridgeError::UnexpectedReply)
            } else {
                match created_source(replies[0]) {
                    Ok(src) => (
                        OperatorView {
                            operands: s.operands.push(src),
                            stage: OperatorStage::AwaitingProcessor,
                            ..s
                        },
                        seq![GraphOp::AddProcessor { name: s.name }],
                        None,
                    ),
                    Err(e) => operator_failed(s, e),
                }
            }
        },
        OperatorStage::AwaitingProcessor => {
            if replies.len() != 1 {
                operator_failed(s, BridgeError::UnexpectedReply)
            } else {
                match node_of(replies[0]) {
                    Ok(t) => (
                        OperatorView { stage: OperatorStage::AwaitingConnections(t), ..s },
                        connections(s.operands, t),
                        None,
                    ),
                    Err(e) => operator_failed(s, e),
                }
            }
        },
        OperatorStage::AwaitingConnections(t) => {
            match batch_of(replies, s.operands.len()) {
                Ok(()) => (
                    OperatorView { stage: OperatorStage::Finished, ..s },
                    Seq::empty(),
                    Some(Ok(LuaNode { index: t })),
                ),
                Err(e) => operator_failed(s, e),
            }
        },
        OperatorStage::Finished => operator_failed(s, BridgeError::UnexpectedReply),
    }
}

impl OperatorCall {
    /// At most two operands, and room for one more while a constant operand
    /// is being created.
    pub open spec fn wf(&self) -> bool {
        &&& self.operands@.len() <= 2
        &&& self.stage is AwaitingConstant ==> self.operands@.len() <= 1
    }

    fn finish(&mut self, e: BridgeError) -> (r: Step<LuaNode>)
        ensures
            (final(self)@, r.sent(), r.outcome()) == operator_failed(old(self)@, e),
            final(self).operands == old(self).operands,
    {
        self.stage = OperatorStage::Finished;
        Step::Done(Err(e))
    }

    fn request_processor(&self) -> (r: Step<LuaNode>)
        ensures
            r.sent() == seq![GraphOp::AddProcessor { name: self.name }],
            r.outcome() is None,
    {
        let mut ops: Vec<GraphOp> = Vec::new();
        ops.push(GraphOp::AddProcessor { name: self.name.clone() });
        Step::Send(ops)
    }

    /// Advances the call on the replies to the requests it sent last.
    pub fn step(&mut self, replies: &Vec<Reply>) -> (r: Step<LuaNode>)
        requires
            old(self).wf(),
        ensures
            final(self).wf(),
            (final(self)@, r.sent(), r.outcome()) == operator_next(old(self)@, replies@),
    {
        match self.stage {
            OperatorStage::AwaitingConstant => {
                if replies.len() != 1 {
                    return self.finish(BridgeError::UnexpectedReply);
                }
                match resolve_created(&replies[0]) {
                    Ok(src) => {
                        self.operands.push(src);
                        self.stage = OperatorStage::AwaitingProcessor;
                        self.request_processor()
                    },
                    Err(e) => self.finish(e),
                }
            },
            OperatorStage::AwaitingProcessor => {
                if replies.len() != 1 {
                    return self.finish(BridgeError::UnexpectedReply);
                }
                match expect_node(&replies[0]) {
                    Ok(t) => {
                        let mut ops: Vec<GraphOp> = Vec::new();
                        let mut i: usize = 0;
                        while i < self.operands.len()
                            invariant
                                0 <= i <= self.operands@.len() <= 2,
                                ops@ =~= connections(self.operands@, t).subrange(0, i as int),
                            decreases self.operands@.len() - i,
                        {
                            let src = &self.operands[i];
                            ops.push(
                                GraphOp::Connect {
                                    source: src.node,
                                    source_output: src.output.duplicate(),
                                    target: t,
                                    target_input: Selector::Index(i as u32),
                                },
                            );
                            i = i + 1;
                        }
                        self.stage = OperatorStage::AwaitingConnections(t);
                        Step::Send(ops)
                    },
                    Err(e) => self.finish(e),
                }
            },
            OperatorStage::AwaitingConnections(t) => {
                match expect_batch(replies, self.operands.len()) {
                    Ok(()) => {
                        self.stage = OperatorStage::Finished;
                        Step::Done(Ok(LuaNode { index: t }))
                    },
                    Err(e) => self.finish(e),
                }
            },
            OperatorStage::Finished => self.finish(BridgeError::UnexpectedReply),
        }
    }
}

/// Starts a binary operator: the processor `op` with `lhs` at input 0 and
/// the coercion of `rhs` at input 1.
pub fn binary_op(op: &str, session: Option<&Session>, lhs: Source, rhs: &ScriptValue) -> (r: (
    OperatorCall,
    Step<LuaNode>,
))
    ensures
        r.0.wf(),
        r.0.name@ == op@,
        (r.0@, r.1.sent(), r.1.outcome()) == binary_start(r.0.name, session is Some, lhs, *rhs),
{
    let name = op.to_owned();
    let mut call = OperatorCall { name, operands: Vec::new(), stage: OperatorStage::Finished };
    call.operands.push(lhs);
    assert(call.operands@ =~= seq![lhs]);
    if session.is_none() {
        let r = call.finish(BridgeError::StaleHandle);
        return (call, r);
    }
    match value_to_output(rhs) {
        Err(e) => {
            let r = call.finish(e);
            (call, r)
        },
        Ok(Coercion::Ready(src)) => {
            call.operands.push(src);
            call.stage = OperatorStage::AwaitingProcessor;
            assert(call.operands@ =~= seq![lhs, src]);
            let r = call.request_processor();
            (call, r)
        },
        Ok(Coercion::Create(create)) => {
            call.stage = OperatorStage::AwaitingConstant;
            let mut ops: Vec<GraphOp> = Vec::new();
            ops.push(create);
            assert(ops@ =~= seq![create]);
            (call, Step::Send(ops))
        },
    }
}

/// Starts a unary operator: the processor `op` with `operand` at input 0.
pub fn unary_op(op: &str, session: Option<&Session>, operand: Source) -> (r: (OperatorCall, Step<LuaNode>))
    ensures
        r.0.wf(),
        r.0.name@ == op@,
        (r.0@, r.1.sent(), r.1.outcome()) == unary_start(r.0.name, session is Some, operand),
{
    let name = op.to_owned();
    let mut call = OperatorCall { name, operands: Vec::new(), stage: OperatorStage::AwaitingProcessor };
    call.operands.push(operand);
    assert(call.operands@ =~= seq![operand]);
    if session.is_none() {
        let r = call.finish(BridgeError::StaleHandle);
        return (call, r);
    }
    let r = call.request_processor();
    (call, r)
}

/// The arithmetic operators of scripts.
#[derive(Clone, Copy, Debug, PartialEq, Eq, Structural)]
pub enum Arith {
    Add,
    Sub,
    Mul,
    Div,
}

impl Arith {
    /// The name of the processor that computes this operator.
    pub open spec fn name_of(self) -> Seq<char> {
        match self {
            Arith::Add => "Add"@,
            Arith::Sub => "Sub"@,
            Arith::Mul => "Mul"@,
            Arith::Div => "Div"@,
        }
    }

    /// The name of the processor that computes this operator.
    pub fn processor_name(self) -> (r: &'static str)
        ensures
            r@ == self.name_of(),
    {
        match self {
            Arith::Add => "Add",
            Arith::Sub => "Sub",
            Arith::Mul => "Mul",
            Arith::Div => "Div",
        }
    }
}

/// The name of the processor that negates.
pub open spec fn negation_name() -> Seq<char> {
    "Neg"@
}

impl LuaNode {
    /// Applies `op` with this node's first output on the left and `rhs` on the right.
    pub fn arith(&self, op: Arith, session: Option<&Session>, rhs: &ScriptValue) -> (r: (
        OperatorCall,
        Step<LuaNode>,
    ))
        ensures
            r.0.wf(),
            r.0.name@ == op.name_of(),
            (r.0@, r.1.sent(), r.1.outcome()) == binary_start(
                r.0.name,
                session is Some,
                Source { node: self.index, output: Selector::Index(0) },
                *rhs,
            ),
    {
        binary_op(op.processor_name(), session, self.source(), rhs)
    }

    /// Negates this node's first output.
    pub fn neg(&self, session: Option<&Session>) -> (r: (OperatorCall, Step<LuaNode>))
        ensures
            r.0.wf(),
            r.0.name@ == negation_name(),
            (r.0@, r.1.sent(), r.1.outcome()) == unary_start(
                r.0.name,
                session is Some,
                Source { node: self.index, output: Selector::Index(0) },
            ),
    {
        unary_op("Neg", session, self.source())
    }
}

impl LuaOutput {
    /// Applies `op` with this output on the left and `rhs` on the right.
    pub fn arith(&self, op: Arith, session: Option<&Session>, rhs: &ScriptValue) -> (r: (
        OperatorCall,
        Step<LuaNode>,
    ))
        ensures
            r.0.wf(),
            r.0.name@ == op.name_of(),
            (r.0@, r.1.sent(), r.1.outcome()) == binary_start(
                r.0.name,
                session is Some,
                Source { node: self.node, output: self.output },
                *rhs,
            ),
    {
        binary_op(op.processor_name(), session, self.source(), rhs)
    }

    /// Negates this output.
    pub fn neg(&self, session: Option<&Session>) -> (r: (OperatorCall, Step<LuaNode>))
        ensures
            r.0.wf(),
            r.0.name@ == negation_name(),
            (r.0@, r.1.sent(), r.1.outcome()) == unary_start(
                r.0.name,
                session is Some,
                Source { node: self.node, output: self.output },
            ),
    {
        unary_op("Neg", session, self.source())
    }
}

/// Where a replacement stands.
#[derive(Clone, Copy, Debug, PartialEq, Eq, Structural)]
pub enum ReplaceStage {
    /// Waiting for the constant node of a literal replacement.
    AwaitingConstant,
    /// Waiting for the server to replace the node.
    AwaitingReplacement,
    Finished,
}

/// The replacement of the node `replaced` by another.
#[derive(Clone, Copy, Debug, PartialEq, Eq, Structural)]
pub struct Replacement {
    pub replaced: NodeId,
    pub stage: ReplaceStage,
}

/// A state, the requests it sends, and its result once it has one.
pub type ReplaceMove = (Replacement, Seq<GraphOp>, Option<Result<LuaNode, BridgeError>>);

/// Stops a replacement with an error.
pub open spec fn replace_failed(s: Replacement, e: BridgeError) -> ReplaceMove {
    (Replacement { stage: ReplaceStage::Finished, ..s }, Seq::empty(), Some(Err(e)))
}

/// The first move of replacing `replaced` by `v`: `v` is coerced, and the
/// replacement requested once it is a node.
pub open spec fn replace_start(live: bool, replaced: NodeId, v: ScriptValue) -> ReplaceMove {
    let s = Replacement { replaced, stage: ReplaceStage::Finished };
    if !live {
        replace_failed(s, BridgeError::StaleHandle)
    } else {
        match coercion_of(v) {
            Err(e) => replace_failed(s, e),
            Ok(Coercion::Ready(src)) => (
                Replacement { replaced, stage: ReplaceStage::AwaitingReplacement },
                seq![GraphOp::ReplaceNode { replaced, replacement: src.node }],
                None,
            ),
            Ok(Coercion::Create(op)) => (
                Replacement { replaced, stage: ReplaceStage::AwaitingConstant },
                seq![op],
                None,
            ),
        }
    }
}

/// The move of a replacement on the reply to the request it sent last; the
/// result is the node that the server names in its reply.
pub open spec fn replace_next(s: Replacement, replies: Seq<Reply>) -> ReplaceMove {
    if replies.len() != 1 {
        replace_failed(s, BridgeError::UnexpectedReply)
    } else {
        match s.stage {
            ReplaceStage::AwaitingConstant => match created_source(replies[0]) {
                Ok(src) => (
                    Replacement { stage: ReplaceStage::AwaitingReplacement, ..s },
                    seq![GraphOp::ReplaceNode { replaced: s.replaced, replacement: src.node }],
                    None,
                ),
                Err(e) => replace_failed(s, e),
            },
            ReplaceStage::AwaitingReplacement => match node_of(replies[0]) {
                Ok(id) => (
                    Replacement { stage: ReplaceStage::Finished, ..s },
                    Seq::empty(),
                    Some(Ok(LuaNode { index: id })),
                ),
                Err(e) => replace_failed(s, e),
            },
            ReplaceStage::Finished => replace_failed(s, BridgeError::UnexpectedReply),
        }
    }
}

/// The handle after a replacement step with this outcome: the node that a
/// successful replacement yields, otherwise the handle as it was.
pub open spec fn handle_after(handle: LuaNode, outcome: Option<Result<LuaNode, BridgeError>>) -> LuaNode {
    match outcome {
        Some(Ok(n)) => n,
        _ => handle,
    }
}

fn single(op: GraphOp) -> (r: Vec<GraphOp>)
    ensures
        r@ == seq![op],
{
    let mut ops: Vec<GraphOp> = Vec::new();
    ops.push(op);
    assert(ops@ =~= seq![op]);
    ops
}

impl LuaNode {
    /// Starts replacing this node, on the remote graph, by the node that `v`
    /// stands for.
    pub fn replace(&self, session: Option<&Session>, v: &ScriptValue) -> (r: (Replacement, Step<LuaNode>))
        ensures
            (r.0, r.1.sent(), r.1.outcome()) == replace_start(session is Some, self.index, *v),
    {
        let mut rep = Replacement { replaced: self.index, stage: ReplaceStage::Finished };
        if session.is_none() {
            return (rep, Step::Done(Err(BridgeError::StaleHandle)));
        }
        match value_to_output(v) {
            Err(e) => (rep, Step::Done(Err(e))),
            Ok(Coercion::Ready(src)) => {
                rep.stage = ReplaceStage::AwaitingReplacement;
                (rep, Step::Send(single(GraphOp::ReplaceNode { replaced: self.index, replacement: src.node })))
            },
            Ok(Coercion::Create(op)) => {
                rep.stage = ReplaceStage::AwaitingConstant;
                (rep, Step::Send(single(op)))
            },
        }
    }
}

impl Replacement {
    /// Advances the replacement on the reply to the request it sent last.
    /// Once the server has replaced the node, `handle` is moved to the node
    /// that it named; otherwise `handle` stays as it was.
    pub fn step(&mut self, handle: &mut LuaNode, replies: &Vec<Reply>) -> (r: Step<LuaNode>)
        ensures
            (*final(self), r.sent(), r.outcome()) == replace_next(*old(self), replies@),
            *final(handle) == handle_after(*old(handle), r.outcome()),
    {
        if replies.len() != 1 {
            self.stage = ReplaceStage::Finished;
            return Step::Done(Err(BridgeError::UnexpectedReply));
        }
        match self.stage {
            ReplaceStage::AwaitingConstant => match resolve_created(&replies[0]) {
                Ok(src) => {
                    self.stage = ReplaceStage::AwaitingReplacement;
                    Step::Send(single(GraphOp::ReplaceNode { replaced: self.replaced, replacement: src.node }))
                },
                Err(e) => {
                    self.stage = ReplaceStage::Finished;
                    Step::Done(Err(e))
                },
            },
            ReplaceStage::AwaitingReplacement => match expect_node(&replies[0]) {
                Ok(id) => {
                    self.stage = ReplaceStage::Finished;
                    handle.index = id;
                    Step::Done(Ok(LuaNode { index: id }))
                },
                Err(e) => {
                    self.stage = ReplaceStage::Finished;
                    Step::Done(Err(e))
                },
            },
            ReplaceStage::Finished => Step::Done(Err(BridgeError::UnexpectedReply)),
        }
    }
}

/// Where a mix-channel assignment stands.
#[derive(Clone, Copy, Debug, PartialEq, Eq, Structural)]
pub enum MixStage {
    /// Waiting for the constant node of a literal value.
    AwaitingConstant,
    /// Waiting for the server to add the source to the channel.
    AwaitingMix,
    Finished,
}

/// The assignment of a source to a channel of the mix bus.
#[derive(Clone, Copy, Debug, PartialEq, Eq, Structural)]
pub struct MixAssignment {
    pub channel: usize,
    pub stage: MixStage,
}

/// A state, the requests it sends, and its result once it has one.
pub type MixMove = (MixAssignment, Seq<GraphOp>, Option<Result<(), BridgeError>>);

/// Stops a mix-channel assignment with an error.
pub open spec fn mix_failed(s: MixAssignment, e: BridgeError) -> MixMove {
    (MixAssignment { stage: MixStage::Finished, ..s }, Seq::empty(), Some(Err(e)))
}

/// The channel that `mix[key] = producer` assigns, where `producer` is a
/// value of kind `producer`: the key must be an integer that is a channel
/// number, and the producer a function.
pub open spec fn channel_of(live: bool, key: Key, producer: ValueKind) -> Result<usize, BridgeError> {
    if !live {
        Err(BridgeError::StaleHandle)
    } else {
        match key {
            Key::Integer(v) => if v < 0 || v > usize::MAX {
                Err(BridgeError::InvalidArgument(ValueKind::Number))
            } else if producer != ValueKind::Function {
                Err(BridgeError::InvalidArgument(producer))
            } else {
                Ok(v as usize)
            },
            _ => Err(BridgeError::InvalidArgument(key.kind())),
        }
    }
}

/// The request that adds `src` to `channel`.
pub open spec fn add_to_mix(channel: usize, src: Source) -> GraphOp {
    GraphOp::AddToMix { mixer_channel: channel, source: src.node, source_output: src.output }
}

/// The first move of assigning what the producer returned, `v`, to `channel`.
pub open spec fn mix_start(live: bool, channel: usize, v: ScriptValue) -> MixMove {
    let s = MixAssignment { channel, stage: MixStage::Finished };
    if !live {
        mix_failed(s, BridgeError::StaleHandle)
    } else {
        match coercion_of(v) {
            Err(e) => mix_failed(s, e),
            Ok(Coercion::Ready(src)) => (
                MixAssignment { channel, stage: MixStage::AwaitingMix },
                seq![add_to_mix(channel, src)],
                None,
            ),
            Ok(Coercion::Create(op)) => (MixAssignment { channel, stage: MixStage::AwaitingConstant }, seq![op], None),
        }
    }
}

/// The move of a mix-channel assignment on the reply to the request it sent last.
pub open spec fn mix_next(s: MixAssignment, replies: Seq<Reply>) -> MixMove {
    if replies.len() != 1 {
        mix_failed(s, BridgeError::UnexpectedReply)
    } else {
        match s.stage {
            MixStage::AwaitingConstant => match created_source(replies[0]) {
                Ok(src) => (
                    MixAssignment { stage: MixStage::AwaitingMix, ..s },
                    seq![add_to_mix(s.channel, src)],
                    None,
                ),
                Err(e) => mix_failed(s, e),
            },
            MixStage::AwaitingMix => match success_of(replies[0]) {
                Ok(()) => (MixAssignment { stage: MixStage::Finished, ..s }, Seq::empty(), Some(Ok(()))),
                Err(e) => mix_failed(s, e),
            },
            MixStage::Finished => mix_failed(s, BridgeError::UnexpectedReply),
        }
    }
}

impl LuaMixer {
    /// Checks `mix[key] = producer`, where `producer` is a value of kind
    /// `producer`, before the producer is called: yields the channel. A key
    /// that is not an integer, or is a negative one, and a producer that is
    /// not a function are invalid arguments. Nothing is sent to the remote
    /// graph.
    pub fn channel(&self, session: Option<&Session>, key: &Key, producer: ValueKind) -> (r: Result<usize, BridgeError>)
        ensures
            r == channel_of(session is Some, *key, producer),
    {
        if session.is_none() {
            return Err(BridgeError::StaleHandle);
        }
        match key {
            Key::Integer(v) => {
                if *v < 0 || *v as u64 > usize::MAX as u64 {
                    Err(BridgeError::InvalidArgument(ValueKind::Number))
                } else if producer != ValueKind::Function {
                    Err(BridgeError::InvalidArgument(producer))
                } else {
                    Ok(*v as usize)
                }
            },
            Key::Text(_) => Err(BridgeError::InvalidArgument(ValueKind::Text)),
            Key::Other(k) => Err(BridgeError::InvalidArgument(*k)),
        }
    }

    /// Starts assigning `v`, what the producer returned, to `channel`.
    pub fn assign(&self, session: Option<&Session>, channel: usize, v: &ScriptValue) -> (r: (
        MixAssignment,
        Step<()>,
    ))
        ensures
            (r.0, r.1.sent(), r.1.outcome()) == mix_start(session is Some, channel, *v),
    {
        let mut mix = MixAssignment { channel, stage: MixStage::Finished };
        if session.is_none() {
            return (mix, Step::Done(Err(BridgeError::StaleHandle)));
        }
        match value_to_output(v) {
            Err(e) => (mix, Step::Done(Err(e))),
            Ok(Coercion::Ready(src)) => {
                mix.stage = MixStage::AwaitingMix;
                (mix, Step::Send(single(add_to_mix_request(channel, src))))
            },
            Ok(Coercion::Create(op)) => {
                mix.stage = MixStage::AwaitingConstant;
                (mix, Step::Send(single(op)))
            },
        }
    }
}

fn add_to_mix_request(channel: usize, src: Source) -> (r: GraphOp)
    ensures
        r == add_to_mix(channel, src),
{
    GraphOp::AddToMix { mixer_channel: channel, source: src.node, source_output: src.output }
}

impl MixAssignment {
    /// Advances the assignment on the reply to the request it sent last.
    pub fn step(&mut self, replies: &Vec<Reply>) -> (r: Step<()>)
        ensures
            (*final(self), r.sent(), r.outcome()) == mix_next(*old(self), replies@),
    {
        if replies.len() != 1 {
            self.stage = MixStage::Finished;
            return Step::Done(Err(BridgeError::UnexpectedReply));
        }
        match self.stage {
            MixStage::AwaitingConstant => match resolve_created(&replies[0]) {
                Ok(src) => {
                    self.stage = MixStage::AwaitingMix;
                    Step::Send(single(add_to_mix_request(self.channel, src)))
                },
                Err(e) => {
                    self.stage = MixStage::Finished;
                    Step::Done(Err(e))
                },
            },
            MixStage::AwaitingMix => match expect_success(&replies[0]) {
                Ok(()) => {
                    self.stage = MixStage::Finished;
                    Step::Done(Ok(()))
                },
                Err(e) => {
                    self.stage = MixStage::Finished;
                    Step::Done(Err(e))
                },
            },
            MixStage::Finished => Step::Done(Err(BridgeError::UnexpectedReply)),
        }
    }
}

} // verus!
