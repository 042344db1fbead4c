//! Calls of procedures: each creates its processor node and connects its
//! arguments, in order, to the node's inputs.
use vstd::prelude::*;

use crate::handle::LuaNode;
use crate::ops::{
    expect_node, expect_nothing, node_of, nothing_of, BridgeError, GraphOp, NodeId, Reply, Selector,
    Source, Step,
};
use crate::session::Session;
use crate::value::{coercion_of, created_source, resolve_created, value_to_output, Coercion, ScriptValue};

verus! {

/// Where a procedure call stands.
#[derive(Clone, Copy, Debug, PartialEq, Eq, Structural)]
pub enum ProcedureStage {
    /// Waiting for the procedure's processor node.
    AwaitingProcessor,
    /// Waiting for the constant node of the argument at `next`.
    AwaitingConstant(NodeId),
    /// Waiting for the connection of the argument before `next`.
    AwaitingConnection(NodeId),
    Finished,
}

/// A call of a procedure: it creates the procedure's processor node, then
/// coerces each argument in turn and connects it to the input of its
/// position.
#[derive(Debug)]
pub struct ProcedureCall {
    pub args: Vec<ScriptValue>,
    pub sparse: bool,
    /// The position of the first argument that is not connected yet.
    pub next: usize,
    pub stage: ProcedureStage,
}

/// The abstract state of a procedure call.
pub struct ProcedureView {
    pub args: Seq<ScriptValue>,
    pub sparse: bool,
    pub next: int,
    pub stage: ProcedureStage,
}

impl View for ProcedureCall {
    type V = ProcedureView;

    open spec fn view(&self) -> ProcedureView {
        ProcedureView { args: self.args@, sparse: self.sparse, next: self.next as int, stage: self.stage }
    }
}

/// A state, the requests it sends, and its result once it has one.
pub type ProcedureMove = (ProcedureView, Seq<GraphOp>, Option<Result<LuaNode, BridgeError>>);

/// The first position from `i` on whose argument is to be connected: in a
/// sparse call, arguments with no value are passed over.
pub open spec fn skip_absent(args: Seq<ScriptValue>, sparse: bool, i: int) -> int
    decreases args.len() - i,
{
    if i < 0 || i >= args.len() {
        i
    } else if sparse && args[i] is Nil {
        skip_absent(args, sparse, i + 1)
    } else {
        i
    }
}

/// The request that connects `src` to input `i` of `target`.
pub open spec fn connect_input(src: Source, target: NodeId, i: int) -> GraphOp {
    GraphOp::Connect {
        source: src.node,
        source_output: src.output,
        target,
        target_input: Selector::Index(i as u32),
    }
}

/// Stops a procedure call with an error.
pub open spec fn procedure_failed(s: ProcedureView, e: BridgeError) -> ProcedureMove {
    (ProcedureView { stage: ProcedureStage::Finished, ..s }, Seq::empty(), Some(Err(e)))
}

/// The first move of a procedure call: its processor is requested.
pub open spec fn procedure_start(name: String, live: bool, sparse: bool, args: Seq<ScriptValue>) -> ProcedureMove {
    let s = ProcedureView { args, sparse, next: 0, stage: ProcedureStage::AwaitingProcessor };
    if !live {
        procedure_failed(s, BridgeError::StaleHandle)
    } else if args.len() > u32::MAX {
        procedure_failed(s, BridgeError::TooManyArguments)
    } else {
        (s, seq![GraphOp::AddProcessor { name }], None)
    }
}

/// The move that deals with the next argument to connect to `target`, or
/// yields the node once none is left.
pub open spec fn procedure_advance(s: ProcedureView, target: NodeId) -> ProcedureMove {
    let i = skip_absent(s.args, s.sparse, s.next);
    if i >= s.args.len() {
        (
            ProcedureView { next: i, stage: ProcedureStage::Finished, ..s },
            Seq::empty(),
            Some(Ok(LuaNode { index: target })),
        )
    } else {
        match coercion_of(s.args[i]) {
            Err(e) => procedure_failed(ProcedureView { next: i, ..s }, e),
            Ok(Coercion::Ready(src)) => (
                ProcedureView { next: i + 1, stage: ProcedureStage::AwaitingConnection(target), ..s },
                seq![connect_input(src, target, i)],
                None,
            ),
            Ok(Coercion::Create(op)) => (
                ProcedureView { next: i, stage: ProcedureStage::AwaitingConstant(target), ..s },
                seq![op],
                None,
            ),
        }
    }
}

/// The move of a procedure call on the reply to the request it sent last.
pub open spec fn procedure_next(s: ProcedureView, replies: Seq<Reply>) -> ProcedureMove {
    if replies.len() != 1 || s.stage is Finished {
        procedure_failed(s, BridgeError::UnexpectedReply)
    } else {
        match s.stage {
            ProcedureStage::AwaitingProcessor => match node_of(replies[0]) {
                Ok(t) => procedure_advance(s, t),
                Err(e) => procedure_failed(s, e),
            },
            ProcedureStage::AwaitingConstant(t) => match created_source(replies[0]) {
                Ok(src) => (
                    ProcedureView { next: s.next + 1, stage: ProcedureStage::AwaitingConnection(t), ..s },
                    seq![connect_input(src, t, s.next)],
                    None,
                ),
                Err(e) => procedure_failed(s, e),
            },
            ProcedureStage::AwaitingConnection(t) => match nothing_of(replies[0]) {
                Ok(()) => procedure_advance(s, t),
                Err(e) => procedure_failed(s, e),
            },
            ProcedureStage::Finished => procedure_failed(s, BridgeError::UnexpectedReply),
        }
    }
}

impl ProcedureCall {
    /// Every input position fits in 32 bits, and an argument awaits its
    /// constant node only where there is one.
    pub open spec fn wf(&self) -> bool {
        &&& !(self.stage is Finished) ==> self.args@.len() <= u32::MAX
        &&& self.next <= self.args@.len()
        &&& self.stage is AwaitingConstant ==> self.next < self.args@.len()
    }

    fn finish(&mut self, e: BridgeError) -> (r: Step<LuaNode>)
        ensures
            (final(self)@, r.sent(), r.outcome()) == procedure_failed(old(self)@, e),
    {
        self.stage = ProcedureStage::Finished;
        Step::Done(Err(e))
    }

    /// Deals with the next argument to connect to `target`: requests its
    /// constant node or its connection, or yields `target` once every
    /// argument is connected.
    fn connect_inputs_and_outputs(&mut self, target: NodeId) -> (r: Step<LuaNode>)
        requires
            old(self).wf(),
            old(self).args@.len() <= u32::MAX,
        ensures
            final(self).wf(),
            (final(self)@, r.sent(), r.outcome()) == procedure_advance(old(self)@, target),
    {
        let ghost start = self.next as int;
        while self.next < self.args.len() && self.sparse && self.args[self.next].is_nil()
            invariant
                self.next <= self.args@.len() <= u32::MAX,
                start <= self.next,
                skip_absent(self.args@, self.sparse, start) == skip_absent(self.args@, self.sparse, self.next as int),
                self.args == old(self).args,
                self.sparse == old(self).sparse,
                self.stage == old(self).stage,
                start == old(self).next,
            decreases self.args@.len() - self.next,
        {
            self.next = self.next + 1;
        }
        let i = self.next;
        if i >= self.args.len() {
            self.stage = ProcedureStage::Finished;
            return Step::Done(Ok(LuaNode { index: target }));
        }
        match value_to_output(&self.args[i]) {
            Err(e) => self.finish(e),
            Ok(Coercion::Ready(src)) => {
                self.next = i + 1;
                self.stage = ProcedureStage::AwaitingConnection(target);
                let mut ops: Vec<GraphOp> = Vec::new();
                ops.push(connect_request(src, target, i));
                Step::Send(ops)
            },
            Ok(Coercion::Create(create)) => {
                self.stage = ProcedureStage::AwaitingConstant(target);
                let mut ops: Vec<GraphOp> = Vec::new();
                ops.push(create);
                Step::Send(ops)
            },
        }
    }

    /// Advances the call on the reply to the request it sent last.
    pub fn step(&mut self, replies: &Vec<Reply>) -> (r: Step<LuaNode>)
        requires
            old(self).wf(),
        ensures
            final(self).wf(),
            (final(self)@, r.sent(), r.outcome()) == procedure_next(old(self)@, replies@),
    {
        if replies.len() != 1 {
            return self.finish(BridgeError::UnexpectedReply);
        }
        match self.stage {
            ProcedureStage::AwaitingProcessor => match expect_node(&replies[0]) {
                Ok(t) => self.connect_inputs_and_outputs(t),
                Err(e) => self.finish(e),
            },
            ProcedureStage::AwaitingConstant(t) => match resolve_created(&replies[0]) {
                Ok(src) => {
                    let i = self.next;
                    self.next = i + 1;
                    self.stage = ProcedureStage::AwaitingConnection(t);
                    let mut ops: Vec<GraphOp> = Vec::new();
                    ops.push(connect_request(src, t, i));
                    Step::Send(ops)
                },
                Err(e) => self.finish(e),
            },
            ProcedureStage::AwaitingConnection(t) => match expect_nothing(&replies[0]) {
                Ok(()) => self.connect_inputs_and_outputs(t),
                Err(e) => self.finish(e),
            },
            ProcedureStage::Finished => self.finish(BridgeError::UnexpectedReply),
        }
    }
}

/// The request that connects `src` to input `i` of `target`.
fn connect_request(src: Source, target: NodeId, i: usize) -> (r: GraphOp)
    requires
        i <= u32::MAX,
    ensures
        r == connect_input(src, target, i as int),
{
    GraphOp::Connect {
        source: src.node,
        source_output: src.output,
        target,
        target_input: Selector::Index(i as u32),
    }
}

/// Starts a call of the procedure whose processor is `processor`, with `args`
/// in input order. Without a session the call fails at once.
pub fn call_procedure(session: Option<&Session>, processor: &String, args: Vec<ScriptValue>) -> (r: (
    ProcedureCall,
    Step<LuaNode>,
))
    ensures
        r.0.wf(),
        (r.0@, r.1.sent(), r.1.outcome()) == procedure_start(
            *processor,
            session is Some,
            match session { Some(s) => s.sparse, None => false },
            args@,
        ),
{
    let sparse = match session {
        Some(s) => s.sparse,
        None => false,
    };
    let mut call = ProcedureCall { args, sparse, next: 0, stage: ProcedureStage::AwaitingProcessor };
    if session.is_none() {
        let r = call.finish(BridgeError::StaleHandle);
        return (call, r);
    }
    if call.args.len() > u32::MAX as usize {
        let r = call.finish(BridgeError::TooManyArguments);
        return (call, r);
    }
    let mut ops: Vec<GraphOp> = Vec::new();
    ops.push(GraphOp::AddProcessor { name: processor.clone() });
    (call, Step::Send(ops))
}

} // verus!
