//! Properties that hold across the translations.
use vstd::prelude::*;

use crate::handle::{Key, LuaNode};
use crate::ops::{nothing_of, BridgeError, GraphOp, NodeId, Reply, Selector, Source, ValueKind};
use crate::procedure::procedure_start;
use crate::session::playback_start;
use crate::translate::{
    binary_start, channel_of, handle_after, mix_start, operator_next, replace_next, replace_start,
    unary_start, OperatorStage, OperatorView, ReplaceStage, Replacement,
};
use crate::value::{coercion_of, created_source, Coercion, ScriptValue};

verus! {

/// Coercion of a literal is not idempotent: every coercion of a number asks
/// for a new constant node carrying that number, and two coercions whose
/// requests the server answers with two nodes yield two distinct sources.
pub proof fn lemma_literal_coercion_creates_each_time(v: u32, first: NodeId, second: NodeId)
    requires
        first != second,
    ensures
        coercion_of(ScriptValue::Number(v)) == Ok::<Coercion, BridgeError>(Coercion::Create(GraphOp::AddConstantF32(v))),
        created_source(Reply::Node(first)) is Ok,
        created_source(Reply::Node(second)) is Ok,
        created_source(Reply::Node(first))->Ok_0.node != created_source(Reply::Node(second))->Ok_0.node,
{
}

/// Every literal, whatever its kind, asks for a constant node of its own.
pub proof fn lemma_literals_always_create(v: ScriptValue)
    requires
        v.is_literal(),
    ensures
        coercion_of(v) is Ok,
        coercion_of(v)->Ok_0 is Create,
{
}

/// A binary operator on two handles sends exactly one request for its
/// processor, then exactly two connections, one to input 0 from the left
/// operand and one to input 1 from the right, both at once; once both have
/// succeeded, whatever order they completed in, the result is the processor
/// node.
pub proof fn lemma_binary_op_on_handles(name: String, lhs: Source, rhs: ScriptValue, target: NodeId)
    requires
        rhs is Node || rhs is Output,
    ensures
        ({
            let src = coercion_of(rhs)->Ok_0->Ready_0;
            let first = binary_start(name, true, lhs, rhs);
            let second = operator_next(first.0, seq![Reply::Node(target)]);
            let third = operator_next(second.0, seq![Reply::Nothing, Reply::Nothing]);
            &&& first.1 == seq![GraphOp::AddProcessor { name }]
            &&& first.2 is None
            &&& second.1 == seq![
                GraphOp::Connect {
                    source: lhs.node,
                    source_output: lhs.output,
                    target,
                    target_input: Selector::Index(0),
                },
                GraphOp::Connect {
                    source: src.node,
                    source_output: src.output,
                    target,
                    target_input: Selector::Index(1),
                },
            ]
            &&& second.2 is None
            &&& third.1 == Seq::<GraphOp>::empty()
            &&& third.2 == Some(Ok::<LuaNode, BridgeError>(LuaNode { index: target }))
        }),
{
    let src = coercion_of(rhs)->Ok_0->Ready_0;
    let first = binary_start(name, true, lhs, rhs);
    assert(first.0.operands =~= seq![lhs, src]);
    let second = operator_next(first.0, seq![Reply::Node(target)]);
    assert(second.1 =~= seq![
        GraphOp::Connect { source: lhs.node, source_output: lhs.output, target, target_input: Selector::Index(0) },
        GraphOp::Connect { source: src.node, source_output: src.output, target, target_input: Selector::Index(1) },
    ]);
    let replies = seq![Reply::Nothing, Reply::Nothing];
    assert(replies.drop_first().drop_first() =~= Seq::<Reply>::empty());
    assert(crate::ops::first_failure(replies.drop_first().drop_first()) is None);
    assert(crate::ops::first_failure(replies.drop_first()) is None);
    assert(crate::ops::first_failure(replies) is None);
}

/// When either connection of a binary operator fails, the operator fails
/// with the error of the earlier request that failed, and sends nothing more.
pub proof fn lemma_failed_connection_fails_operator(s: OperatorView, target: NodeId, a: Reply, b: Reply)
    requires
        s.stage == OperatorStage::AwaitingConnections(target),
        s.operands.len() == 2,
        nothing_of(a) is Err || nothing_of(b) is Err,
    ensures
        operator_next(s, seq![a, b]).1 == Seq::<GraphOp>::empty(),
        operator_next(s, seq![a, b]).2 == Some(Err::<LuaNode, BridgeError>(
            if nothing_of(a) is Err {
                nothing_of(a)->Err_0
            } else {
                nothing_of(b)->Err_0
            },
        )),
{
    let replies = seq![a, b];
    assert(replies.drop_first() =~= seq![b]);
    assert(replies.drop_first().drop_first() =~= Seq::<Reply>::empty());
    assert(crate::ops::first_failure(replies.drop_first().drop_first()) is None);
    assert(replies[0] == a);
    assert(replies.drop_first()[0] == b);
    if nothing_of(a) is Err {
        assert(crate::ops::first_failure(replies) == Some(nothing_of(a)->Err_0));
    } else {
        assert(crate::ops::first_failure(replies.drop_first()) == Some(nothing_of(b)->Err_0));
        assert(crate::ops::first_failure(replies) == Some(nothing_of(b)->Err_0));
    }
}

/// Indexing a node never contacts the remote graph: an integer that is a
/// 32-bit position selects the output at that position, a string the output
/// of that name, and any other key is an invalid index.
pub proof fn lemma_index_selects(node: LuaNode, key: Key)
    ensures
        match key {
            Key::Integer(i) => if 0 <= i <= u32::MAX {
                &&& node.output_for(key) is Ok
                &&& node.output_for(key)->Ok_0.output == Selector::Index(i as u32)
                &&& (i as u32) as int == i
            } else {
                node.output_for(key) == Err::<crate::handle::LuaOutput, BridgeError>(BridgeError::InvalidIndex)
            },
            Key::Text(s) => node.output_for(key) is Ok && node.output_for(key)->Ok_0.output
                == Selector::Name(s),
            Key::Other(_) => node.output_for(key) == Err::<crate::handle::LuaOutput, BridgeError>(
                BridgeError::InvalidIndex,
            ),
        },
        node.output_for(key) is Ok ==> node.output_for(key)->Ok_0.node == node.index,
{
}

/// Once the server has answered a replacement with a node, the replacement
/// yields that node, not the one replaced; `Replacement::step` moves the
/// handle to the node it yields.
pub proof fn lemma_replace_adopts_reply(replaced: NodeId, v: ScriptValue, id: NodeId)
    requires
        v is Node || v is Output,
    ensures
        ({
            let first = replace_start(true, replaced, v);
            let second = replace_next(first.0, seq![Reply::Node(id)]);
            &&& first.1 == seq![
                GraphOp::ReplaceNode { replaced, replacement: coercion_of(v)->Ok_0->Ready_0.node },
            ]
            &&& second.2 == Some(Ok::<LuaNode, BridgeError>(LuaNode { index: id }))
        }),
{
}

/// A replacement answered with node `id` moves the handle to `id`: whatever
/// node the handle named before, it now names the one the server returned,
/// and no longer the one it replaced when the two differ.
pub proof fn lemma_replace_moves_handle(s: Replacement, handle: LuaNode, id: NodeId)
    requires
        s.stage == ReplaceStage::AwaitingReplacement,
    ensures
        replace_next(s, seq![Reply::Node(id)]).2 == Some(Ok::<LuaNode, BridgeError>(LuaNode { index: id })),
        handle_after(handle, replace_next(s, seq![Reply::Node(id)]).2) == (LuaNode { index: id }),
        id != handle.index ==> handle_after(handle, replace_next(s, seq![Reply::Node(id)]).2).index
            != handle.index,
{
}

/// A replacement that fails leaves the handle as it was.
pub proof fn lemma_failed_replacement_keeps_handle(s: Replacement, handle: LuaNode, e: BridgeError)
    ensures
        handle_after(handle, replace_next(s, seq![Reply::Failed(e)]).2) == handle,
{
}

/// Without a session, every operation fails as a stale handle and sends nothing.
pub proof fn lemma_stale_session_sends_nothing(
    name: String,
    lhs: Source,
    v: ScriptValue,
    sparse: bool,
    args: Seq<ScriptValue>,
    replaced: NodeId,
    channel: usize,
    key: Key,
    producer: ValueKind,
    op: GraphOp,
)
    ensures
        binary_start(name, false, lhs, v).1 == Seq::<GraphOp>::empty(),
        binary_start(name, false, lhs, v).2 == Some(Err::<LuaNode, BridgeError>(BridgeError::StaleHandle)),
        unary_start(name, false, lhs).1 == Seq::<GraphOp>::empty(),
        unary_start(name, false, lhs).2 == Some(Err::<LuaNode, BridgeError>(BridgeError::StaleHandle)),
        procedure_start(name, false, sparse, args).1 == Seq::<GraphOp>::empty(),
        procedure_start(name, false, sparse, args).2 == Some(Err::<LuaNode, BridgeError>(BridgeError::StaleHandle)),
        replace_start(false, replaced, v).1 == Seq::<GraphOp>::empty(),
        replace_start(false, replaced, v).2 == Some(Err::<LuaNode, BridgeError>(BridgeError::StaleHandle)),
        mix_start(false, channel, v).1 == Seq::<GraphOp>::empty(),
        mix_start(false, channel, v).2 == Some(Err::<(), BridgeError>(BridgeError::StaleHandle)),
        playback_start(false, op).1 == Seq::<GraphOp>::empty(),
        playback_start(false, op).2 == Some(Err::<(), BridgeError>(BridgeError::StaleHandle)),
        channel_of(false, key, producer) == Err::<usize, BridgeError>(BridgeError::StaleHandle),
{
}

/// A mix-channel key that is not an integer is an invalid argument of its
/// kind, found before anything is sent.
pub proof fn lemma_mix_channel_needs_integer(key: Key, producer: ValueKind)
    requires
        !(key is Integer),
    ensures
        channel_of(true, key, producer) == Err::<usize, BridgeError>(BridgeError::InvalidArgument(key.kind())),
{
}

} // verus!
