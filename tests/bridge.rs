use raug_lua::{
    binary_op, call_procedure, register_lua_proc, unary_op, value_to_output, Arith, BridgeError,
    Coercion, GraphOp, Key, LuaMixer, LuaNode, LuaOutput, NodeId, RemoteFailure, Reply, ScriptValue, Selector,
    Session, Source, Step, ValueKind,
};

/// A remote graph that answers every request with success, numbering the
/// nodes it creates from 100 on, and records what it was sent.
struct MockServer {
    next: u32,
    log: Vec<GraphOp>,
}

impl MockServer {
    fn new() -> Self {
        MockServer { next: 100, log: Vec::new() }
    }

    fn answer(&mut self, op: &GraphOp) -> Reply {
        self.log.push(op.clone());
        match op {
            GraphOp::AddConstantF32(_)
            | GraphOp::AddConstantBool(_)
            | GraphOp::AddConstantString(_)
            | GraphOp::AddProcessor { .. }
            | GraphOp::ReplaceNode { .. } => {
                let id = NodeId(self.next);
                self.next += 1;
                Reply::Node(id)
            }
            _ => Reply::Nothing,
        }
    }

    fn run<T>(&mut self, first: Step<T>, mut step: impl FnMut(&Vec<Reply>) -> Step<T>) -> Result<T, BridgeError> {
        let mut current = first;
        loop {
            match current {
                Step::Done(r) => return r,
                Step::Send(ops) => {
                    let replies: Vec<Reply> = ops.iter().map(|op| self.answer(op)).collect();
                    current = step(&replies);
                }
            }
        }
    }
}

fn number(v: f32) -> ScriptValue {
    ScriptValue::Number(v.to_bits())
}

fn connect(source: u32, output: Selector, target: u32, input: u32) -> GraphOp {
    GraphOp::Connect {
        source: NodeId(source),
        source_output: output,
        target: NodeId(target),
        target_input: Selector::Index(input),
    }
}

fn processor(name: &str) -> GraphOp {
    GraphOp::AddProcessor { name: name.to_string() }
}

#[test]
fn coercing_a_number_twice_creates_two_nodes() {
    let session = Session::standard();
    let mut server = MockServer::new();
    let node = LuaNode { index: NodeId(1) };
    let (mut a, first) = node.arith(Arith::Add, Some(&session), &number(0.5));
    let ra = server.run(first, |r| a.step(r)).unwrap();
    let (mut b, first) = node.arith(Arith::Add, Some(&session), &number(0.5));
    let rb = server.run(first, |r| b.step(r)).unwrap();
    let constants: Vec<&GraphOp> =
        server.log.iter().filter(|op| matches!(op, GraphOp::AddConstantF32(_))).collect();
    assert_eq!(constants.len(), 2);
    assert_eq!(constants[0], &GraphOp::AddConstantF32(0.5f32.to_bits()));
    assert_ne!(ra, rb);
}

#[test]
fn coercion_of_each_kind() {
    assert_eq!(value_to_output(&number(2.0)), Ok(Coercion::Create(GraphOp::AddConstantF32(2.0f32.to_bits()))));
    assert_eq!(value_to_output(&ScriptValue::Boolean(true)), Ok(Coercion::Create(GraphOp::AddConstantBool(true))));
    assert_eq!(
        value_to_output(&ScriptValue::Text("hi".to_string())),
        Ok(Coercion::Create(GraphOp::AddConstantString("hi".to_string())))
    );
    assert_eq!(
        value_to_output(&ScriptValue::Node(LuaNode { index: NodeId(7) })),
        Ok(Coercion::Ready(Source { node: NodeId(7), output: Selector::Index(0) }))
    );
    let out = LuaOutput { node: NodeId(7), output: Selector::Name("left".to_string()) };
    assert_eq!(
        value_to_output(&ScriptValue::Output(out)),
        Ok(Coercion::Ready(Source { node: NodeId(7), output: Selector::Name("left".to_string()) }))
    );
    assert_eq!(value_to_output(&ScriptValue::Nil), Err(BridgeError::InvalidArgument(ValueKind::Nil)));
    assert_eq!(
        value_to_output(&ScriptValue::Unsupported(ValueKind::Table)),
        Err(BridgeError::InvalidArgument(ValueKind::Table))
    );
}

#[test]
fn adding_two_handles_sends_one_processor_and_two_connections() {
    let session = Session::standard();
    let mut server = MockServer::new();
    let a = LuaNode { index: NodeId(1) };
    let b = LuaOutput { node: NodeId(2), output: Selector::Index(3) };
    let (mut call, first) = a.arith(Arith::Add, Some(&session), &ScriptValue::Output(b));
    let r = server.run(first, |replies| call.step(replies)).unwrap();
    assert_eq!(r, LuaNode { index: NodeId(100) });
    assert_eq!(
        server.log,
        vec![processor("Add"), connect(1, Selector::Index(0), 100, 0), connect(2, Selector::Index(3), 100, 1)]
    );
}

#[test]
fn a_failed_connection_fails_the_operator() {
    let session = Session::standard();
    let src = Source { node: NodeId(1), output: Selector::Index(0) };
    let (mut call, first) = binary_op("Sub", Some(&session), src, &ScriptValue::Node(LuaNode { index: NodeId(2) }));
    assert!(matches!(first, Step::Send(ref ops) if ops == &vec![processor("Sub")]));
    let second = call.step(&vec![Reply::Node(NodeId(9))]);
    assert!(matches!(second, Step::Send(ref ops) if ops.len() == 2));
    let third = call.step(&vec![Reply::Nothing, Reply::Failed(BridgeError::Remote(RemoteFailure::Reported("no input".to_string())))]);
    assert!(matches!(third, Step::Done(Err(BridgeError::Remote(RemoteFailure::Reported(ref m)))) if m == "no input"));
}

#[test]
fn the_earlier_failure_wins() {
    let session = Session::standard();
    let src = Source { node: NodeId(1), output: Selector::Index(0) };
    let (mut call, _) = binary_op("Mul", Some(&session), src, &ScriptValue::Node(LuaNode { index: NodeId(2) }));
    call.step(&vec![Reply::Node(NodeId(9))]);
    let done = call.step(&vec![
        Reply::Failed(BridgeError::Transport("first".to_string())),
        Reply::Failed(BridgeError::Remote(RemoteFailure::Reported("second".to_string()))),
    ]);
    assert!(matches!(done, Step::Done(Err(BridgeError::Transport(ref m))) if m == "first"));
}

#[test]
fn a_processor_reply_without_a_node_is_a_remote_failure() {
    let session = Session::standard();
    let src = Source { node: NodeId(1), output: Selector::Index(0) };
    let (mut call, _) = unary_op("Neg", Some(&session), src);
    let done = call.step(&vec![Reply::Nothing]);
    assert!(matches!(done, Step::Done(Err(BridgeError::Remote(RemoteFailure::MissingNode)))));
}

#[test]
fn a_constant_reply_without_a_node_is_a_remote_failure() {
    let session = Session::standard();
    let (mut call, first) = call_procedure(Some(&session), &"Metro".to_string(), vec![number(2.0)]);
    assert!(matches!(first, Step::Send(ref ops) if ops == &vec![processor("Metro")]));
    let second = call.step(&vec![Reply::Node(NodeId(10))]);
    assert!(matches!(second, Step::Send(ref ops) if ops == &vec![GraphOp::AddConstantF32(2.0f32.to_bits())]));
    let done = call.step(&vec![Reply::Nothing]);
    assert!(matches!(done, Step::Done(Err(BridgeError::Remote(RemoteFailure::MissingNode)))));
}

#[test]
fn a_connection_answered_with_a_node_is_a_remote_failure() {
    let session = Session::standard();
    let gate = ScriptValue::Node(LuaNode { index: NodeId(1) });
    let (mut call, _) = call_procedure(Some(&session), &"Adsr".to_string(), vec![gate, number(0.5)]);
    let second = call.step(&vec![Reply::Node(NodeId(10))]);
    assert!(matches!(second, Step::Send(ref ops) if ops == &vec![connect(1, Selector::Index(0), 10, 0)]));
    let done = call.step(&vec![Reply::Node(NodeId(11))]);
    assert!(matches!(done, Step::Done(Err(BridgeError::Remote(RemoteFailure::UnexpectedNode(NodeId(11)))))));
}

#[test]
fn a_connection_batch_of_the_wrong_length_is_unexpected() {
    let session = Session::standard();
    let src = Source { node: NodeId(1), output: Selector::Index(0) };
    let (mut call, _) = binary_op("Add", Some(&session), src, &ScriptValue::Node(LuaNode { index: NodeId(2) }));
    call.step(&vec![Reply::Node(NodeId(9))]);
    let done = call.step(&vec![Reply::Nothing]);
    assert!(matches!(done, Step::Done(Err(BridgeError::UnexpectedReply))));
}

#[test]
fn negation_connects_one_input() {
    let session = Session::standard();
    let mut server = MockServer::new();
    let out = LuaOutput { node: NodeId(4), output: Selector::Name("gate".to_string()) };
    let (mut call, first) = out.neg(Some(&session));
    let r = server.run(first, |replies| call.step(replies)).unwrap();
    assert_eq!(r, LuaNode { index: NodeId(100) });
    assert_eq!(server.log, vec![processor("Neg"), connect(4, Selector::Name("gate".to_string()), 100, 0)]);
}

#[test]
fn indexing_selects_outputs() {
    let node = LuaNode { index: NodeId(5) };
    assert_eq!(node.index_by(&Key::Integer(2)), Ok(LuaOutput { node: NodeId(5), output: Selector::Index(2) }));
    assert_eq!(
        node.index_by(&Key::Text("out".to_string())),
        Ok(LuaOutput { node: NodeId(5), output: Selector::Name("out".to_string()) })
    );
    assert_eq!(node.index_by(&Key::Other(ValueKind::Boolean)), Err(BridgeError::InvalidIndex));
    assert_eq!(
        node.index_by(&Key::Integer(u32::MAX as i64)),
        Ok(LuaOutput { node: NodeId(5), output: Selector::Index(u32::MAX) })
    );
    assert_eq!(node.index_by(&Key::Integer(-1)), Err(BridgeError::InvalidIndex));
    assert_eq!(node.index_by(&Key::Integer(u32::MAX as i64 + 1)), Err(BridgeError::InvalidIndex));
}

#[test]
fn replace_moves_the_handle_to_the_reply() {
    let session = Session::standard();
    let mut handle = LuaNode { index: NodeId(3) };
    let other = ScriptValue::Node(LuaNode { index: NodeId(8) });
    let (mut rep, first) = handle.replace(Some(&session), &other);
    assert!(matches!(first, Step::Send(ref ops)
        if ops == &vec![GraphOp::ReplaceNode { replaced: NodeId(3), replacement: NodeId(8) }]));
    let done = rep.step(&mut handle, &vec![Reply::Node(NodeId(42))]);
    assert!(matches!(done, Step::Done(Ok(LuaNode { index: NodeId(42) }))));
    assert_eq!(handle.index, NodeId(42));
    assert_ne!(handle.index, NodeId(3));
}

#[test]
fn replace_with_a_literal_creates_it_first() {
    let session = Session::standard();
    let mut server = MockServer::new();
    let mut handle = LuaNode { index: NodeId(3) };
    let (mut rep, first) = handle.replace(Some(&session), &number(1.0));
    let mut target = handle;
    let r = server.run(first, |replies| rep.step(&mut target, replies)).unwrap();
    assert_eq!(
        server.log,
        vec![GraphOp::AddConstantF32(1.0f32.to_bits()), GraphOp::ReplaceNode { replaced: NodeId(3), replacement: NodeId(100) }]
    );
    assert_eq!(r.index, NodeId(101));
    assert_eq!(target.index, NodeId(101));
}

#[test]
fn a_failed_replacement_keeps_the_handle() {
    let session = Session::standard();
    let mut handle = LuaNode { index: NodeId(3) };
    let (mut rep, _) = handle.replace(Some(&session), &ScriptValue::Node(LuaNode { index: NodeId(8) }));
    let done = rep.step(&mut handle, &vec![Reply::Failed(BridgeError::Remote(RemoteFailure::Reported("busy".to_string())))]);
    assert!(matches!(done, Step::Done(Err(BridgeError::Remote(_)))));
    assert_eq!(handle.index, NodeId(3));
}

#[test]
fn a_stale_handle_sends_nothing() {
    let node = LuaNode { index: NodeId(1) };
    let (_, s) = node.arith(Arith::Div, None, &number(2.0));
    assert!(matches!(s, Step::Done(Err(BridgeError::StaleHandle))));
    let (_, s) = node.neg(None);
    assert!(matches!(s, Step::Done(Err(BridgeError::StaleHandle))));
    let (_, s) = node.replace(None, &number(2.0));
    assert!(matches!(s, Step::Done(Err(BridgeError::StaleHandle))));
    let (_, s) = call_procedure(None, &"Metro".to_string(), vec![number(2.0)]);
    assert!(matches!(s, Step::Done(Err(BridgeError::StaleHandle))));
    let (_, s) = raug_lua::PlaybackRequest::play(None);
    assert!(matches!(s, Step::Done(Err(BridgeError::StaleHandle))));
    let mixer = LuaMixer {};
    assert_eq!(mixer.channel(None, &Key::Integer(1), ValueKind::Function), Err(BridgeError::StaleHandle));
    let (_, s) = mixer.assign(None, 1, &number(2.0));
    assert!(matches!(s, Step::Done(Err(BridgeError::StaleHandle))));
}

#[test]
fn mix_channel_key_must_be_an_integer() {
    let session = Session::standard();
    let mixer = LuaMixer {};
    assert_eq!(
        mixer.channel(Some(&session), &Key::Text("one".to_string()), ValueKind::Function),
        Err(BridgeError::InvalidArgument(ValueKind::Text))
    );
    assert_eq!(
        mixer.channel(Some(&session), &Key::Other(ValueKind::Boolean), ValueKind::Function),
        Err(BridgeError::InvalidArgument(ValueKind::Boolean))
    );
    assert_eq!(
        mixer.channel(Some(&session), &Key::Integer(1), ValueKind::Number),
        Err(BridgeError::InvalidArgument(ValueKind::Number))
    );
    assert_eq!(
        mixer.channel(Some(&session), &Key::Integer(-1), ValueKind::Function),
        Err(BridgeError::InvalidArgument(ValueKind::Number))
    );
    assert_eq!(mixer.channel(Some(&session), &Key::Integer(1), ValueKind::Function), Ok(1));
}

#[test]
fn mix_assignment_adds_the_source() {
    let session = Session::standard();
    let mut server = MockServer::new();
    let mixer = LuaMixer {};
    let (mut mix, first) = mixer.assign(Some(&session), 1, &number(0.25));
    server.run(first, |replies| mix.step(replies)).unwrap();
    assert_eq!(
        server.log,
        vec![
            GraphOp::AddConstantF32(0.25f32.to_bits()),
            GraphOp::AddToMix { mixer_channel: 1, source: NodeId(100), source_output: Selector::Index(0) }
        ]
    );
}

#[test]
fn play_and_stop_send_one_request() {
    let session = Session::standard();
    let mut server = MockServer::new();
    let (mut p, first) = raug_lua::PlaybackRequest::play(Some(&session));
    server.run(first, |replies| p.step(replies)).unwrap();
    let (mut s, first) = raug_lua::PlaybackRequest::stop(Some(&session));
    server.run(first, |replies| s.step(replies)).unwrap();
    assert_eq!(server.log, vec![GraphOp::Play, GraphOp::Stop]);
    let (mut f, _) = raug_lua::PlaybackRequest::play(Some(&session));
    let done = f.step(&vec![Reply::Failed(BridgeError::Transport("closed".to_string()))]);
    assert!(matches!(done, Step::Done(Err(BridgeError::Transport(_)))));
}

#[test]
fn bindings_use_snake_case_names() {
    let b = register_lua_proc("BlSawOscillator");
    assert_eq!(b.global, "bl_saw_oscillator");
    assert_eq!(b.processor, "BlSawOscillator");
    let names: Vec<String> = Session::standard().register_lua_procs().into_iter().map(|b| b.global).collect();
    assert_eq!(
        names,
        vec![
            "phase_accumulator",
            "sine_oscillator",
            "bl_saw_oscillator",
            "peak_limiter",
            "metro",
            "decay",
            "adsr",
            "dac"
        ]
    );
}

#[test]
fn procedure_connects_arguments_in_order() {
    let session = Session::standard();
    let mut server = MockServer::new();
    let gate = ScriptValue::Node(LuaNode { index: NodeId(1) });
    let (mut call, first) = call_procedure(Some(&session), &"Adsr".to_string(), vec![gate, number(0.5)]);
    let r = server.run(first, |replies| call.step(replies)).unwrap();
    assert_eq!(r, LuaNode { index: NodeId(100) });
    assert_eq!(
        server.log,
        vec![
            processor("Adsr"),
            connect(1, Selector::Index(0), 100, 0),
            GraphOp::AddConstantF32(0.5f32.to_bits()),
            connect(101, Selector::Index(0), 100, 1),
        ]
    );
}

#[test]
fn dense_procedures_refuse_nil() {
    let session = Session::standard();
    let mut server = MockServer::new();
    let (mut call, first) = call_procedure(Some(&session), &"Decay".to_string(), vec![ScriptValue::Nil, number(1.0)]);
    let r = server.run(first, |replies| call.step(replies));
    assert_eq!(r, Err(BridgeError::InvalidArgument(ValueKind::Nil)));
    assert_eq!(server.log, vec![processor("Decay")]);
}

#[test]
fn sparse_procedures_skip_nil() {
    let session = Session::new(vec!["Decay".to_string()], true);
    let mut server = MockServer::new();
    let (mut call, first) = call_procedure(Some(&session), &"Decay".to_string(), vec![ScriptValue::Nil, number(1.0), ScriptValue::Nil]);
    let r = server.run(first, |replies| call.step(replies)).unwrap();
    assert_eq!(r, LuaNode { index: NodeId(100) });
    assert_eq!(
        server.log,
        vec![processor("Decay"), GraphOp::AddConstantF32(1.0f32.to_bits()), connect(101, Selector::Index(0), 100, 1)]
    );
}

#[test]
fn procedure_without_arguments_only_creates() {
    let session = Session::standard();
    let mut server = MockServer::new();
    let (mut call, first) = call_procedure(Some(&session), &"Metro".to_string(), vec![]);
    let r = server.run(first, |replies| call.step(replies)).unwrap();
    assert_eq!(r, LuaNode { index: NodeId(100) });
    assert_eq!(server.log, vec![processor("Metro")]);
}

#[test]
fn sine_times_constant_into_dac() {
    let session = Session::standard();
    let bindings = session.register_lua_procs();
    let find = |global: &str| bindings.iter().find(|b| b.global == global).unwrap().processor.clone();
    let mut server = MockServer::new();

    let (mut osc, first) = call_procedure(Some(&session), &find("sine_oscillator"), vec![number(220.0)]);
    let s = server.run(first, |replies| osc.step(replies)).unwrap();
    let (mut mul, first) = s.arith(Arith::Mul, Some(&session), &number(0.1));
    let m = server.run(first, |replies| mul.step(replies)).unwrap();
    let (mut dac, first) = call_procedure(Some(&session), &find("dac"), vec![ScriptValue::Node(m)]);
    server.run(first, |replies| dac.step(replies)).unwrap();

    assert_eq!(
        server.log,
        vec![
            processor("SineOscillator"),
            GraphOp::AddConstantF32(220.0f32.to_bits()),
            connect(101, Selector::Index(0), 100, 0),
            GraphOp::AddConstantF32(0.1f32.to_bits()),
            processor("Mul"),
            connect(100, Selector::Index(0), 103, 0),
            connect(102, Selector::Index(0), 103, 1),
            processor("Dac"),
            connect(103, Selector::Index(0), 104, 0),
        ]
    );
}

#[test]
fn bindings_request_upper_camel_case_processors() {
    let b = register_lua_proc("bl_saw_oscillator");
    assert_eq!(b.global, "bl_saw_oscillator");
    assert_eq!(b.processor, "BlSawOscillator");
}
