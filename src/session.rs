//! The logical state of a session: its catalogue of processors, how the
//! catalogue is exposed to scripts, and the requests that start and stop
//! playback.
use convert_case::{Case, Casing};
use vstd::prelude::*;

use crate::ops::{expect_success, success_of, BridgeError, GraphOp, Reply, Step};

verus! {

/// The part of a session that decides what scripts can do: the processors
/// that are exposed as procedures, and whether a procedure call may leave
/// inputs unconnected by passing "no value".
#[derive(Debug)]
pub struct Session {
    pub procedures: Vec<String>,
    pub sparse: bool,
}

/// A name in snake case, as convert_case writes it.
pub uninterp spec fn snake_case_of(s: Seq<char>) -> Seq<char>;

/// A name in upper camel case, as convert_case writes it.
pub uninterp spec fn upper_camel_case_of(s: Seq<char>) -> Seq<char>;

/// Relies on convert_case's `Casing::to_case` with `Case::Snake`, whose
/// result depends on the characters of `s` alone.
#[verifier::external_body]
fn to_snake_case(s: &str) -> (r: String)
    ensures
        r@ == snake_case_of(s@),
{
    s.to_case(Case::Snake)
}

/// Relies on convert_case's `Casing::to_case` with `Case::UpperCamel`, whose
/// result depends on the characters of `s` alone.
#[verifier::external_body]
fn to_upper_camel_case(s: &str) -> (r: String)
    ensures
        r@ == upper_camel_case_of(s@),
{
    s.to_case(Case::UpperCamel)
}

/// How one processor of the catalogue is exposed: the script-level name of
/// its procedure, and the processor name that a call of it requests.
#[derive(Debug)]
pub struct Binding {
    pub global: String,
    pub processor: String,
}

/// The binding of the processor named `proc`.
pub open spec fn binding_of(proc: Seq<char>) -> (Seq<char>, Seq<char>) {
    (snake_case_of(proc), upper_camel_case_of(proc))
}

/// Binds one processor: its procedure is named in snake case, and a call of
/// it requests the processor by its name in upper camel case.
pub fn register_lua_proc(proc: &str) -> (r: Binding)
    ensures
        (r.global@, r.processor@) == binding_of(proc@),
{
    Binding { global: to_snake_case(proc), processor: to_upper_camel_case(proc) }
}

impl Session {
    /// A session that exposes `procedures`.
    pub fn new(procedures: Vec<String>, sparse: bool) -> (r: Session)
        ensures
            r.procedures@ == procedures@,
            r.sparse == sparse,
    {
        Session { procedures, sparse }
    }

    /// The standard catalogue: oscillators, envelopes, a limiter, a metronome
    /// and the sink that routes a signal to the engine's output.
    pub open spec fn standard_names() -> Seq<Seq<char>> {
        seq![
            "PhaseAccumulator"@,
            "SineOscillator"@,
            "BlSawOscillator"@,
            "PeakLimiter"@,
            "Metro"@,
            "Decay"@,
            "Adsr"@,
            "Dac"@,
        ]
    }

    /// A session with the standard catalogue, whose calls need every argument.
    pub fn standard() -> (r: Session)
        ensures
            r.procedures@.map_values(|p: String| p@) == Self::standard_names(),
            !r.sparse,
    {
        let mut procedures: Vec<String> = Vec::new();
        procedures.push("PhaseAccumulator".to_owned());
        procedures.push("SineOscillator".to_owned());
        procedures.push("BlSawOscillator".to_owned());
        procedures.push("PeakLimiter".to_owned());
        procedures.push("Metro".to_owned());
        procedures.push("Decay".to_owned());
        procedures.push("Adsr".to_owned());
        procedures.push("Dac".to_owned());
        assert(procedures@.map_values(|p: String| p@) =~= Self::standard_names());
        Session { procedures, sparse: false }
    }

    /// The bindings of every processor of the catalogue, in catalogue order.
    pub fn register_lua_procs(&self) -> (r: Vec<Binding>)
        ensures
            r@.len() == self.procedures@.len(),
            forall|i: int|
                0 <= i < r@.len() ==> (#[trigger] r@[i].global@, r@[i].processor@) == binding_of(
                    self.procedures@[i]@,
                ),
    {
        let mut out: Vec<Binding> = Vec::new();
        let mut i: usize = 0;
        while i < self.procedures.len()
            invariant
                0 <= i <= self.procedures@.len(),
                out@.len() == i,
                forall|j: int|
                    0 <= j < i ==> (#[trigger] out@[j].global@, out@[j].processor@) == binding_of(
                        self.procedures@[j]@,
                    ),
            decreases self.procedures@.len() - i,
        {
            out.push(register_lua_proc(self.procedures[i].as_str()));
            i = i + 1;
        }
        out
    }
}

/// A request that starts or stops playback on the remote engine.
#[derive(Clone, Copy, Debug, PartialEq, Eq, Structural)]
pub struct PlaybackRequest {
    pub finished: bool,
}

/// A state, the requests it sends, and its result once it has one.
pub type PlaybackMove = (PlaybackRequest, Seq<GraphOp>, Option<Result<(), BridgeError>>);

/// The first move of a playback request that sends `op`.
pub open spec fn playback_start(live: bool, op: GraphOp) -> PlaybackMove {
    if !live {
        (PlaybackRequest { finished: true }, Seq::empty(), Some(Err(BridgeError::StaleHandle)))
    } else {
        (PlaybackRequest { finished: false }, seq![op], None)
    }
}

/// The move of a playback request on its reply: only a failure counts.
pub open spec fn playback_next(s: PlaybackRequest, replies: Seq<Reply>) -> PlaybackMove {
    let done = PlaybackRequest { finished: true };
    if s.finished || replies.len() != 1 {
        (done, Seq::empty(), Some(Err(BridgeError::UnexpectedReply)))
    } else {
        (done, Seq::empty(), Some(success_of(replies[0])))
    }
}

impl PlaybackRequest {
    fn start(session: Option<&Session>, op: GraphOp) -> (r: (PlaybackRequest, Step<()>))
        ensures
            (r.0, r.1.sent(), r.1.outcome()) == playback_start(session is Some, op),
    {
        if session.is_none() {
            return (PlaybackRequest { finished: true }, Step::Done(Err(BridgeError::StaleHandle)));
        }
        let mut ops: Vec<GraphOp> = Vec::new();
        ops.push(op);
        assert(ops@ =~= seq![op]);
        (PlaybackRequest { finished: false }, Step::Send(ops))
    }

    /// Starts playback.
    pub fn play(session: Option<&Session>) -> (r: (PlaybackRequest, Step<()>))
        ensures
            (r.0, r.1.sent(), r.1.outcome()) == playback_start(session is Some, GraphOp::Play),
    {
        Self::start(session, GraphOp::Play)
    }

    /// Stops playback.
    pub fn stop(session: Option<&Session>) -> (r: (PlaybackRequest, Step<()>))
        ensures
            (r.0, r.1.sent(), r.1.outcome()) == playback_start(session is Some, GraphOp::Stop),
    {
        Self::start(session, GraphOp::Stop)
    }

    /// Finishes the request on its reply.
    pub fn step(&mut self, replies: &Vec<Reply>) -> (r: Step<()>)
        ensures
            (*final(self), r.sent(), r.outcome()) == playback_next(*old(self), replies@),
    {
        let was_finished = self.finished;
        self.finished = true;
        if was_finished || replies.len() != 1 {
            return Step::Done(Err(BridgeError::UnexpectedReply));
        }
        Step::Done(expect_success(&replies[0]))
    }
}

} // verus!
