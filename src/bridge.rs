//! The TCP and WebSocket bridges: how what came back from a backend becomes
//! a response, and the per-request session that retries once after a
//! reconnect.
use vstd::prelude::*;
use vstd::utf8::encode_utf8;
use crate::response::{Failure, ProxyResult, OK, GATEWAY_TIMEOUT, BAD_GATEWAY, failure_status, json_response, is_json_response};

verus! {

/// Size of the buffer one TCP read fills.
pub const READ_BUFFER_SIZE: usize = 4096;

/// What one write-then-wait exchange with a backend produced.
pub enum Exchange {
    /// The request could not be written.
    WriteFailed,
    /// Reading the reply failed.
    ReadFailed,
    /// No reply came within the deadline.
    TimedOut,
    /// The bytes that one TCP read returned (none when the peer closed).
    Tcp(Vec<u8>),
    /// A WebSocket text message.
    WsText(String),
    /// A WebSocket binary message.
    WsBinary(Vec<u8>),
    /// A WebSocket message that is neither text nor binary.
    WsOther,
}

/// The bytes a TCP read left in its buffer: the first `n` of them.
pub fn tcp_read(buffer: Vec<u8>, n: usize) -> (r: Exchange)
    requires
        n <= buffer@.len(),
    ensures
        r matches Exchange::Tcp(b) && b@ == buffer@.take(n as int),
{
    let mut buffer = buffer;
    buffer.truncate(n);
    Exchange::Tcp(buffer)
}

/// How an exchange ends for the caller.
pub open spec fn exchange_result(e: Exchange, r: Result<ProxyResult, Failure>) -> bool {
    match e {
        Exchange::WriteFailed => r == Err::<ProxyResult, Failure>(Failure::Transport),
        Exchange::ReadFailed => r == Err::<ProxyResult, Failure>(Failure::Transport),
        Exchange::TimedOut => r == Err::<ProxyResult, Failure>(Failure::Timeout),
        Exchange::Tcp(b) => if b@.len() == 0 {
            r == Err::<ProxyResult, Failure>(Failure::Transport)
        } else {
            r matches Ok(p) && is_json_response(p, b@)
        },
        Exchange::WsText(t) => r matches Ok(p) && is_json_response(p, encode_utf8(t@)),
        Exchange::WsBinary(b) => r matches Ok(p) && is_json_response(p, b@),
        Exchange::WsOther => r == Err::<ProxyResult, Failure>(Failure::Protocol),
    }
}

/// Turns what the backend did into the response, or the failure, it means:
/// any reply becomes a JSON body as it came, an empty TCP read or an I/O
/// error is a transport failure, a control message a protocol failure.
pub fn exchange_outcome(e: Exchange) -> (r: Result<ProxyResult, Failure>)
    ensures
        exchange_result(e, r),
{
    match e {
        Exchange::WriteFailed => Err(Failure::Transport),
        Exchange::ReadFailed => Err(Failure::Transport),
        Exchange::TimedOut => Err(Failure::Timeout),
        Exchange::Tcp(b) => {
            if b.len() == 0 {
                Err(Failure::Transport)
            } else {
                Ok(json_response(b))
            }
        },
        Exchange::WsText(t) => {
            let bytes = vstd::slice::slice_to_vec(t.as_str().as_bytes());
            Ok(json_response(bytes))
        },
        Exchange::WsBinary(b) => Ok(json_response(b)),
        Exchange::WsOther => Err(Failure::Protocol),
    }
}

/// Where a request stands.
#[derive(Clone, Copy, Debug, PartialEq, Eq, Structural)]
pub enum Phase {
    /// The request was sent on the current connection.
    Sent,
    /// The connection failed and is being replaced.
    Reconnecting,
    /// The request was sent again on the new connection.
    Resent,
    /// A response has been decided.
    Done,
}

/// What the session learns from the outside.
pub enum Event {
    /// The exchange for the last send ended so.
    Replied(Result<ProxyResult, Failure>),
    /// The reconnect succeeded, or gave up.
    Reconnected(bool),
}

/// What the session asks the caller to do next.
pub enum Action {
    /// Write the request on the connection and wait for the reply.
    Send,
    /// Replace the connection with a new one to the backend.
    Reconnect,
    /// Answer the request; drop the connection unless `keep_connection`.
    Finish { result: Result<ProxyResult, Failure>, keep_connection: bool },
}

/// Whether `e` is what a session in `p` waits for.
pub open spec fn accepts_spec(p: Phase, e: Event) -> bool {
    match p {
        Phase::Sent | Phase::Resent => e is Replied,
        Phase::Reconnecting => e is Reconnected,
        Phase::Done => false,
    }
}

/// The next phase and action of a session in `p` that learns `e`.
pub open spec fn next(p: Phase, e: Event) -> (Phase, Action) {
    match (p, e) {
        (Phase::Sent, Event::Replied(Err(Failure::Transport))) => (Phase::Reconnecting, Action::Reconnect),
        (Phase::Reconnecting, Event::Reconnected(true)) => (Phase::Resent, Action::Send),
        (Phase::Reconnecting, Event::Reconnected(false)) => (
            Phase::Done,
            Action::Finish { result: Err(Failure::Transport), keep_connection: false },
        ),
        (_, Event::Replied(r)) => (Phase::Done, Action::Finish { result: r, keep_connection: true }),
        (_, Event::Reconnected(_)) => (Phase::Done, Action::Finish { result: Err(Failure::Transport), keep_connection: false }),
    }
}

/// One request to a TCP or WebSocket backend, from its first send to its
/// response. The caller holds the backend's connection exclusively for the
/// whole session, so no other request's bytes come between.
///
/// A timed-out request keeps the connection as it is: a reply that arrives
/// late stays unread on it and is what the next request on that connection
/// reads first. Nothing drains it.
pub struct Session {
    pub phase: Phase,
    pub payload: Vec<u8>,
    pub timeout_ms: u64,
}

impl Session {
    /// Starts a request with `payload`. Without a configuration or a live
    /// connection the request is answered at once with a configuration
    /// failure; otherwise the first action is to send.
    pub fn start(timeout_ms: Option<u64>, connected: bool, payload: Vec<u8>) -> (r: (Session, Action))
        ensures
            r.0.payload@ == payload@,
            timeout_ms is Some && connected ==> {
                &&& r.0.phase == Phase::Sent
                &&& r.0.timeout_ms == timeout_ms->0
                &&& r.1 is Send
            },
            !(timeout_ms is Some && connected) ==> {
                &&& r.0.phase == Phase::Done
                &&& r.1 == (Action::Finish { result: Err(Failure::Configuration), keep_connection: true })
            },
    {
        match timeout_ms {
            Some(t) if connected => (Session { phase: Phase::Sent, payload, timeout_ms: t }, Action::Send),
            _ => (
                Session { phase: Phase::Done, payload, timeout_ms: 0 },
                Action::Finish { result: Err(Failure::Configuration), keep_connection: true },
            ),
        }
    }

    /// Whether the session waits for `e`.
    pub fn accepts(&self, e: &Event) -> (r: bool)
        ensures
            r == accepts_spec(self.phase, *e),
    {
        match (self.phase, e) {
            (Phase::Sent, Event::Replied(_)) | (Phase::Resent, Event::Replied(_)) => true,
            (Phase::Reconnecting, Event::Reconnected(_)) => true,
            _ => false,
        }
    }

    /// Takes in what happened and says what to do next: a transport failure
    /// of the first send asks for one reconnect, a successful reconnect for
    /// one more send of the same payload; everything else ends the request.
    pub fn step(&mut self, e: Event) -> (r: Action)
        requires
            accepts_spec(old(self).phase, e),
        ensures
            (final(self).phase, r) == next(old(self).phase, e),
            final(self).payload == old(self).payload,
            final(self).timeout_ms == old(self).timeout_ms,
    {
        match e {
            Event::Replied(Err(Failure::Transport)) if self.phase == Phase::Sent => {
                self.phase = Phase::Reconnecting;
                Action::Reconnect
            },
            Event::Reconnected(true) => {
                self.phase = Phase::Resent;
                Action::Send
            },
            Event::Reconnected(false) => {
                self.phase = Phase::Done;
                Action::Finish { result: Err(Failure::Transport), keep_connection: false }
            },
            Event::Replied(r) => {
                self.phase = Phase::Done;
                Action::Finish { result: r, keep_connection: true }
            },
        }
    }
}

/// Whether a sequence of events is one that a session in `p` can take in.
pub open spec fn accepted_run(p: Phase, evs: Seq<Event>) -> bool
    decreases evs.len(),
{
    evs.len() == 0 || (accepts_spec(p, evs[0]) && accepted_run(next(p, evs[0]).0, evs.drop_first()))
}

/// The actions a session in `p` asks for while it takes in `evs`.
pub open spec fn actions(p: Phase, evs: Seq<Event>) -> Seq<Action>
    decreases evs.len(),
{
    if evs.len() == 0 {
        Seq::empty()
    } else {
        seq![next(p, evs[0]).1] + actions(next(p, evs[0]).0, evs.drop_first())
    }
}

/// How many reconnects a sequence of actions asks for.
pub open spec fn reconnects(acts: Seq<Action>) -> nat
    decreases acts.len(),
{
    if acts.len() == 0 {
        0
    } else {
        (if acts[0] is Reconnect { 1nat } else { 0nat }) + reconnects(acts.drop_first())
    }
}

proof fn lemma_done_run(evs: Seq<Event>)
    requires
        accepted_run(Phase::Done, evs),
    ensures
        evs.len() == 0,
{
}

proof fn lemma_resent_run(evs: Seq<Event>)
    requires
        accepted_run(Phase::Resent, evs),
    ensures
        evs.len() <= 1,
        reconnects(actions(Phase::Resent, evs)) == 0,
{
    if evs.len() > 0 {
        let (q, a) = next(Phase::Resent, evs[0]);
        lemma_done_run(evs.drop_first());
        assert(actions(q, evs.drop_first()) =~= Seq::<Action>::empty());
        assert(actions(Phase::Resent, evs) =~= seq![a]);
        assert(reconnects(seq![a].drop_first()) == 0) by {
            assert(seq![a].drop_first() =~= Seq::<Action>::empty());
        }
    }
}

proof fn lemma_reconnecting_run(evs: Seq<Event>)
    requires
        accepted_run(Phase::Reconnecting, evs),
    ensures
        evs.len() <= 2,
        reconnects(actions(Phase::Reconnecting, evs)) == 0,
{
    if evs.len() > 0 {
        let (q, a) = next(Phase::Reconnecting, evs[0]);
        let rest = evs.drop_first();
        if q == Phase::Resent {
            lemma_resent_run(rest);
        } else {
            lemma_done_run(rest);
            assert(actions(q, rest) =~= Seq::<Action>::empty());
        }
        let acts = actions(Phase::Reconnecting, evs);
        assert(acts =~= seq![a] + actions(q, rest));
        assert(acts.drop_first() =~= actions(q, rest));
        assert(reconnects(acts) == (if a is Reconnect { 1nat } else { 0nat }) + reconnects(actions(q, rest)));
        if q != Phase::Reconnecting && q != Phase::Resent {
            assert(reconnects(actions(q, rest)) == 0);
        }
    }
}

/// A request causes at most one reconnect, and takes in at most three
/// events from its first send on (the reply, the reconnect, the second
/// reply): after a second failure no further attempt is made.
pub proof fn lemma_single_reconnect(evs: Seq<Event>)
    requires
        accepted_run(Phase::Sent, evs),
    ensures
        evs.len() <= 3,
        reconnects(actions(Phase::Sent, evs)) <= 1,
{
    if evs.len() > 0 {
        let (q, a) = next(Phase::Sent, evs[0]);
        let rest = evs.drop_first();
        if q == Phase::Reconnecting {
            lemma_reconnecting_run(rest);
        } else {
            lemma_done_run(rest);
            assert(actions(q, rest) =~= Seq::<Action>::empty());
        }
        let acts = actions(Phase::Sent, evs);
        assert(acts =~= seq![a] + actions(q, rest));
        assert(acts.drop_first() =~= actions(q, rest));
        assert(reconnects(acts) == (if a is Reconnect { 1nat } else { 0nat }) + reconnects(actions(q, rest)));
        if q != Phase::Reconnecting && q != Phase::Resent {
            assert(reconnects(actions(q, rest)) == 0);
        }
    }
}

/// After the reconnect the same request is sent once more if it
/// succeeded; if it failed the request ends with 502 and the connection is
/// dropped.
pub proof fn lemma_reconnect_outcomes()
    ensures
        next(Phase::Reconnecting, Event::Reconnected(true)) == (Phase::Resent, Action::Send),
        next(Phase::Reconnecting, Event::Reconnected(false)) == (
            Phase::Done,
            Action::Finish { result: Err(Failure::Transport), keep_connection: false },
        ),
        failure_status(Failure::Transport) == BAD_GATEWAY,
{
}

/// A backend that echoes the request: a TCP read that returns the
/// non-empty payload, or a binary message that holds it, answers the
/// request with status 200 and exactly the payload as body.
pub proof fn lemma_echo_round_trip(b: Vec<u8>, e: Exchange, r: Result<ProxyResult, Failure>, p: Phase)
    requires
        (e == Exchange::Tcp(b) && b@.len() > 0) || e == Exchange::WsBinary(b),
        exchange_result(e, r),
        p == Phase::Sent || p == Phase::Resent,
    ensures
        next(p, Event::Replied(r)).0 == Phase::Done,
        next(p, Event::Replied(r)).1 matches Action::Finish { result: Ok(resp), keep_connection: true }
            && resp.status == OK && resp.body@ == b@,
{
}

/// A backend that does not answer within the deadline gets the request
/// answered with 504, and the connection is kept.
pub proof fn lemma_timeout_answers_504(r: Result<ProxyResult, Failure>, p: Phase)
    requires
        exchange_result(Exchange::TimedOut, r),
        p == Phase::Sent || p == Phase::Resent,
    ensures
        next(p, Event::Replied(r)) == (
            Phase::Done,
            Action::Finish { result: Err(Failure::Timeout), keep_connection: true },
        ),
        failure_status(Failure::Timeout) == GATEWAY_TIMEOUT,
{
}

} // verus!
