use vstd::prelude::*;
use crossbeam::queue::SegQueue;
use crate::wire::{
    ClientMsg, Response, ServerMsg, RW, READ, READ_FAIL, WRITE, client_bytes, client_prefix_incomplete,
    client_round_trip, decode_client, encode_server_msg, parse_client_msg, response_of,
    server_bytes,
};

verus! {

/// How many times one message is tried, in either direction, before the
/// round fails.
pub const TRIES: u8 = 10;

#[verifier::external_type_specification]
#[verifier::external_body]
#[verifier::reject_recursive_types(T)]
pub struct ExSegQueue<T>(SegQueue<T>);

/// Relies on crossbeam's `SegQueue::pop`: takes the oldest queued event, or
/// none. Other threads push to the queue at any time, so nothing is
/// promised of what comes back.
#[verifier::external_body]
fn pop_event(queue: &SegQueue<ServerMsg>) -> (r: Option<ServerMsg>) {
    queue.pop()
}

/// What the controller is doing in the current round.
#[derive(Copy, Clone, Debug, PartialEq, Eq, Structural)]
pub enum Turn {
    /// Between rounds.
    Idle,
    /// Reading a command from the front end.
    Reading,
    /// Delivering an event to the front end.
    Writing(ServerMsg),
}

/// Why a round, and with it the connection, ended in failure.
#[derive(Copy, Clone, Debug, PartialEq, Eq, Structural)]
pub enum ProtocolError {
    /// The peer closed the channel (a read returned no bytes).
    Disconnected,
    /// The peer acknowledged with a byte that is no acknowledgement.
    BadAck(u8),
    /// Every attempt to read a command in this round was malformed.
    ReadRetriesExhausted,
    /// The peer failed to read this event on every attempt; it was not
    /// delivered and is handed back.
    Undelivered(ServerMsg),
    /// The call does not belong to the current turn.
    OutOfTurn,
}

/// What the bytes read so far in a read turn amount to.
#[derive(Copy, Clone, Debug, PartialEq, Eq, Structural)]
pub enum Inbound {
    /// More bytes are needed.
    Incomplete,
    /// A whole command.
    Message(ClientMsg),
    /// The bytes cannot start any command; answer with `ReadFail`.
    Malformed,
}

/// What follows a reply in a read turn.
#[derive(Copy, Clone, Debug, PartialEq, Eq, Structural)]
pub enum Progress {
    /// The round is over.
    Done,
    /// The peer sends the command again; read once more.
    ReadAgain,
}

/// The abstract state of a session.
pub ghost struct SessionView {
    pub turn: Turn,
    /// Sends of the current event made so far in a write turn; replies of
    /// `ReadFail` made so far in a read turn.
    pub tries: nat,
    /// Bytes of an incomplete command.
    pub buf: Seq<u8>,
}

pub open spec fn idle_view() -> SessionView {
    SessionView { turn: Turn::Idle, tries: 0, buf: seq![] }
}

/// A round begins: with an event to deliver it is a write turn and the
/// indicator is followed by the event; otherwise a read turn.
pub open spec fn round_start(next: Option<ServerMsg>) -> (SessionView, Seq<u8>) {
    match next {
        None => (SessionView { turn: Turn::Reading, tries: 0, buf: seq![] }, seq![READ]),
        Some(m) => (
            SessionView { turn: Turn::Writing(m), tries: 1, buf: seq![] },
            seq![WRITE] + server_bytes(m),
        ),
    }
}

/// Bytes arrive in a read turn.
pub open spec fn feed(s: SessionView, data: Seq<u8>) -> (SessionView, Result<Inbound, ProtocolError>) {
    if s.turn != Turn::Reading {
        (s, Err(ProtocolError::OutOfTurn))
    } else if data.len() == 0 {
        (idle_view(), Err(ProtocolError::Disconnected))
    } else {
        let all = s.buf + data;
        match decode_client(all) {
            Ok(None) => (SessionView { buf: all, ..s }, Ok(Inbound::Incomplete)),
            Ok(Some(m)) => (SessionView { buf: seq![], ..s }, Ok(Inbound::Message(m))),
            Err(_) => (SessionView { buf: seq![], ..s }, Ok(Inbound::Malformed)),
        }
    }
}

/// The controller has answered in a read turn.
pub open spec fn answer(s: SessionView, resp: Response) -> (SessionView, Result<
    Progress,
    ProtocolError,
>) {
    if s.turn != Turn::Reading {
        (s, Err(ProtocolError::OutOfTurn))
    } else if resp != Response::ReadFail {
        (idle_view(), Ok(Progress::Done))
    } else if s.tries + 1 >= TRIES {
        (idle_view(), Err(ProtocolError::ReadRetriesExhausted))
    } else {
        (SessionView { tries: s.tries + 1, buf: seq![], ..s }, Ok(Progress::ReadAgain))
    }
}

/// The peer's acknowledgement arrives in a write turn: `ReadFail` asks for
/// the same event again, while the budget lasts; anything else in the
/// table ends the round.
pub open spec fn acknowledge(s: SessionView, data: Seq<u8>) -> (SessionView, Result<
    Option<Seq<u8>>,
    ProtocolError,
>) {
    match s.turn {
        Turn::Writing(m) => if data.len() == 0 {
            (idle_view(), Err(ProtocolError::Disconnected))
        } else {
            match response_of(data[0]) {
                None => (idle_view(), Err(ProtocolError::BadAck(data[0]))),
                Some(Response::ReadFail) => if s.tries >= TRIES {
                    (idle_view(), Err(ProtocolError::Undelivered(m)))
                } else {
                    (SessionView { tries: s.tries + 1, ..s }, Ok(Some(server_bytes(m))))
                },
                Some(_) => (idle_view(), Ok(None)),
            }
        },
        _ => (s, Err(ProtocolError::OutOfTurn)),
    }
}

/// The session after `k` acknowledgements of `ReadFail` in a row.
pub open spec fn after_read_fails(s: SessionView, k: nat) -> SessionView
    decreases k,
{
    if k == 0 {
        s
    } else {
        acknowledge(after_read_fails(s, (k - 1) as nat), seq![READ_FAIL]).0
    }
}

proof fn lemma_read_fails_count(m: ServerMsg, k: nat)
    requires
        k < TRIES,
    ensures
        after_read_fails(round_start(Some(m)).0, k) == (SessionView {
            turn: Turn::Writing(m),
            tries: k + 1,
            buf: seq![],
        }),
    decreases k,
{
    if k > 0 {
        lemma_read_fails_count(m, (k - 1) as nat);
    }
}

/// An event that the peer keeps failing to read is sent `TRIES` times in
/// all: each of the first `TRIES - 1` acknowledgements of `ReadFail` asks
/// for the same bytes again, and the next one ends the round with the
/// event handed back rather than sent once more or dropped.
pub proof fn write_retry_budget(m: ServerMsg)
    ensures
        forall|k: nat|
            k + 1 < TRIES ==> #[trigger] acknowledge(
                after_read_fails(round_start(Some(m)).0, k),
                seq![READ_FAIL],
            ).1 == Ok::<Option<Seq<u8>>, ProtocolError>(Some(server_bytes(m))),
        acknowledge(after_read_fails(round_start(Some(m)).0, (TRIES - 1) as nat), seq![READ_FAIL])
            == (idle_view(), Err::<Option<Seq<u8>>, ProtocolError>(
            ProtocolError::Undelivered(m),
        )),
{
    assert forall|k: nat| k + 1 < TRIES implies #[trigger] acknowledge(
        after_read_fails(round_start(Some(m)).0, k),
        seq![READ_FAIL],
    ).1 == Ok::<Option<Seq<u8>>, ProtocolError>(Some(server_bytes(m))) by {
        lemma_read_fails_count(m, k);
    }
    lemma_read_fails_count(m, (TRIES - 1) as nat);
}

/// Fed one byte at a time, a command is not read until its last byte has
/// come: every earlier byte leaves it incomplete and kept, and the last one
/// yields the command.
pub proof fn byte_at_a_time(s: SessionView, msg: ClientMsg, k: nat)
    requires
        s.turn == Turn::Reading,
        k < client_bytes(msg).len(),
        s.buf == client_bytes(msg).take(k as int),
    ensures
        k + 1 < client_bytes(msg).len() ==> feed(s, seq![client_bytes(msg)[k as int]]) == (
        SessionView { buf: client_bytes(msg).take(k + 1 as int), ..s }, Ok::<Inbound, ProtocolError>(
            Inbound::Incomplete,
        )),
        k + 1 == client_bytes(msg).len() ==> feed(s, seq![client_bytes(msg)[k as int]]) == (
        SessionView { buf: seq![], ..s }, Ok::<Inbound, ProtocolError>(Inbound::Message(msg))),
{
    let e = client_bytes(msg);
    assert(s.buf + seq![e[k as int]] =~= e.take(k + 1 as int));
    if k + 1 < e.len() {
        client_prefix_incomplete(msg, k + 1);
    } else {
        assert(e.take(k + 1 as int) =~= e);
        client_round_trip(msg);
    }
}

/// The controller's side of the turn-taking protocol over one connection.
/// The caller moves the bytes; the session decides what they are and what
/// comes next.
pub struct Session {
    turn: Turn,
    tries: u8,
    buf: Vec<u8>,
}

impl View for Session {
    type V = SessionView;

    closed spec fn view(&self) -> SessionView {
        SessionView { turn: self.turn, tries: self.tries as nat, buf: self.buf@ }
    }
}

/// The answer to a command: every well-formed command is accepted.
pub fn handle_msg(_msg: &ClientMsg) -> (r: Response)
    ensures
        r == Response::ACK,
{
    Response::ACK
}

impl Session {
    pub fn new() -> (r: Session)
        ensures
            r@ == idle_view(),
    {
        Session { turn: Turn::Idle, tries: 0, buf: Vec::new() }
    }

    pub fn turn(&self) -> (r: Turn)
        ensures
            r == self@.turn,
    {
        self.turn
    }

    /// Begins a round, abandoning any unfinished one, and returns the bytes
    /// to send: the turn indicator, then in a write turn the event.
    pub fn begin_round(&mut self, next: Option<ServerMsg>) -> (r: Vec<u8>)
        ensures
            (final(self)@, r@) == round_start(next),
    {
        self.buf = Vec::new();
        match next {
            None => {
                self.turn = Turn::Reading;
                self.tries = 0;
                let mut r: Vec<u8> = Vec::new();
                r.push(RW::Read.byte());
                assert(r@ =~= seq![READ]);
                r
            },
            Some(m) => {
                self.turn = Turn::Writing(m);
                self.tries = 1;
                let mut r: Vec<u8> = Vec::new();
                r.push(RW::Write.byte());
                let mut body = encode_server_msg(&m);
                r.append(&mut body);
                assert(r@ =~= seq![WRITE] + server_bytes(m));
                r
            },
        }
    }

    /// Begins a round with the oldest event of the queue, if there is one.
    pub fn start_round(&mut self, queue: &SegQueue<ServerMsg>) -> (r: Vec<u8>)
        ensures
            exists|next: Option<ServerMsg>| (final(self)@, r@) == round_start(next),
    {
        let next = pop_event(queue);
        self.begin_round(next)
    }

    /// Takes bytes read in a read turn.
    pub fn on_bytes(&mut self, data: &[u8]) -> (r: Result<Inbound, ProtocolError>)
        ensures
            (final(self)@, r) == feed(old(self)@, data@),
    {
        match self.turn {
            Turn::Reading => {},
            _ => return Err(ProtocolError::OutOfTurn),
        }
        if data.len() == 0 {
            *self = Session::new();
            return Err(ProtocolError::Disconnected);
        }
        let mut i: usize = 0;
        while i < data.len()
            invariant
                i <= data@.len(),
                self.turn == old(self).turn,
                self.tries == old(self).tries,
                self.buf@ == old(self).buf@ + data@.take(i as int),
            decreases data@.len() - i,
        {
            self.buf.push(data[i]);
            i = i + 1;
            assert(self.buf@ =~= old(self).buf@ + data@.take(i as int));
        }
        assert(data@.take(i as int) =~= data@);
        let parsed = parse_client_msg(&self.buf, self.buf.len());
        assert(self.buf@.take(self.buf@.len() as int) =~= self.buf@);
        match parsed {
            Ok(None) => Ok(Inbound::Incomplete),
            Ok(Some(m)) => {
                self.buf = Vec::new();
                Ok(Inbound::Message(m))
            },
            Err(_) => {
                self.buf = Vec::new();
                Ok(Inbound::Malformed)
            },
        }
    }

    /// Records the answer sent in a read turn; the caller sends
    /// `resp.byte()` first.
    pub fn reply(&mut self, resp: Response) -> (r: Result<Progress, ProtocolError>)
        ensures
            (final(self)@, r) == answer(old(self)@, resp),
    {
        match self.turn {
            Turn::Reading => {},
            _ => return Err(ProtocolError::OutOfTurn),
        }
        match resp {
            Response::ReadFail => {},
            _ => {
                *self = Session::new();
                return Ok(Progress::Done);
            },
        }
        if self.tries >= TRIES - 1 {
            *self = Session::new();
            return Err(ProtocolError::ReadRetriesExhausted);
        }
        self.tries = self.tries + 1;
        self.buf = Vec::new();
        Ok(Progress::ReadAgain)
    }

    /// Takes the bytes read after an event was sent. Returns the bytes to
    /// send again, or none when the round is over.
    pub fn on_ack(&mut self, data: &[u8]) -> (r: Result<Option<Vec<u8>>, ProtocolError>)
        ensures
            final(self)@ == acknowledge(old(self)@, data@).0,
            acknowledge(old(self)@, data@).1 == match r {
                Ok(Some(v)) => Ok(Some(v@)),
                Ok(None) => Ok(None),
                Err(e) => Err::<Option<Seq<u8>>, ProtocolError>(e),
            },
    {
        let m = match self.turn {
            Turn::Writing(m) => m,
            _ => return Err(ProtocolError::OutOfTurn),
        };
        if data.len() == 0 {
            *self = Session::new();
            return Err(ProtocolError::Disconnected);
        }
        match Response::from_u8(data[0]) {
            None => {
                *self = Session::new();
                Err(ProtocolError::BadAck(data[0]))
            },
            Some(Response::ReadFail) => {
                if self.tries >= TRIES {
                    *self = Session::new();
                    Err(ProtocolError::Undelivered(m))
                } else {
                    self.tries = self.tries + 1;
                    Ok(Some(encode_server_msg(&m)))
                }
            },
            Some(_) => {
                *self = Session::new();
                Ok(None)
            },
        }
    }
}

} // verus!
