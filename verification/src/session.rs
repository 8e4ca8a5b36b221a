//! One engine session: its life cycle and the lines it has written.

use crate::command::{encode, encoded, position_of, Command, CommandView, Position};
use crate::message::{decoded, parse_stockfish, EngineMessage};
use vstd::prelude::*;
use vstd::string::*;

verus! {

/// The depth ceiling of every search.
pub const SEARCH_DEPTH: u32 = 25;

/// The number of moves within which every search looks for a mate.
pub const MATE_HORIZON: u32 = 5;

/// Where a session is in its life. The order is fixed: a session that has
/// been terminated is never running again.
#[derive(Debug, Clone, Copy, PartialEq, Eq, Structural)]
pub enum SessionState {
    /// Created; the engine process has not been confirmed yet.
    Uninitialized,
    /// The engine process is up and has been sent the handshake.
    Running,
    /// The engine process has been told to die.
    Terminated,
}

/// Why a command wrote nothing: no session is running.
#[derive(Debug, Clone, Copy, PartialEq, Eq, Structural)]
pub struct NoActiveSession;

/// The lines that open the protocol: switch to it, ask for the ready
/// acknowledgment, and turn pondering on.
pub open spec fn handshake_lines() -> Seq<Seq<char>> {
    seq![
        encoded(CommandView::Uci),
        encoded(CommandView::IsReady),
        encoded(CommandView::SetOption { name: "ponder"@, value: "true"@ }),
    ]
}

/// The four lines of one search request, in the order in which they are
/// written: abandon the search in flight, set the position, ask for the
/// board, search.
pub open spec fn search_lines(descriptor: Seq<char>, ponder: bool) -> Seq<Seq<char>> {
    seq![
        encoded(CommandView::Stop),
        encoded(CommandView::SetPosition(position_of(descriptor))),
        encoded(CommandView::Display),
        encoded(CommandView::Go { depth: SEARCH_DEPTH, mate: MATE_HORIZON, ponder: ponder }),
    ]
}

/// One search request as it reaches a session.
pub struct SearchRequest {
    pub descriptor: Seq<char>,
    pub ponder: bool,
}

/// The lines of a run of search requests: the four lines of each, one
/// request after the other.
pub open spec fn request_lines(requests: Seq<SearchRequest>) -> Seq<Seq<char>>
    decreases requests.len(),
{
    if requests.len() == 0 {
        Seq::empty()
    } else {
        request_lines(requests.drop_last()) + search_lines(
            requests.last().descriptor,
            requests.last().ponder,
        )
    }
}

/// Whether `written` is what a launched session can have written: the
/// handshake, then whole search requests and nothing else.
pub open spec fn is_transcript(written: Seq<Seq<char>>) -> bool {
    exists|requests: Seq<SearchRequest>|
        written == handshake_lines() + #[trigger] request_lines(requests)
}

/// The model of a session: its state, and every line it has handed out for
/// writing since it was created, oldest first.
pub struct SessionView {
    pub state: SessionState,
    pub written: Seq<Seq<char>>,
}

impl SessionView {
    /// What holds of every session: one that was never launched has
    /// written nothing, and one that was has written the handshake followed
    /// by whole search requests.
    pub open spec fn well_formed(self) -> bool {
        match self.state {
            SessionState::Uninitialized => self.written.len() == 0,
            SessionState::Running => is_transcript(self.written),
            SessionState::Terminated => self.written.len() == 0 || is_transcript(self.written),
        }
    }

    /// A session that has just been created.
    pub open spec fn fresh() -> SessionView {
        SessionView { state: SessionState::Uninitialized, written: Seq::empty() }
    }

    /// The session once its engine process is up: a new session starts
    /// running with the handshake written; any other is left as it is.
    pub open spec fn launched(self) -> SessionView {
        if self.state == SessionState::Uninitialized {
            SessionView {
                state: SessionState::Running,
                written: self.written + handshake_lines(),
            }
        } else {
            self
        }
    }

    /// The session after a search request: a running session has written
    /// the request's four lines; any other is left as it is.
    pub open spec fn told(self, descriptor: Seq<char>, ponder: bool) -> SessionView {
        if self.state == SessionState::Running {
            SessionView { written: self.written + search_lines(descriptor, ponder), ..self }
        } else {
            self
        }
    }

    /// The answer to a search request: the request's four lines from a
    /// running session, a failure from any other.
    pub open spec fn answer(self, descriptor: Seq<char>, ponder: bool) -> Result<
        Seq<Seq<char>>,
        NoActiveSession,
    > {
        if self.state == SessionState::Running {
            Ok(search_lines(descriptor, ponder))
        } else {
            Err(NoActiveSession)
        }
    }

    /// The session after it was stopped. Nothing more is written.
    pub open spec fn stopped(self) -> SessionView {
        SessionView { state: SessionState::Terminated, ..self }
    }
}

/// The model of the result of a search request.
pub open spec fn answer_view(result: Result<Vec<String>, NoActiveSession>) -> Result<
    Seq<Seq<char>>,
    NoActiveSession,
> {
    match result {
        Ok(lines) => Ok(lines.deep_view()),
        Err(error) => Err(error),
    }
}

/// Encodes the handshake.
pub fn handshake() -> (lines: Vec<String>)
    ensures
        lines.deep_view() == handshake_lines(),
{
    let mut lines: Vec<String> = Vec::new();
    lines.push(encode(&Command::Uci));
    lines.push(encode(&Command::IsReady));
    lines.push(
        encode(
            &Command::SetOption {
                name: String::from_str("ponder"),
                value: String::from_str("true"),
            },
        ),
    );
    assert(lines.deep_view() =~= handshake_lines());
    lines
}

/// Encodes one search request for the position that `descriptor` gives.
pub fn search_request(descriptor: String, ponder: bool) -> (lines: Vec<String>)
    ensures
        lines.deep_view() == search_lines(descriptor@, ponder),
{
    let ghost text = descriptor@;
    let mut lines: Vec<String> = Vec::new();
    lines.push(encode(&Command::Stop));
    lines.push(encode(&Command::SetPosition(Position::from_descriptor(descriptor))));
    lines.push(encode(&Command::Display));
    lines.push(encode(&Command::Go { depth: SEARCH_DEPTH, mate: MATE_HORIZON, ponder: ponder }));
    assert(lines.deep_view() =~= search_lines(text, ponder));
    lines
}

/// The supervisor's record of one engine session. It decides what is
/// written to the engine and when; the caller owns the process and does
/// the writing.
pub struct Stockfish {
    state: SessionState,
    written: Ghost<Seq<Seq<char>>>,
}

impl View for Stockfish {
    type V = SessionView;

    closed spec fn view(&self) -> SessionView {
        SessionView { state: self.state, written: self.written@ }
    }
}

impl Stockfish {
    #[verifier::type_invariant]
    spec fn holds_transcript(self) -> bool {
        self@.well_formed()
    }

    /// A session whose engine process has yet to come up.
    pub fn new() -> (session: Stockfish)
        ensures
            session@ == SessionView::fresh(),
            session@.well_formed(),
    {
        Stockfish { state: SessionState::Uninitialized, written: Ghost(Seq::empty()) }
    }

    /// The state of the session.
    pub fn state(&self) -> (state: SessionState)
        ensures
            state == self@.state,
            self@.well_formed(),
    {
        proof {
            use_type_invariant(self);
        }
        self.state
    }

    /// Whether commands can be sent.
    pub fn is_running(&self) -> (running: bool)
        ensures
            running == (self@.state == SessionState::Running),
            self@.well_formed(),
    {
        proof {
            use_type_invariant(self);
        }
        self.state == SessionState::Running
    }

    /// Records that the engine process is up. For a new session this
    /// returns the handshake, which the caller writes at once; it does not
    /// wait for the engine's answer. For any other session nothing changes
    /// and nothing is to be written.
    pub fn launch(&mut self) -> (lines: Vec<String>)
        ensures
            final(self)@ == old(self)@.launched(),
            final(self)@.well_formed(),
            lines.deep_view() == if old(self)@.state == SessionState::Uninitialized {
                handshake_lines()
            } else {
                Seq::empty()
            },
    {
        proof {
            use_type_invariant(&*self);
        }
        if self.state == SessionState::Uninitialized {
            let lines = handshake();
            proof {
                lemma_launch_keeps_well_formed(self@);
            }
            *self = Stockfish {
                state: SessionState::Running,
                written: Ghost(self.written@ + lines.deep_view()),
            };
            lines
        } else {
            let lines: Vec<String> = Vec::new();
            assert(lines.deep_view() =~= Seq::<Seq<char>>::empty());
            lines
        }
    }

    /// Directs the engine to a new position. On a running session this
    /// returns the four lines of the request, to be written in order and
    /// without anything between them; on any other it fails and the
    /// session is unchanged.
    pub fn direct_search(&mut self, fen: String, ponder: bool) -> (result: Result<
        Vec<String>,
        NoActiveSession,
    >)
        ensures
            final(self)@ == old(self)@.told(fen@, ponder),
            final(self)@.well_formed(),
            answer_view(result) == old(self)@.answer(fen@, ponder),
    {
        proof {
            use_type_invariant(&*self);
        }
        if self.state == SessionState::Running {
            proof {
                lemma_request_keeps_well_formed(self@, fen@, ponder);
            }
            let lines = search_request(fen, ponder);
            *self = Stockfish {
                state: SessionState::Running,
                written: Ghost(self.written@ + lines.deep_view()),
            };
            Ok(lines)
        } else {
            Err(NoActiveSession)
        }
    }

    /// Asks for an analysis of the position.
    pub fn tell_fen(&mut self, fen: String) -> (result: Result<Vec<String>, NoActiveSession>)
        ensures
            final(self)@ == old(self)@.told(fen@, false),
            final(self)@.well_formed(),
            answer_view(result) == old(self)@.answer(fen@, false),
    {
        self.direct_search(fen, false)
    }

    /// Asks the engine to ponder on the position.
    pub fn tell_ponder(&mut self, fen: String) -> (result: Result<Vec<String>, NoActiveSession>)
        ensures
            final(self)@ == old(self)@.told(fen@, true),
            final(self)@.well_formed(),
            answer_view(result) == old(self)@.answer(fen@, true),
    {
        self.direct_search(fen, true)
    }

    /// Ends the session. Nothing is written; the caller kills the process.
    pub fn stop(&mut self)
        ensures
            final(self)@ == old(self)@.stopped(),
            final(self)@.well_formed(),
    {
        proof {
            use_type_invariant(&*self);
        }
        *self = Stockfish { state: SessionState::Terminated, written: self.written };
    }
}

/// What the reader of the engine's output does next.
#[derive(Debug, Clone, PartialEq, Eq)]
pub enum ReaderStep {
    /// Publish the decoded line to the subscribers and read on.
    Publish(EngineMessage),
    /// The engine has closed its output: leave the loop.
    Finished,
}

/// One turn of the reader: a line is decoded and published, whatever it
/// holds; the end of the stream ends the reading and is no error.
pub fn on_output(line: Option<&str>) -> (step: ReaderStep)
    ensures
        match line {
            Some(text) => step matches ReaderStep::Publish(message) && message@ == decoded(text@),
            None => step is Finished,
        },
{
    match line {
        Some(text) => ReaderStep::Publish(parse_stockfish(text)),
        None => ReaderStep::Finished,
    }
}

/// Launching a well-formed session leaves it well formed.
pub proof fn lemma_launch_keeps_well_formed(session: SessionView)
    requires
        session.well_formed(),
    ensures
        session.launched().well_formed(),
{
    if session.state == SessionState::Uninitialized {
        let none = Seq::<SearchRequest>::empty();
        assert(session.written + handshake_lines() =~= handshake_lines() + request_lines(none));
    }
}

/// A search request leaves a well-formed session well formed: its four
/// lines extend the transcript by one whole request.
pub proof fn lemma_request_keeps_well_formed(
    session: SessionView,
    descriptor: Seq<char>,
    ponder: bool,
)
    requires
        session.well_formed(),
    ensures
        session.told(descriptor, ponder).well_formed(),
{
    if session.state == SessionState::Running {
        let earlier = choose|requests: Seq<SearchRequest>|
            session.written == handshake_lines() + #[trigger] request_lines(requests);
        let request = SearchRequest { descriptor: descriptor, ponder: ponder };
        let longer = earlier.push(request);
        assert(longer.drop_last() =~= earlier);
        assert(session.written + search_lines(descriptor, ponder) =~= handshake_lines()
            + request_lines(longer));
    }
}

/// The lines of `n` requests are `4 * n` lines, and the four from place
/// `4 * k` on are those of request `k`: every request is there whole, in
/// its turn, with nothing of another among its lines.
pub proof fn lemma_request_lines_are_whole(requests: Seq<SearchRequest>)
    ensures
        request_lines(requests).len() == 4 * requests.len(),
        forall|k: int|
            0 <= k < requests.len() ==> request_lines(requests).subrange(4 * k, 4 * k + 4)
                == search_lines((#[trigger] requests[k]).descriptor, requests[k].ponder),
    decreases requests.len(),
{
    if requests.len() > 0 {
        let earlier = requests.drop_last();
        let all = request_lines(requests);
        let last = search_lines(requests.last().descriptor, requests.last().ponder);
        lemma_request_lines_are_whole(earlier);
        assert forall|k: int| 0 <= k < requests.len() implies all.subrange(4 * k, 4 * k + 4)
            == search_lines((#[trigger] requests[k]).descriptor, requests[k].ponder) by {
            if k < earlier.len() {
                assert(earlier[k] == requests[k]);
                assert(all.subrange(4 * k, 4 * k + 4) =~= request_lines(earlier).subrange(
                    4 * k,
                    4 * k + 4,
                ));
            } else {
                assert(all.subrange(4 * k, 4 * k + 4) =~= last);
            }
        }
    }
}

/// A terminated session stays terminated: no launch and no request moves
/// it or makes it write, and every request to it fails.
pub proof fn lemma_terminated_is_final(session: SessionView, descriptor: Seq<char>, ponder: bool)
    requires
        session.state == SessionState::Terminated,
    ensures
        session.launched() == session,
        session.told(descriptor, ponder) == session,
        session.stopped() == session,
        session.answer(descriptor, ponder) is Err,
{
}

/// Stopping writes nothing, in whatever state the session is.
pub proof fn lemma_stop_writes_nothing(session: SessionView)
    ensures
        session.stopped().written == session.written,
        session.stopped().state == SessionState::Terminated,
{
}

} // verus!
