//! The single slot that holds the engine session, and the operations that
//! the host's command handlers go through.
//!
//! The caller keeps the registry behind its lock and holds the lock for a
//! whole operation, the writing of the returned lines included. The order
//! in which calls reach the registry is then the order in which their lines
//! reach the engine.

use crate::session::{
    answer_view, handshake_lines, lemma_launch_keeps_well_formed, lemma_request_keeps_well_formed,
    lemma_request_lines_are_whole, request_lines, search_lines, NoActiveSession, SearchRequest,
    SessionState, SessionView, Stockfish,
};
use vstd::prelude::*;

verus! {

/// What a start request found.
#[derive(Debug, Clone, Copy, PartialEq, Eq, Structural)]
pub enum StartOutcome {
    /// The slot was empty and now holds a new session: the caller spawns
    /// the engine process and reports how that went.
    Launch,
    /// A session exists already; nothing is to be done.
    AlreadyRunning,
}

/// What a stop request found.
#[derive(Debug, Clone, Copy, PartialEq, Eq, Structural)]
pub enum StopOutcome {
    /// The session was ended and the slot is empty: the caller kills the
    /// engine process.
    Stopped,
    /// There was no session; nothing is to be done.
    AlreadyStopped,
}

/// The registry: at most one session at any time.
pub struct SharedStockfish {
    slot: Option<Stockfish>,
}

impl View for SharedStockfish {
    type V = Option<SessionView>;

    closed spec fn view(&self) -> Option<SessionView> {
        match self.slot {
            Some(session) => Some(session@),
            None => None,
        }
    }
}

/// What holds of the slot at all times: a session in it is well formed and
/// has not been terminated. A terminated session is removed, never kept.
pub open spec fn slot_well_formed(slot: Option<SessionView>) -> bool {
    slot matches Some(session) ==> session.well_formed() && session.state
        != SessionState::Terminated
}

/// The slot after a start request.
pub open spec fn after_start(slot: Option<SessionView>) -> Option<SessionView> {
    match slot {
        Some(session) => Some(session),
        None => Some(SessionView::fresh()),
    }
}

/// The answer to a start request.
pub open spec fn start_outcome(slot: Option<SessionView>) -> StartOutcome {
    if slot is None {
        StartOutcome::Launch
    } else {
        StartOutcome::AlreadyRunning
    }
}

/// Whether the slot holds a session that waits for its engine process.
pub open spec fn awaits_launch(slot: Option<SessionView>) -> bool {
    slot matches Some(session) && session.state == SessionState::Uninitialized
}

/// The slot after the caller reported on the spawn. A session that waited
/// for it runs if the process came up and is removed if it did not; in no
/// other case does the report change anything.
pub open spec fn after_launch(slot: Option<SessionView>, spawned: bool) -> Option<SessionView> {
    if awaits_launch(slot) {
        if spawned {
            Some(slot->0.launched())
        } else {
            None
        }
    } else {
        slot
    }
}

/// The slot after a stop request.
pub open spec fn after_stop(slot: Option<SessionView>) -> Option<SessionView> {
    None
}

/// The answer to a stop request.
pub open spec fn stop_outcome(slot: Option<SessionView>) -> StopOutcome {
    if slot is None {
        StopOutcome::AlreadyStopped
    } else {
        StopOutcome::Stopped
    }
}

/// Whether the slot holds a running session.
pub open spec fn has_running(slot: Option<SessionView>) -> bool {
    slot matches Some(session) && session.state == SessionState::Running
}

/// The answer to a search request: that of the session held, and a failure
/// from an empty slot.
pub open spec fn tell_answer(slot: Option<SessionView>, descriptor: Seq<char>, ponder: bool)
    -> Result<Seq<Seq<char>>, NoActiveSession> {
    match slot {
        Some(session) => session.answer(descriptor, ponder),
        None => Err(NoActiveSession),
    }
}

/// The slot after a search request.
pub open spec fn after_tell(slot: Option<SessionView>, descriptor: Seq<char>, ponder: bool)
    -> Option<SessionView> {
    match slot {
        Some(session) => Some(session.told(descriptor, ponder)),
        None => None,
    }
}

impl SharedStockfish {
    #[verifier::type_invariant]
    spec fn holds_live_session(self) -> bool {
        slot_well_formed(self@)
    }

    /// The empty registry.
    pub fn default() -> (registry: SharedStockfish)
        ensures
            registry@ is None,
    {
        SharedStockfish { slot: None }
    }

    /// The state of the session held, if there is one.
    pub fn session_state(&self) -> (state: Option<SessionState>)
        ensures
            state == match self@ {
                Some(session) => Some(session.state),
                None => None,
            },
            slot_well_formed(self@),
    {
        proof {
            use_type_invariant(self);
        }
        match &self.slot {
            Some(session) => Some(session.state()),
            None => None,
        }
    }
}

impl Default for SharedStockfish {
    /// The empty registry.
    fn default() -> (registry: SharedStockfish)
        ensures
            registry@ is None,
    {
        SharedStockfish { slot: None }
    }
}

/// Asks for the engine to be started. With a session in the slot this
/// changes nothing and says so. With an empty slot it puts a new session
/// there and tells the caller to spawn the process; the caller reports the
/// result through `finish_start`.
pub fn start_stockfish(state: &mut SharedStockfish) -> (outcome: StartOutcome)
    ensures
        final(state)@ == after_start(old(state)@),
        outcome == start_outcome(old(state)@),
        slot_well_formed(final(state)@),
{
    proof {
        use_type_invariant(&*state);
    }
    if state.slot.is_none() {
        state.slot = Some(Stockfish::new());
        StartOutcome::Launch
    } else {
        StartOutcome::AlreadyRunning
    }
}

/// Takes the caller's report on the spawn that `start_stockfish` asked for.
/// If the process came up, the waiting session starts running and the
/// handshake is returned for writing. If it did not, the slot is emptied,
/// so that a failed start leaves no session behind. `None` is returned
/// whenever there is nothing to write; a caller that holds a process then
/// lets it go.
pub fn finish_start(state: &mut SharedStockfish, spawned: bool) -> (lines: Option<Vec<String>>)
    ensures
        final(state)@ == after_launch(old(state)@, spawned),
        lines.deep_view() == if awaits_launch(old(state)@) && spawned {
            Some(handshake_lines())
        } else {
            None
        },
        slot_well_formed(final(state)@),
{
    proof {
        use_type_invariant(&*state);
    }
    let mut held: Option<Stockfish> = None;
    core::mem::swap(&mut state.slot, &mut held);
    match held {
        Some(mut session) => {
            if session.state() == SessionState::Uninitialized {
                if spawned {
                    let lines = session.launch();
                    state.slot = Some(session);
                    Some(lines)
                } else {
                    None
                }
            } else {
                state.slot = Some(session);
                None
            }
        },
        None => None,
    }
}

/// Asks for the engine to be stopped. A session in the slot is ended and
/// removed; an empty slot is left empty, and that is no error.
pub fn kill_stockfish(state: &mut SharedStockfish) -> (outcome: StopOutcome)
    ensures
        final(state)@ == after_stop(old(state)@),
        outcome == stop_outcome(old(state)@),
        slot_well_formed(final(state)@),
{
    let mut held: Option<Stockfish> = None;
    core::mem::swap(&mut state.slot, &mut held);
    match held {
        Some(mut session) => {
            session.stop();
            StopOutcome::Stopped
        },
        None => StopOutcome::AlreadyStopped,
    }
}

/// Asks the engine for an analysis of the position `fen`. With a running
/// session this returns the four lines to write; otherwise it fails, the
/// registry is unchanged and nothing is to be written.
pub fn tell_stockfish_fen(state: &mut SharedStockfish, fen: String) -> (result: Result<
    Vec<String>,
    NoActiveSession,
>)
    ensures
        final(state)@ == after_tell(old(state)@, fen@, false),
        answer_view(result) == tell_answer(old(state)@, fen@, false),
        slot_well_formed(final(state)@),
{
    proof {
        use_type_invariant(&*state);
    }
    let mut held: Option<Stockfish> = None;
    core::mem::swap(&mut state.slot, &mut held);
    match held {
        Some(mut session) => {
            let result = session.tell_fen(fen);
            state.slot = Some(session);
            result
        },
        None => Err(NoActiveSession),
    }
}

/// Asks the engine to ponder on the position `fen`. As
/// `tell_stockfish_fen`, with the ponder flag on the search.
pub fn tell_stockfish_ponder(state: &mut SharedStockfish, fen: String) -> (result: Result<
    Vec<String>,
    NoActiveSession,
>)
    ensures
        final(state)@ == after_tell(old(state)@, fen@, true),
        answer_view(result) == tell_answer(old(state)@, fen@, true),
        slot_well_formed(final(state)@),
{
    proof {
        use_type_invariant(&*state);
    }
    let mut held: Option<Stockfish> = None;
    core::mem::swap(&mut state.slot, &mut held);
    match held {
        Some(mut session) => {
            let result = session.tell_ponder(fen);
            state.slot = Some(session);
            result
        },
        None => Err(NoActiveSession),
    }
}

/// The slot after a run of search requests, taken one after the other in
/// the order in which they acquired the registry.
pub open spec fn after_requests(slot: Option<SessionView>, requests: Seq<SearchRequest>)
    -> Option<SessionView>
    decreases requests.len(),
{
    if requests.len() == 0 {
        slot
    } else {
        after_tell(
            after_requests(slot, requests.drop_last()),
            requests.last().descriptor,
            requests.last().ponder,
        )
    }
}

/// A start request that follows another is answered `AlreadyRunning` and
/// changes nothing, whether the caller has reported the process up in
/// between or not: the caller is told to spawn once only.
pub proof fn lemma_start_is_idempotent(slot: Option<SessionView>)
    ensures
        start_outcome(after_start(slot)) == StartOutcome::AlreadyRunning,
        after_start(after_start(slot)) == after_start(slot),
        start_outcome(after_launch(after_start(slot), true)) == StartOutcome::AlreadyRunning,
        after_start(after_launch(after_start(slot), true)) == after_launch(
            after_start(slot),
            true,
        ),
{
}

/// A failed start changes nothing: where the process did not come up, the
/// slot is after the report what it was before the start request, so an
/// empty registry is empty again.
pub proof fn lemma_failed_start_leaves_nothing(slot: Option<SessionView>)
    requires
        !awaits_launch(slot),
    ensures
        after_launch(after_start(slot), false) == slot,
{
}

/// A stop request that follows another is answered `AlreadyStopped` and
/// changes nothing.
pub proof fn lemma_stop_is_idempotent(slot: Option<SessionView>)
    ensures
        stop_outcome(after_stop(slot)) == StopOutcome::AlreadyStopped,
        after_stop(after_stop(slot)) == after_stop(slot),
{
}

/// A search request that finds no running session fails, hands out no
/// line and leaves the registry as it was.
pub proof fn lemma_tell_needs_session(
    slot: Option<SessionView>,
    descriptor: Seq<char>,
    ponder: bool,
)
    requires
        !has_running(slot),
    ensures
        tell_answer(slot, descriptor, ponder) == Err::<Seq<Seq<char>>, NoActiveSession>(
            NoActiveSession,
        ),
        after_tell(slot, descriptor, ponder) == slot,
{
}

/// Every operation keeps the slot well formed.
pub proof fn lemma_slot_stays_well_formed(
    slot: Option<SessionView>,
    spawned: bool,
    descriptor: Seq<char>,
    ponder: bool,
)
    requires
        slot_well_formed(slot),
    ensures
        slot_well_formed(after_start(slot)),
        slot_well_formed(after_launch(slot, spawned)),
        slot_well_formed(after_stop(slot)),
        slot_well_formed(after_tell(slot, descriptor, ponder)),
{
    if slot is Some {
        lemma_launch_keeps_well_formed(slot->0);
        lemma_request_keeps_well_formed(slot->0, descriptor, ponder);
    }
}

/// Search requests against a running session are written whole and in
/// order. After `n` requests the session still runs and has written, after
/// what it had written before, the lines of the `n` requests and nothing
/// else: `4 * n` lines, of which the four from place `4 * k` on are those
/// of request `k`.
pub proof fn lemma_requests_are_written_in_order(
    slot: Option<SessionView>,
    requests: Seq<SearchRequest>,
)
    requires
        has_running(slot),
    ensures
        has_running(after_requests(slot, requests)),
        after_requests(slot, requests)->0.written == slot->0.written + request_lines(requests),
        request_lines(requests).len() == 4 * requests.len(),
        forall|k: int|
            0 <= k < requests.len() ==> after_requests(slot, requests)->0.written.subrange(
                slot->0.written.len() + 4 * k,
                slot->0.written.len() + 4 * k + 4,
            ) == search_lines((#[trigger] requests[k]).descriptor, requests[k].ponder),
    decreases requests.len(),
{
    let before = slot->0.written;
    let after = after_requests(slot, requests)->0.written;
    if requests.len() == 0 {
        assert(after =~= before + request_lines(requests));
    } else {
        lemma_requests_are_written_in_order(slot, requests.drop_last());
        assert(after =~= before + request_lines(requests));
    }
    lemma_request_lines_are_whole(requests);
    assert forall|k: int| 0 <= k < requests.len() implies after.subrange(
        before.len() + 4 * k,
        before.len() + 4 * k + 4,
    ) == search_lines((#[trigger] requests[k]).descriptor, requests[k].ponder) by {
        assert(after.subrange(before.len() + 4 * k, before.len() + 4 * k + 4)
            =~= request_lines(requests).subrange(4 * k, 4 * k + 4));
    }
}

} // verus!
