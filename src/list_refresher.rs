//! The decisions of the background synchronisation worker.
//!
//! The worker owns the network client and runs each request on a short-lived
//! task. What it decides — whether a command starts a request, and what a
//! finished request tells the game — is made here, from the worker's state
//! and one input at a time. The runner performs the returned action and
//! hands back each finished request as a new input.
use vstd::prelude::*;

use crate::server_interface::{game_list_of, JSONMove, JSONPieceList};
use crate::do_on_interval::{interval_elapsed, DoOnInterval, UpdateOnCheck};
use crate::text::{contains_run, text_contains};

verus! {

/// HTTP 208: the board has not changed since the last fetch.
pub const ALREADY_REPORTED: u16 = 208;

/// HTTP 412: the server judged the move invalid.
pub const PRECONDITION_FAILED: u16 = 412;

/// Milliseconds between refreshes that the game does not force.
pub const REFRESH_GAP_MS: u64 = 500;

/// A command from the game to the worker.
#[derive(Copy, Clone, PartialEq, Eq, Debug, Structural)]
pub enum MessageToWorker {
    /// Fetch the board, unless one was fetched within the refresh interval.
    UpdateList,
    /// Fetch the board now.
    UpdateNOW,
    /// Ask the server to reset the board for a new game.
    RestartBoard,
    /// Ask the server to release the game, then stop.
    InvalidateKill,
    /// Send a move to the server.
    MakeMove(JSONMove),
}

/// A message from the worker to the game.
#[derive(Clone, PartialEq, Eq, Debug)]
pub enum MessageToGame {
    /// News about the board.
    UpdateBoard(BoardMessage),
    /// The worker has released the game and stopped.
    Stopped,
}

/// News about the board.
#[derive(Clone, PartialEq, Eq, Debug)]
pub enum BoardMessage {
    /// Show this move before the server has judged it.
    TmpMove(JSONMove),
    /// The server's verdict on the move that was sent.
    Move(MoveOutcome),
    /// Keep the board as it is.
    UseExisting,
    /// The server cannot be reached: show the placeholder board.
    NoConnectionList,
    /// The board has changed: these are all its pieces.
    NewList(JSONPieceList),
}

/// The server's verdict on a move.
#[derive(Copy, Clone, PartialEq, Eq, Debug, Structural)]
pub enum MoveOutcome {
    /// The move stands; the flag says whether it took a piece.
    Worked(bool),
    /// The move is invalid and must be undone.
    Invalid,
    /// The request failed; the move must be undone.
    CouldntProcessMove,
}

/// How a board fetch ended, as the runner observed it.
#[derive(Clone, PartialEq, Eq, Debug)]
pub enum RefreshReply {
    /// No response arrived.
    NetworkError,
    /// A response with this status; `list` is its body read as a piece list,
    /// `None` where the body is not one.
    Response { status: u16, list: Option<JSONPieceList> },
}

/// How a move request ended, as the runner observed it.
#[derive(Clone, PartialEq, Eq, Debug)]
pub enum MoveReply {
    /// No response arrived.
    NetworkError,
    /// A response with this status; `body` is its text, `None` where it could
    /// not be read.
    Response { status: u16, body: Option<String> },
}

/// One thing that happens to the worker.
#[derive(Clone, PartialEq, Eq, Debug)]
pub enum WorkerInput {
    /// A command from the game.
    Message(MessageToWorker),
    /// A board fetch has ended.
    RefreshFinished(RefreshReply),
    /// A move request has ended.
    MoveFinished(MoveReply),
}

/// What the runner is to do next.
#[derive(Clone, PartialEq, Eq, Debug)]
pub enum WorkerAction {
    /// Nothing.
    Nothing,
    /// Start fetching the board, and report the reply as `RefreshFinished`.
    FetchBoard,
    /// Ask the server to reset the board; the reply is only logged.
    PostRestart,
    /// Start sending the move, and report the reply as `MoveFinished`.
    PostMove(JSONMove),
    /// Send this message to the game.
    Send(MessageToGame),
    /// Ask the server to release the game, send `MessageToGame::Stopped`, and
    /// stop reading inputs.
    InvalidateAndStop,
}

/// The worker's state as plain values.
#[derive(Copy, Clone, PartialEq, Eq, Debug, Structural)]
pub struct WorkerModel {
    /// A board fetch is running.
    pub refresh_in_flight: bool,
    /// A move request is running.
    pub move_in_flight: bool,
    /// The last board fetch failed.
    pub error_at_last_refresh: bool,
    /// The worker has stopped.
    pub stopped: bool,
    /// When the refresh interval last restarted.
    pub last_refresh: Option<u64>,
    /// Milliseconds between refreshes that are not forced.
    pub refresh_gap: u64,
}

/// A status that reports success.
pub open spec fn is_success(status: u16) -> bool {
    200 <= status <= 299
}

/// Whether a board fetch succeeded: a success status, and either the
/// "unchanged" status or a body that describes a board.
pub open spec fn refresh_ok(reply: RefreshReply) -> bool {
    match reply {
        RefreshReply::NetworkError => false,
        RefreshReply::Response { status, list } => is_success(status) && (status == ALREADY_REPORTED
            || (list matches Some(l) && game_list_of(l.0@) is Ok)),
    }
}

/// What a finished board fetch tells the game. A failure shows the
/// placeholder board only if the fetch before succeeded; after that the last
/// board stays.
pub open spec fn refresh_message(failed_before: bool, reply: RefreshReply) -> BoardMessage {
    if refresh_ok(reply) {
        match reply {
            RefreshReply::Response { status, list } => if status == ALREADY_REPORTED {
                BoardMessage::UseExisting
            } else {
                BoardMessage::NewList(list.unwrap())
            },
            RefreshReply::NetworkError => BoardMessage::UseExisting,
        }
    } else if failed_before {
        BoardMessage::UseExisting
    } else {
        BoardMessage::NoConnectionList
    }
}

/// The server's verdict as a move reply shows it: success is `Worked`, taking
/// a piece unless the text holds "not"; 412 is `Invalid`; anything else failed.
pub open spec fn move_outcome_of(reply: MoveReply) -> MoveOutcome {
    match reply {
        MoveReply::NetworkError => MoveOutcome::CouldntProcessMove,
        MoveReply::Response { status, body } => if is_success(status) {
            MoveOutcome::Worked(
                match body {
                    Some(t) => !contains_run(t@, "not"@),
                    None => false,
                },
            )
        } else if status == PRECONDITION_FAILED {
            MoveOutcome::Invalid
        } else {
            MoveOutcome::CouldntProcessMove
        },
    }
}

/// The worker after a command at time `now`, and what it does.
pub open spec fn model_on_message(s: WorkerModel, msg: MessageToWorker, now: u64) -> (WorkerModel, WorkerAction) {
    if s.stopped {
        (s, WorkerAction::Nothing)
    } else {
        match msg {
            MessageToWorker::UpdateList => if !interval_elapsed(s.last_refresh, s.refresh_gap, now) {
                (s, WorkerAction::Nothing)
            } else if s.refresh_in_flight {
                (WorkerModel { last_refresh: Some(now), ..s }, WorkerAction::Nothing)
            } else {
                (
                    WorkerModel { last_refresh: Some(now), refresh_in_flight: true, ..s },
                    WorkerAction::FetchBoard,
                )
            },
            MessageToWorker::UpdateNOW => if s.refresh_in_flight {
                (s, WorkerAction::Nothing)
            } else {
                (WorkerModel { refresh_in_flight: true, ..s }, WorkerAction::FetchBoard)
            },
            MessageToWorker::RestartBoard => (s, WorkerAction::PostRestart),
            MessageToWorker::InvalidateKill => (
                WorkerModel { stopped: true, ..s },
                WorkerAction::InvalidateAndStop,
            ),
            MessageToWorker::MakeMove(m) => if s.move_in_flight {
                (
                    s,
                    WorkerAction::Send(
                        MessageToGame::UpdateBoard(BoardMessage::Move(MoveOutcome::CouldntProcessMove)),
                    ),
                )
            } else {
                (WorkerModel { move_in_flight: true, ..s }, WorkerAction::PostMove(m))
            },
        }
    }
}

/// The worker after a board fetch ends at time `now`, and what it tells the game.
pub open spec fn model_on_refresh(s: WorkerModel, reply: RefreshReply, now: u64) -> (WorkerModel, WorkerAction) {
    (
        WorkerModel {
            refresh_in_flight: false,
            error_at_last_refresh: !refresh_ok(reply),
            last_refresh: Some(now),
            ..s
        },
        WorkerAction::Send(MessageToGame::UpdateBoard(refresh_message(s.error_at_last_refresh, reply))),
    )
}

/// The worker after a move request ends, and what it tells the game.
pub open spec fn model_on_move(s: WorkerModel, reply: MoveReply) -> (WorkerModel, WorkerAction) {
    (
        WorkerModel { move_in_flight: false, ..s },
        WorkerAction::Send(MessageToGame::UpdateBoard(BoardMessage::Move(move_outcome_of(reply)))),
    )
}

/// The worker after any input at time `now`, and what it does.
pub open spec fn model_step(s: WorkerModel, input: WorkerInput, now: u64) -> (WorkerModel, WorkerAction) {
    match input {
        WorkerInput::Message(msg) => model_on_message(s, msg, now),
        WorkerInput::RefreshFinished(reply) => model_on_refresh(s, reply, now),
        WorkerInput::MoveFinished(reply) => model_on_move(s, reply),
    }
}

/// Classifies a finished move request.
pub fn classify_move_reply(reply: &MoveReply) -> (r: MoveOutcome)
    ensures
        r == move_outcome_of(*reply),
{
    match reply {
        MoveReply::NetworkError => MoveOutcome::CouldntProcessMove,
        MoveReply::Response { status, body } => if 200 <= *status && *status <= 299 {
            let taken = match body {
                Some(t) => !text_contains(t.as_str(), "not"),
                None => false,
            };
            MoveOutcome::Worked(taken)
        } else if *status == PRECONDITION_FAILED {
            MoveOutcome::Invalid
        } else {
            MoveOutcome::CouldntProcessMove
        },
    }
}

/// Whether a finished board fetch succeeded.
pub fn refresh_succeeded(reply: &RefreshReply) -> (r: bool)
    ensures
        r == refresh_ok(*reply),
{
    match reply {
        RefreshReply::NetworkError => false,
        RefreshReply::Response { status, list } => {
            if !(200 <= *status && *status <= 299) {
                false
            } else if *status == ALREADY_REPORTED {
                true
            } else {
                match list {
                    Some(l) => l.game_list().is_ok(),
                    None => false,
                }
            }
        },
    }
}

/// What a finished board fetch tells the game, given whether the fetch
/// before it failed.
pub fn classify_refresh_reply(failed_before: bool, reply: RefreshReply) -> (r: BoardMessage)
    ensures
        r == refresh_message(failed_before, reply),
{
    if refresh_succeeded(&reply) {
        match reply {
            RefreshReply::Response { status, list } => if status == ALREADY_REPORTED {
                BoardMessage::UseExisting
            } else {
                match list {
                    Some(l) => BoardMessage::NewList(l),
                    None => BoardMessage::UseExisting,
                }
            },
            RefreshReply::NetworkError => BoardMessage::UseExisting,
        }
    } else if failed_before {
        BoardMessage::UseExisting
    } else {
        BoardMessage::NoConnectionList
    }
}

/// The worker's state: its two in-flight guards, the outcome of the last
/// board fetch, the refresh timer, and whether it has stopped.
#[derive(Debug)]
pub struct WorkerState {
    /// A board fetch is running.
    refresh_in_flight: bool,
    /// A move request is running.
    move_in_flight: bool,
    /// The last board fetch failed.
    error_at_last_refresh: bool,
    /// The worker has stopped.
    stopped: bool,
    /// Limits refreshes that the game does not force.
    refresh_timer: DoOnInterval<UpdateOnCheck>,
}

impl View for WorkerState {
    type V = WorkerModel;

    closed spec fn view(&self) -> WorkerModel {
        WorkerModel {
            refresh_in_flight: self.refresh_in_flight,
            move_in_flight: self.move_in_flight,
            error_at_last_refresh: self.error_at_last_refresh,
            stopped: self.stopped,
            last_refresh: self.refresh_timer@.0,
            refresh_gap: self.refresh_timer@.1,
        }
    }
}

impl WorkerState {
    /// A worker with nothing in flight, whose first refresh is due at once and
    /// whose later unforced refreshes come at most every `refresh_gap` ms.
    pub fn new(refresh_gap: u64) -> (r: WorkerState)
        ensures
            r@ == (WorkerModel {
                refresh_in_flight: false,
                move_in_flight: false,
                error_at_last_refresh: false,
                stopped: false,
                last_refresh: None,
                refresh_gap,
            }),
    {
        WorkerState {
            refresh_in_flight: false,
            move_in_flight: false,
            error_at_last_refresh: false,
            stopped: false,
            refresh_timer: DoOnInterval::new(refresh_gap),
        }
    }

    /// Whether the worker has stopped.
    pub fn is_stopped(&self) -> (r: bool)
        ensures
            r == self@.stopped,
    {
        self.stopped
    }

    /// Decides what a command from the game does at time `now`.
    ///
    /// An unforced refresh inside the refresh interval is dropped; a refresh
    /// or a move starts only if none of its kind is running, and a move that
    /// cannot start is answered at once as `CouldntProcessMove`.
    pub fn on_message(&mut self, msg: MessageToWorker, now: u64) -> (r: WorkerAction)
        ensures
            (final(self)@, r) == model_on_message(old(self)@, msg, now),
    {
        if self.stopped {
            return WorkerAction::Nothing;
        }
        match msg {
            MessageToWorker::UpdateList => {
                if !self.refresh_timer.can_do(now) {
                    WorkerAction::Nothing
                } else if self.refresh_in_flight {
                    WorkerAction::Nothing
                } else {
                    self.refresh_in_flight = true;
                    WorkerAction::FetchBoard
                }
            },
            MessageToWorker::UpdateNOW => {
                if self.refresh_in_flight {
                    WorkerAction::Nothing
                } else {
                    self.refresh_in_flight = true;
                    WorkerAction::FetchBoard
                }
            },
            MessageToWorker::RestartBoard => WorkerAction::PostRestart,
            MessageToWorker::InvalidateKill => {
                self.stopped = true;
                WorkerAction::InvalidateAndStop
            },
            MessageToWorker::MakeMove(m) => {
                if self.move_in_flight {
                    WorkerAction::Send(
                        MessageToGame::UpdateBoard(BoardMessage::Move(MoveOutcome::CouldntProcessMove)),
                    )
                } else {
                    self.move_in_flight = true;
                    WorkerAction::PostMove(m)
                }
            },
        }
    }

    /// A board fetch ended at time `now`: frees the refresh guard, restarts
    /// the refresh interval, and says what to tell the game.
    pub fn on_refresh_finished(&mut self, reply: RefreshReply, now: u64) -> (r: WorkerAction)
        ensures
            (final(self)@, r) == model_on_refresh(old(self)@, reply, now),
    {
        let ok = refresh_succeeded(&reply);
        let msg = classify_refresh_reply(self.error_at_last_refresh, reply);
        self.error_at_last_refresh = !ok;
        self.refresh_in_flight = false;
        self.refresh_timer.update_timer(now);
        WorkerAction::Send(MessageToGame::UpdateBoard(msg))
    }

    /// A move request ended: frees the move guard and says what to tell the game.
    pub fn on_move_finished(&mut self, reply: MoveReply) -> (r: WorkerAction)
        ensures
            (final(self)@, r) == model_on_move(old(self)@, reply),
    {
        let outcome = classify_move_reply(&reply);
        self.move_in_flight = false;
        WorkerAction::Send(MessageToGame::UpdateBoard(BoardMessage::Move(outcome)))
    }

    /// Decides what any input does at time `now`.
    pub fn step(&mut self, input: WorkerInput, now: u64) -> (r: WorkerAction)
        ensures
            (final(self)@, r) == model_step(old(self)@, input, now),
    {
        match input {
            WorkerInput::Message(msg) => self.on_message(msg, now),
            WorkerInput::RefreshFinished(reply) => self.on_refresh_finished(reply, now),
            WorkerInput::MoveFinished(reply) => self.on_move_finished(reply),
        }
    }
}

/// The number of fetches that an action starts.
pub open spec fn fetches_started(a: WorkerAction) -> int {
    if a == WorkerAction::FetchBoard {
        1
    } else {
        0
    }
}

/// Two unforced refreshes issued within one refresh interval start at most
/// one board fetch between them, and exactly one when the first is due and no
/// fetch is running.
pub proof fn lemma_refresh_rate_limit(s: WorkerModel, t1: u64, t2: u64)
    requires
        t1 <= t2,
        t2 - t1 <= s.refresh_gap,
    ensures
        ({
            let (s1, a1) = model_on_message(s, MessageToWorker::UpdateList, t1);
            let (s2, a2) = model_on_message(s1, MessageToWorker::UpdateList, t2);
            &&& fetches_started(a1) + fetches_started(a2) <= 1
            &&& (!s.stopped && !s.refresh_in_flight && interval_elapsed(s.last_refresh, s.refresh_gap, t1))
                ==> fetches_started(a1) + fetches_started(a2) == 1
        }),
{
}

/// A move sent while another move is in flight is answered at once as
/// `CouldntProcessMove`, starts no request and leaves the worker unchanged.
pub proof fn lemma_move_in_flight_refused(s: WorkerModel, m1: JSONMove, m2: JSONMove, t1: u64, t2: u64)
    requires
        !s.stopped,
    ensures
        ({
            let (s1, a1) = model_on_message(s, MessageToWorker::MakeMove(m1), t1);
            let (s2, a2) = model_on_message(s1, MessageToWorker::MakeMove(m2), t2);
            &&& a2 == WorkerAction::Send(
                MessageToGame::UpdateBoard(BoardMessage::Move(MoveOutcome::CouldntProcessMove)),
            )
            &&& s2 == s1
        }),
{
}

/// After a successful fetch, the first failed fetch shows the placeholder
/// board and the second keeps the board as it is.
pub proof fn lemma_refresh_failure_hysteresis(
    s: WorkerModel,
    ok: RefreshReply,
    fail1: RefreshReply,
    fail2: RefreshReply,
    t0: u64,
    t1: u64,
    t2: u64,
)
    requires
        refresh_ok(ok),
        !refresh_ok(fail1),
        !refresh_ok(fail2),
    ensures
        ({
            let (s0, a0) = model_on_refresh(s, ok, t0);
            let (s1, a1) = model_on_refresh(s0, fail1, t1);
            let (s2, a2) = model_on_refresh(s1, fail2, t2);
            &&& a1 == WorkerAction::Send(MessageToGame::UpdateBoard(BoardMessage::NoConnectionList))
            &&& a2 == WorkerAction::Send(MessageToGame::UpdateBoard(BoardMessage::UseExisting))
        }),
{
}

} // verus!
