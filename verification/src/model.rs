//! Mathematical model of the coordinator: abstract session states, the
//! transition function for every incoming message, and the correlation rule
//! for oracle replies.  The executable types in [`crate::session_io`] and
//! [`crate::session`] are related to these by their views.

use vstd::prelude::*;

use crate::session_io::GameStatus;
use crate::session_io::MsgContext;
use crate::session_io::SessionError;
use crate::session_io::TimeoutOrder;

verus! {

/// Number of evaluated guesses a player may spend on one game.
pub const TRIES_LIMIT: u8 = 5;

/// Scheduler delay, in ticks, after which a started game is checked for
/// progress and force-terminated if its oracle never confirmed.
pub const TIMEOUT_DELAY: u32 = 200;

/// Abstract form of a reply from the word oracle.
pub enum WordleEvent {
    GameStarted { user: u64 },
    WordChecked { user: u64, correct_positions: Seq<u8>, contained_in_word: Seq<u8> },
}

/// The player an oracle reply concerns.
pub open spec fn event_user(ev: WordleEvent) -> u64 {
    match ev {
        WordleEvent::GameStarted { user } => user,
        WordleEvent::WordChecked { user, .. } => user,
    }
}

/// An evaluation reporting every letter slot as correct, i.e. a win.
pub open spec fn is_winning_reply(ev: WordleEvent) -> bool {
    match ev {
        WordleEvent::GameStarted { .. } => false,
        WordleEvent::WordChecked { correct_positions, .. } =>
            correct_positions == seq![0u8, 1u8, 2u8, 3u8, 4u8],
    }
}

/// Abstract form of a reply from the coordinator to the player.
pub enum GameSessionEvent {
    StartSuccess,
    CheckWordResult { correct_positions: Seq<u8>, contained_in_word: Seq<u8> },
    GameOver(GameStatus),
}

/// What the player is told when a stored oracle reply is delivered.
pub open spec fn reply_event(ev: WordleEvent) -> GameSessionEvent {
    match ev {
        WordleEvent::GameStarted { .. } => GameSessionEvent::StartSuccess,
        WordleEvent::WordChecked { correct_positions, contained_in_word, .. } =>
            GameSessionEvent::CheckWordResult { correct_positions, contained_in_word },
    }
}

/// Abstract session state.
pub enum SessionStatus {
    Init,
    WaitUserInput,
    WaitWordleStartReply,
    WaitWordleCheckWordReply,
    ReplyReceived(WordleEvent),
    GameOver(GameStatus),
}

impl SessionStatus {
    /// The session has a request to the oracle in flight.
    pub open spec fn is_wait_reply(self) -> bool {
        self is WaitWordleStartReply || self is WaitWordleCheckWordReply
    }
}

/// Abstract per-player session record.
pub struct SessionInfo {
    pub session_id: u64,
    pub original_msg_id: u64,
    pub send_to_wordle_msg_id: u64,
    pub tries: u8,
    pub session_status: SessionStatus,
}

/// The record a player starts with before any game.
pub open spec fn default_session() -> SessionInfo {
    SessionInfo {
        session_id: 0,
        original_msg_id: 0,
        send_to_wordle_msg_id: 0,
        tries: 0,
        session_status: SessionStatus::Init,
    }
}

/// Invariant of a single session: the guess counter never exceeds the
/// limit, and while a game is live (neither fresh nor over) it is strictly
/// below the limit, so the next evaluation can still be counted.
pub open spec fn session_wf(s: SessionInfo) -> bool {
    &&& s.tries <= TRIES_LIMIT
    &&& !(s.session_status is Init) && !(s.session_status is GameOver) ==> s.tries < TRIES_LIMIT
}

/// Abstract coordinator state: the oracle's address and one session per
/// player that ever started a game.
pub struct GameSession {
    pub wordle_program_id: u64,
    pub sessions: Map<u64, SessionInfo>,
}

/// Invariant of the whole registry.
pub open spec fn gs_wf(gs: GameSession) -> bool {
    forall|u: u64| #[trigger] gs.sessions.contains_key(u) ==> session_wf(gs.sessions[u])
}

/// Overwriting one well-formed session keeps the registry well-formed.
pub proof fn lemma_gs_wf_insert(gs: GameSession, user: u64, s: SessionInfo)
    requires
        gs_wf(gs),
        session_wf(s),
    ensures
        gs_wf(GameSession { sessions: gs.sessions.insert(user, s), ..gs }),
{
    let m = gs.sessions.insert(user, s);
    assert forall|u: u64| #[trigger] m.contains_key(u) implies session_wf(m[u]) by {
        if u != user {
            assert(gs.sessions.contains_key(u));
        }
    }
}

/// Abstract form of a request from the coordinator to the oracle.
pub enum WordleAction {
    StartGame { user: u64 },
    CheckWord { user: u64, word: Seq<char> },
}

/// Abstract form of a message the coordinator handles.
pub enum GameSessionAction {
    StartGame,
    CheckWord { word: Seq<char> },
    CheckGameStatus { user: u64, session_id: u64 },
}

/// A lowercase ASCII letter.
pub open spec fn is_lowercase_letter(c: char) -> bool {
    'a' <= c && c <= 'z'
}

/// A guess the coordinator accepts: exactly five lowercase letters.
pub open spec fn valid_word(w: Seq<char>) -> bool {
    &&& w.len() == 5
    &&& forall|i: int| 0 <= i < w.len() ==> is_lowercase_letter(#[trigger] w[i])
}

/// Abstract outward effect of handling one message.
pub enum HandleOutcome {
    /// Reply synchronously to the calling player.
    Reply(GameSessionEvent),
    /// A request was sent to the oracle and the caller is suspended until
    /// the correlated reply arrives; a timeout may have been scheduled.
    Forwarded { request: WordleAction, timeout: Option<TimeoutOrder> },
    /// The message is illegal in the current state; nothing changed.
    Rejected(SessionError),
    /// An unsolicited message is sent to a player (timeout termination).
    Notice { user: u64, event: GameSessionEvent },
    /// A stale or unauthorized message; nothing changed.
    Ignored,
}

/// The session of `user`, or a fresh one if the player is unknown.
pub open spec fn session_or_default(gs: GameSession, user: u64) -> SessionInfo {
    if gs.sessions.contains_key(user) {
        gs.sessions[user]
    } else {
        default_session()
    }
}

/// Transition for a player's request to start a game.
pub open spec fn step_start_game(gs: GameSession, ctx: MsgContext) -> (GameSession, HandleOutcome) {
    let user = ctx.source;
    let cur = session_or_default(gs, user);
    match cur.session_status {
        SessionStatus::ReplyReceived(ev) => {
            // The start confirmation already landed: deliver it now.
            let updated = SessionInfo { session_status: SessionStatus::WaitUserInput, ..cur };
            (
                GameSession { sessions: gs.sessions.insert(user, updated), ..gs },
                HandleOutcome::Reply(reply_event(ev)),
            )
        }
        SessionStatus::Init | SessionStatus::GameOver(_) | SessionStatus::WaitWordleStartReply => {
            // Begin a new game: forward to the oracle, reset the counter,
            // suspend the caller, and schedule the progress check.
            let updated = SessionInfo {
                session_id: ctx.msg_id,
                original_msg_id: ctx.msg_id,
                send_to_wordle_msg_id: ctx.outbound_msg_id,
                tries: 0,
                session_status: SessionStatus::WaitWordleStartReply,
            };
            (
                GameSession { sessions: gs.sessions.insert(user, updated), ..gs },
                HandleOutcome::Forwarded {
                    request: WordleAction::StartGame { user },
                    timeout: Some(TimeoutOrder { user, session_id: ctx.msg_id }),
                },
            )
        }
        SessionStatus::WaitUserInput | SessionStatus::WaitWordleCheckWordReply => {
            (gs, HandleOutcome::Rejected(SessionError::AlreadyInGame))
        }
    }
}

/// Transition for a player's guess.
pub open spec fn step_check_word(
    gs: GameSession,
    ctx: MsgContext,
    word: Seq<char>,
) -> (GameSession, HandleOutcome) {
    let user = ctx.source;
    let cur = session_or_default(gs, user);
    match cur.session_status {
        SessionStatus::ReplyReceived(ev) => {
            match ev {
                WordleEvent::GameStarted { .. } => {
                    // A start confirmation is pending; a guess cannot
                    // consume it.
                    (gs, HandleOutcome::Rejected(SessionError::PendingStartReply))
                }
                WordleEvent::WordChecked { .. } => {
                    // Deliver the stored evaluation: count the guess and
                    // decide between win, loss at the limit, and next turn.
                    let tries2 = (cur.tries + 1) as u8;
                    if is_winning_reply(ev) {
                        let updated = SessionInfo {
                            tries: tries2,
                            session_status: SessionStatus::GameOver(GameStatus::Win),
                            ..cur
                        };
                        (
                            GameSession { sessions: gs.sessions.insert(user, updated), ..gs },
                            HandleOutcome::Reply(GameSessionEvent::GameOver(GameStatus::Win)),
                        )
                    } else if tries2 == TRIES_LIMIT {
                        let updated = SessionInfo {
                            tries: tries2,
                            session_status: SessionStatus::GameOver(GameStatus::Lose),
                            ..cur
                        };
                        (
                            GameSession { sessions: gs.sessions.insert(user, updated), ..gs },
                            HandleOutcome::Reply(GameSessionEvent::GameOver(GameStatus::Lose)),
                        )
                    } else {
                        let updated = SessionInfo {
                            tries: tries2,
                            session_status: SessionStatus::WaitUserInput,
                            ..cur
                        };
                        (
                            GameSession { sessions: gs.sessions.insert(user, updated), ..gs },
                            HandleOutcome::Reply(reply_event(ev)),
                        )
                    }
                }
            }
        }
        SessionStatus::WaitUserInput | SessionStatus::WaitWordleCheckWordReply => {
            if !valid_word(word) {
                (gs, HandleOutcome::Rejected(SessionError::InvalidWord))
            } else {
                let updated = SessionInfo {
                    original_msg_id: ctx.msg_id,
                    send_to_wordle_msg_id: ctx.outbound_msg_id,
                    session_status: SessionStatus::WaitWordleCheckWordReply,
                    ..cur
                };
                (
                    GameSession { sessions: gs.sessions.insert(user, updated), ..gs },
                    HandleOutcome::Forwarded {
                        request: WordleAction::CheckWord { user, word },
                        timeout: None,
                    },
                )
            }
        }
        SessionStatus::Init | SessionStatus::WaitWordleStartReply | SessionStatus::GameOver(_) => {
            (gs, HandleOutcome::Rejected(SessionError::NotInGame))
        }
    }
}

/// Transition for the self-scheduled progress check.  It terminates the
/// session only if it still belongs to the same game and the game is not
/// already over; everything else is a stale message and a no-op.
pub open spec fn step_check_game_status(
    gs: GameSession,
    ctx: MsgContext,
    user: u64,
    session_id: u64,
) -> (GameSession, HandleOutcome) {
    if ctx.source != ctx.program_id {
        (gs, HandleOutcome::Ignored)
    } else if !gs.sessions.contains_key(user) {
        (gs, HandleOutcome::Ignored)
    } else {
        let cur = gs.sessions[user];
        if session_id == cur.session_id && !(cur.session_status is GameOver) {
            let updated = SessionInfo {
                session_status: SessionStatus::GameOver(GameStatus::Lose),
                ..cur
            };
            (
                GameSession { sessions: gs.sessions.insert(user, updated), ..gs },
                HandleOutcome::Notice {
                    user,
                    event: GameSessionEvent::GameOver(GameStatus::Lose),
                },
            )
        } else {
            (gs, HandleOutcome::Ignored)
        }
    }
}

/// Transition for any message the coordinator handles.
pub open spec fn step(
    gs: GameSession,
    ctx: MsgContext,
    action: GameSessionAction,
) -> (GameSession, HandleOutcome) {
    match action {
        GameSessionAction::StartGame => step_start_game(gs, ctx),
        GameSessionAction::CheckWord { word } => step_check_word(gs, ctx, word),
        GameSessionAction::CheckGameStatus { user, session_id } =>
            step_check_game_status(gs, ctx, user, session_id),
    }
}

/// Correlation rule for an oracle reply: it is consumed only when it
/// carries the identifier of the session's outstanding request and the
/// session is still waiting; the result is the suspended call to resume.
/// Every other reply is a duplicate or stale and changes nothing.
pub open spec fn reply_step(
    gs: GameSession,
    reply_to: u64,
    ev: WordleEvent,
) -> (GameSession, Option<u64>) {
    let user = event_user(ev);
    if gs.sessions.contains_key(user) {
        let cur = gs.sessions[user];
        if reply_to == cur.send_to_wordle_msg_id && cur.session_status.is_wait_reply() {
            let updated = SessionInfo {
                session_status: SessionStatus::ReplyReceived(ev),
                ..cur
            };
            (
                GameSession { sessions: gs.sessions.insert(user, updated), ..gs },
                Some(cur.original_msg_id),
            )
        } else {
            (gs, None)
        }
    } else {
        (gs, None)
    }
}

} // verus!
