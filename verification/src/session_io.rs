//! Executable message and session types exchanged between players, the
//! coordinator and the word oracle, together with their views into the
//! abstract model.

use vstd::prelude::*;

use crate::model;

verus! {

/// Outcome of a finished game.
#[derive(Clone, Copy, PartialEq, Eq, Structural, Debug)]
pub enum GameStatus {
    Win,
    Lose,
}

/// Why the coordinator rejected a message, leaving its state unchanged.
#[derive(Clone, Copy, PartialEq, Eq, Structural, Debug)]
pub enum SessionError {
    /// The player asked to start while a game is genuinely in progress.
    AlreadyInGame,
    /// The player guessed without an active game awaiting input.
    NotInGame,
    /// The guess is not five lowercase letters.
    InvalidWord,
    /// A start confirmation is pending; a guess cannot consume it.
    PendingStartReply,
}

/// Per-message context the transport hands to the coordinator: who sent
/// the message, its identifier, the coordinator's own address, and the
/// identifier any request issued this turn would carry.
#[derive(Clone, Copy, PartialEq, Eq, Structural, Debug)]
pub struct MsgContext {
    pub source: u64,
    pub msg_id: u64,
    pub program_id: u64,
    pub outbound_msg_id: u64,
}

/// Order to deliver a `CheckGameStatus { user, session_id }` message back
/// to the coordinator after [`crate::model::TIMEOUT_DELAY`] ticks.
#[derive(Clone, Copy, PartialEq, Eq, Structural, Debug)]
pub struct TimeoutOrder {
    pub user: u64,
    pub session_id: u64,
}

/// Copies a vector of letter positions.
fn clone_positions(v: &Vec<u8>) -> (r: Vec<u8>)
    ensures
        r@ == v@,
{
    let mut r: Vec<u8> = Vec::new();
    let mut i: usize = 0;
    while i < v.len()
        invariant
            i <= v@.len(),
            r@.len() == i,
            forall|j: int| 0 <= j < i ==> r@[j] == v@[j],
        decreases v@.len() - i,
    {
        r.push(v[i]);
        i += 1;
    }
    proof {
        assert(r@ =~= v@);
    }
    r
}

/// A reply from the word oracle, as the coordinator stores it.
#[derive(Debug, PartialEq)]
pub enum WordleEvent {
    GameStarted { user: u64 },
    WordChecked { user: u64, correct_positions: Vec<u8>, contained_in_word: Vec<u8> },
}

impl View for WordleEvent {
    type V = model::WordleEvent;

    open spec fn view(&self) -> model::WordleEvent {
        match self {
            WordleEvent::GameStarted { user } => model::WordleEvent::GameStarted { user: *user },
            WordleEvent::WordChecked { user, correct_positions, contained_in_word } =>
                model::WordleEvent::WordChecked {
                    user: *user,
                    correct_positions: correct_positions@,
                    contained_in_word: contained_in_word@,
                },
        }
    }
}

impl Clone for WordleEvent {
    fn clone(&self) -> (r: Self)
        ensures
            r@ == self@,
    {
        match self {
            WordleEvent::GameStarted { user } => WordleEvent::GameStarted { user: *user },
            WordleEvent::WordChecked { user, correct_positions, contained_in_word } =>
                WordleEvent::WordChecked {
                    user: *user,
                    correct_positions: clone_positions(correct_positions),
                    contained_in_word: clone_positions(contained_in_word),
                },
        }
    }
}

impl WordleEvent {
    /// The player this oracle reply concerns.
    pub fn get_user(&self) -> (user: u64)
        ensures
            user == model::event_user(self@),
    {
        match self {
            WordleEvent::GameStarted { user } => *user,
            WordleEvent::WordChecked { user, .. } => *user,
        }
    }

    /// Whether an evaluation reports every one of the five letter slots as
    /// correct.  Only meaningful for an evaluation, not a start
    /// confirmation.
    pub fn has_guessed(&self) -> (r: bool)
        requires
            self@ is WordChecked,
        ensures
            r == model::is_winning_reply(self@),
    {
        match self {
            WordleEvent::GameStarted { .. } => false,
            WordleEvent::WordChecked { correct_positions, .. } => {
                let r = correct_positions.len() == 5 && correct_positions[0] == 0
                    && correct_positions[1] == 1 && correct_positions[2] == 2
                    && correct_positions[3] == 3 && correct_positions[4] == 4;
                proof {
                    let s = seq![0u8, 1u8, 2u8, 3u8, 4u8];
                    if r {
                        assert(correct_positions@ =~= s);
                    } else {
                        if correct_positions@ == s {
                            assert(correct_positions@.len() == 5);
                            assert(correct_positions@[0] == 0u8);
                            assert(correct_positions@[1] == 1u8);
                            assert(correct_positions@[2] == 2u8);
                            assert(correct_positions@[3] == 3u8);
                            assert(correct_positions@[4] == 4u8);
                        }
                    }
                }
                r
            }
        }
    }
}

/// A reply from the coordinator to the player.
#[derive(Debug, PartialEq)]
pub enum GameSessionEvent {
    StartSuccess,
    CheckWordResult { correct_positions: Vec<u8>, contained_in_word: Vec<u8> },
    GameOver(GameStatus),
}

impl View for GameSessionEvent {
    type V = model::GameSessionEvent;

    open spec fn view(&self) -> model::GameSessionEvent {
        match self {
            GameSessionEvent::StartSuccess => model::GameSessionEvent::StartSuccess,
            GameSessionEvent::CheckWordResult { correct_positions, contained_in_word } =>
                model::GameSessionEvent::CheckWordResult {
                    correct_positions: correct_positions@,
                    contained_in_word: contained_in_word@,
                },
            GameSessionEvent::GameOver(s) => model::GameSessionEvent::GameOver(*s),
        }
    }
}

impl GameSessionEvent {
    /// The reply delivered to the player for a stored oracle reply: a
    /// start confirmation becomes a start success, an evaluation is
    /// replayed verbatim.
    pub fn from_wordle(ev: &WordleEvent) -> (r: GameSessionEvent)
        ensures
            r@ == model::reply_event(ev@),
    {
        match ev {
            WordleEvent::GameStarted { .. } => GameSessionEvent::StartSuccess,
            WordleEvent::WordChecked { correct_positions, contained_in_word, .. } =>
                GameSessionEvent::CheckWordResult {
                    correct_positions: clone_positions(correct_positions),
                    contained_in_word: clone_positions(contained_in_word),
                },
        }
    }
}

/// Current state of a player's session.
#[derive(Debug, PartialEq)]
pub enum SessionStatus {
    Init,
    WaitUserInput,
    WaitWordleStartReply,
    WaitWordleCheckWordReply,
    ReplyReceived(WordleEvent),
    GameOver(GameStatus),
}

impl View for SessionStatus {
    type V = model::SessionStatus;

    open spec fn view(&self) -> model::SessionStatus {
        match self {
            SessionStatus::Init => model::SessionStatus::Init,
            SessionStatus::WaitUserInput => model::SessionStatus::WaitUserInput,
            SessionStatus::WaitWordleStartReply => model::SessionStatus::WaitWordleStartReply,
            SessionStatus::WaitWordleCheckWordReply =>
                model::SessionStatus::WaitWordleCheckWordReply,
            SessionStatus::ReplyReceived(ev) => model::SessionStatus::ReplyReceived(ev@),
            SessionStatus::GameOver(s) => model::SessionStatus::GameOver(*s),
        }
    }
}

impl Clone for SessionStatus {
    fn clone(&self) -> (r: Self)
        ensures
            r@ == self@,
    {
        match self {
            SessionStatus::Init => SessionStatus::Init,
            SessionStatus::WaitUserInput => SessionStatus::WaitUserInput,
            SessionStatus::WaitWordleStartReply => SessionStatus::WaitWordleStartReply,
            SessionStatus::WaitWordleCheckWordReply => SessionStatus::WaitWordleCheckWordReply,
            SessionStatus::ReplyReceived(ev) => SessionStatus::ReplyReceived(ev.clone()),
            SessionStatus::GameOver(s) => SessionStatus::GameOver(*s),
        }
    }
}

/// Per-player session record: correlation identifiers, the guess counter
/// and the current state.
#[derive(Debug, PartialEq)]
pub struct SessionInfo {
    pub session_id: u64,
    pub original_msg_id: u64,
    pub send_to_wordle_msg_id: u64,
    pub tries: u8,
    pub session_status: SessionStatus,
}

impl View for SessionInfo {
    type V = model::SessionInfo;

    open spec fn view(&self) -> model::SessionInfo {
        model::SessionInfo {
            session_id: self.session_id,
            original_msg_id: self.original_msg_id,
            send_to_wordle_msg_id: self.send_to_wordle_msg_id,
            tries: self.tries,
            session_status: self.session_status@,
        }
    }
}

impl Clone for SessionInfo {
    fn clone(&self) -> (r: Self)
        ensures
            r@ == self@,
    {
        SessionInfo {
            session_id: self.session_id,
            original_msg_id: self.original_msg_id,
            send_to_wordle_msg_id: self.send_to_wordle_msg_id,
            tries: self.tries,
            session_status: self.session_status.clone(),
        }
    }
}

impl Default for SessionInfo {
    /// The record a player starts with before any game.
    fn default() -> (r: Self)
        ensures
            r@ == model::default_session(),
    {
        SessionInfo {
            session_id: 0,
            original_msg_id: 0,
            send_to_wordle_msg_id: 0,
            tries: 0,
            session_status: SessionStatus::Init,
        }
    }
}

impl SessionInfo {
    /// The session has a request to the oracle in flight.
    pub fn is_wait_reply_status(&self) -> (r: bool)
        ensures
            r == self@.session_status.is_wait_reply(),
    {
        match self.session_status {
            SessionStatus::WaitWordleStartReply | SessionStatus::WaitWordleCheckWordReply => true,
            _ => false,
        }
    }
}

/// Configuration the coordinator is created from: the oracle's address.
#[derive(Clone, Copy, PartialEq, Eq, Structural, Debug)]
pub struct GameSessionInit {
    pub wordle_program_id: u64,
}

impl GameSessionInit {
    /// The zero address is no oracle; a coordinator may only be created
    /// from a configuration that names a real one.
    pub fn assert_valid(&self)
        requires
            self.wordle_program_id != 0,
    {
    }
}

/// A message the coordinator handles.
#[derive(Debug, PartialEq)]
pub enum GameSessionAction {
    StartGame,
    CheckWord { word: String },
    CheckGameStatus { user: u64, session_id: u64 },
}

impl View for GameSessionAction {
    type V = model::GameSessionAction;

    open spec fn view(&self) -> model::GameSessionAction {
        match self {
            GameSessionAction::StartGame => model::GameSessionAction::StartGame,
            GameSessionAction::CheckWord { word } =>
                model::GameSessionAction::CheckWord { word: word@ },
            GameSessionAction::CheckGameStatus { user, session_id } =>
                model::GameSessionAction::CheckGameStatus {
                    user: *user,
                    session_id: *session_id,
                },
        }
    }
}

/// A request from the coordinator to the word oracle.
#[derive(Debug, PartialEq)]
pub enum WordleAction {
    StartGame { user: u64 },
    CheckWord { user: u64, word: String },
}

impl View for WordleAction {
    type V = model::WordleAction;

    open spec fn view(&self) -> model::WordleAction {
        match self {
            WordleAction::StartGame { user } => model::WordleAction::StartGame { user: *user },
            WordleAction::CheckWord { user, word } =>
                model::WordleAction::CheckWord { user: *user, word: word@ },
        }
    }
}

/// Snapshot of the whole registry, for diagnostics.
#[derive(Debug, PartialEq)]
pub struct GameSessionState {
    pub wordle_program_id: u64,
    pub game_sessions: Vec<(u64, SessionInfo)>,
}

} // verus!
