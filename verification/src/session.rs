//! The executable session coordinator: a per-player registry of sessions
//! driven by [`crate::model::step`] for incoming messages and
//! [`crate::model::reply_step`] for oracle replies.

use vstd::prelude::*;

use crate::model;
use crate::registry::find_key;
use crate::registry::lemma_pairs_map_push;
use crate::registry::lemma_pairs_map_index;
use crate::registry::lemma_pairs_map_update;
use crate::registry::pairs_map;
use crate::registry::unique_keys;
use crate::session_io::GameSessionAction;
use crate::session_io::GameStatus;
use crate::session_io::GameSessionEvent;
use crate::session_io::GameSessionInit;
use crate::session_io::GameSessionState;
use crate::session_io::MsgContext;
use crate::session_io::SessionError;
use crate::session_io::SessionInfo;
use crate::session_io::SessionStatus;
use crate::session_io::TimeoutOrder;
use crate::session_io::WordleAction;
use crate::session_io::WordleEvent;

verus! {

/// Outward effect of handling one message; the transport performs it.
#[derive(Debug, PartialEq)]
pub enum HandleOutcome {
    /// Reply synchronously to the calling player.
    Reply(GameSessionEvent),
    /// A request was sent to the oracle; the caller is suspended until the
    /// correlated reply arrives, and a timeout may have been scheduled.
    Forwarded { request: WordleAction, timeout: Option<TimeoutOrder> },
    /// The message is illegal in the current state; nothing changed.
    Rejected(SessionError),
    /// An unsolicited message to a player (timeout termination).
    Notice { user: u64, event: GameSessionEvent },
    /// A stale or unauthorized message; nothing changed.
    Ignored,
}

impl View for HandleOutcome {
    type V = model::HandleOutcome;

    open spec fn view(&self) -> model::HandleOutcome {
        match self {
            HandleOutcome::Reply(ev) => model::HandleOutcome::Reply(ev@),
            HandleOutcome::Forwarded { request, timeout } => model::HandleOutcome::Forwarded {
                request: request@,
                timeout: *timeout,
            },
            HandleOutcome::Rejected(e) => model::HandleOutcome::Rejected(*e),
            HandleOutcome::Notice { user, event } => model::HandleOutcome::Notice {
                user: *user,
                event: event@,
            },
            HandleOutcome::Ignored => model::HandleOutcome::Ignored,
        }
    }
}

/// Whether a guess is exactly five lowercase letters.
pub fn check_valid_word(word: &str) -> (r: bool)
    ensures
        r == model::valid_word(word@),
{
    let n = word.unicode_len();
    if n != 5 {
        return false;
    }
    let mut i: usize = 0;
    while i < n
        invariant
            n == word@.len(),
            i <= n,
            forall|j: int| 0 <= j < i ==> model::is_lowercase_letter(#[trigger] word@[j]),
        decreases n - i,
    {
        let c = word.get_char(i);
        let v = c as u32;
        if v < 97 || v > 122 {
            proof {
                assert(!model::is_lowercase_letter(word@[i as int]));
            }
            return false;
        }
        proof {
            assert(model::is_lowercase_letter(word@[i as int]));
        }
        i += 1;
    }
    true
}

/// The session coordinator: the oracle's address and one session per
/// player that ever contacted it.
pub struct GameSession {
    pub wordle_program_id: u64,
    pub sessions: Vec<(u64, SessionInfo)>,
}

impl View for GameSession {
    type V = model::GameSession;

    open spec fn view(&self) -> model::GameSession {
        model::GameSession {
            wordle_program_id: self.wordle_program_id,
            sessions: pairs_map(self.sessions@),
        }
    }
}

impl GameSession {
    /// Registry well-formedness: one entry per player, every session
    /// within the guess limit.
    pub open spec fn wf(&self) -> bool {
        &&& unique_keys(self.sessions@)
        &&& model::gs_wf(self@)
    }

    /// A coordinator for the oracle the configuration names, with no
    /// sessions yet.
    pub fn new(init: GameSessionInit) -> (gs: GameSession)
        requires
            init.wordle_program_id != 0,
        ensures
            gs.wf(),
            gs@.wordle_program_id == init.wordle_program_id,
            gs@.sessions == Map::<u64, model::SessionInfo>::empty(),
    {
        init.assert_valid();
        GameSession { wordle_program_id: init.wordle_program_id, sessions: Vec::new() }
    }

    /// Index of the player's entry in the registry, if any.
    fn find_session(&self, user: u64) -> (r: Option<usize>)
        requires
            unique_keys(self.sessions@),
        ensures
            match r {
                Some(i) => {
                    &&& (i as int) < self.sessions@.len()
                    &&& self.sessions@[i as int].0 == user
                    &&& self@.sessions.contains_key(user)
                    &&& self@.sessions[user] == self.sessions@[i as int].1@
                },
                None => !self@.sessions.contains_key(user),
            },
    {
        find_key(&self.sessions, user)
    }

    /// Overwrites the player's entry.
    fn set_session(&mut self, i: usize, user: u64, info: SessionInfo)
        requires
            unique_keys(old(self).sessions@),
            (i as int) < old(self).sessions@.len(),
            old(self).sessions@[i as int].0 == user,
        ensures
            unique_keys(final(self).sessions@),
            final(self).wordle_program_id == old(self).wordle_program_id,
            final(self)@ == (model::GameSession {
                sessions: old(self)@.sessions.insert(user, info@),
                ..old(self)@
            }),
    {
        proof {
            lemma_pairs_map_update(self.sessions@, i as int, (user, info));
        }
        self.sessions[i] = (user, info);
    }

    /// Adds an entry for a player not yet in the registry.
    fn push_session(&mut self, user: u64, info: SessionInfo)
        requires
            unique_keys(old(self).sessions@),
            !old(self)@.sessions.contains_key(user),
        ensures
            unique_keys(final(self).sessions@),
            final(self).wordle_program_id == old(self).wordle_program_id,
            final(self)@ == (model::GameSession {
                sessions: old(self)@.sessions.insert(user, info@),
                ..old(self)@
            }),
    {
        proof {
            assert forall|i: int| 0 <= i < self.sessions@.len() implies (
            #[trigger] self.sessions@[i]).0 != user by {
                if self.sessions@[i].0 == user {
                    lemma_pairs_map_index(self.sessions@, i);
                }
            }
            lemma_pairs_map_push(self.sessions@, (user, info));
        }
        self.sessions.push((user, info));
    }

    /// Handles one incoming message, as [`model::step`] describes: a
    /// player request to start or guess, or the coordinator's own
    /// scheduled progress check.
    pub fn handle(&mut self, ctx: MsgContext, action: GameSessionAction) -> (out: HandleOutcome)
        requires
            old(self).wf(),
        ensures
            final(self).wf(),
            final(self)@ == model::step(old(self)@, ctx, action@).0,
            out@ == model::step(old(self)@, ctx, action@).1,
    {
        match action {
            GameSessionAction::StartGame => self.start_game(ctx),
            GameSessionAction::CheckWord { word } => self.check_word(ctx, word),
            GameSessionAction::CheckGameStatus { user, session_id } => self.check_game_status(
                ctx,
                user,
                session_id,
            ),
        }
    }

    fn start_game(&mut self, ctx: MsgContext) -> (out: HandleOutcome)
        requires
            old(self).wf(),
        ensures
            final(self).wf(),
            final(self)@ == model::step_start_game(old(self)@, ctx).0,
            out@ == model::step_start_game(old(self)@, ctx).1,
    {
        let user = ctx.source;
        let ghost gs0 = self@;
        let found = self.find_session(user);
        let fresh = SessionInfo {
            session_id: ctx.msg_id,
            original_msg_id: ctx.msg_id,
            send_to_wordle_msg_id: ctx.outbound_msg_id,
            tries: 0,
            session_status: SessionStatus::WaitWordleStartReply,
        };
        match found {
            None => {
                // an unknown player holds a fresh session, which starts
                proof {
                    model::lemma_gs_wf_insert(gs0, user, fresh@);
                }
                self.push_session(user, fresh);
                HandleOutcome::Forwarded {
                    request: WordleAction::StartGame { user },
                    timeout: Some(TimeoutOrder { user, session_id: ctx.msg_id }),
                }
            }
            Some(i) => {
                let status = self.sessions[i].1.session_status.clone();
                match status {
                    SessionStatus::ReplyReceived(ev) => {
                        let reply = GameSessionEvent::from_wordle(&ev);
                        let cur = &self.sessions[i].1;
                        let updated = SessionInfo {
                            session_id: cur.session_id,
                            original_msg_id: cur.original_msg_id,
                            send_to_wordle_msg_id: cur.send_to_wordle_msg_id,
                            tries: cur.tries,
                            session_status: SessionStatus::WaitUserInput,
                        };
                        proof {
                            model::lemma_gs_wf_insert(gs0, user, updated@);
                        }
                        self.set_session(i, user, updated);
                        HandleOutcome::Reply(reply)
                    }
                    SessionStatus::Init
                    | SessionStatus::GameOver(_)
                    | SessionStatus::WaitWordleStartReply => {
                        proof {
                            model::lemma_gs_wf_insert(gs0, user, fresh@);
                        }
                        self.set_session(i, user, fresh);
                        HandleOutcome::Forwarded {
                            request: WordleAction::StartGame { user },
                            timeout: Some(TimeoutOrder { user, session_id: ctx.msg_id }),
                        }
                    }
                    SessionStatus::WaitUserInput | SessionStatus::WaitWordleCheckWordReply => {
                        HandleOutcome::Rejected(SessionError::AlreadyInGame)
                    }
                }
            }
        }
    }

    fn check_word(&mut self, ctx: MsgContext, word: String) -> (out: HandleOutcome)
        requires
            old(self).wf(),
        ensures
            final(self).wf(),
            final(self)@ == model::step_check_word(old(self)@, ctx, word@).0,
            out@ == model::step_check_word(old(self)@, ctx, word@).1,
    {
        let user = ctx.source;
        let ghost gs0 = self@;
        let found = self.find_session(user);
        match found {
            None => {
                // an unknown player holds a fresh session, not in a game
                HandleOutcome::Rejected(SessionError::NotInGame)
            }
            Some(i) => {
                let status = self.sessions[i].1.session_status.clone();
                match status {
                    SessionStatus::ReplyReceived(ev) => {
                        match &ev {
                            WordleEvent::GameStarted { .. } => {
                                HandleOutcome::Rejected(SessionError::PendingStartReply)
                            }
                            WordleEvent::WordChecked { .. } => {
                                proof {
                                    // the session is live, so the counter
                                    // is strictly below the limit
                                    assert(model::session_wf(gs0.sessions[user]));
                                }
                                let guessed = ev.has_guessed();
                                let cur_tries = self.sessions[i].1.tries;
                                let tries2 = cur_tries + 1;
                                let cur = &self.sessions[i].1;
                                if guessed {
                                    let updated = SessionInfo {
                                        session_id: cur.session_id,
                                        original_msg_id: cur.original_msg_id,
                                        send_to_wordle_msg_id: cur.send_to_wordle_msg_id,
                                        tries: tries2,
                                        session_status: SessionStatus::GameOver(GameStatus::Win),
                                    };
                                    proof {
                                        model::lemma_gs_wf_insert(gs0, user, updated@);
                                    }
                                    self.set_session(i, user, updated);
                                    HandleOutcome::Reply(
                                        GameSessionEvent::GameOver(GameStatus::Win),
                                    )
                                } else if tries2 == model::TRIES_LIMIT {
                                    let updated = SessionInfo {
                                        session_id: cur.session_id,
                                        original_msg_id: cur.original_msg_id,
                                        send_to_wordle_msg_id: cur.send_to_wordle_msg_id,
                                        tries: tries2,
                                        session_status: SessionStatus::GameOver(GameStatus::Lose),
                                    };
                                    proof {
                                        model::lemma_gs_wf_insert(gs0, user, updated@);
                                    }
                                    self.set_session(i, user, updated);
                                    HandleOutcome::Reply(
                                        GameSessionEvent::GameOver(GameStatus::Lose),
                                    )
                                } else {
                                    let reply = GameSessionEvent::from_wordle(&ev);
                                    let updated = SessionInfo {
                                        session_id: cur.session_id,
                                        original_msg_id: cur.original_msg_id,
                                        send_to_wordle_msg_id: cur.send_to_wordle_msg_id,
                                        tries: tries2,
                                        session_status: SessionStatus::WaitUserInput,
                                    };
                                    proof {
                                        model::lemma_gs_wf_insert(gs0, user, updated@);
                                    }
                                    self.set_session(i, user, updated);
                                    HandleOutcome::Reply(reply)
                                }
                            }
                        }
                    }
                    SessionStatus::WaitUserInput | SessionStatus::WaitWordleCheckWordReply => {
                        if !check_valid_word(word.as_str()) {
                            HandleOutcome::Rejected(SessionError::InvalidWord)
                        } else {
                            let cur = &self.sessions[i].1;
                            let updated = SessionInfo {
                                session_id: cur.session_id,
                                original_msg_id: ctx.msg_id,
                                send_to_wordle_msg_id: ctx.outbound_msg_id,
                                tries: cur.tries,
                                session_status: SessionStatus::WaitWordleCheckWordReply,
                            };
                            proof {
                                assert(model::session_wf(gs0.sessions[user]));
                                model::lemma_gs_wf_insert(gs0, user, updated@);
                            }
                            self.set_session(i, user, updated);
                            HandleOutcome::Forwarded {
                                request: WordleAction::CheckWord { user, word },
                                timeout: None,
                            }
                        }
                    }
                    SessionStatus::Init
                    | SessionStatus::WaitWordleStartReply
                    | SessionStatus::GameOver(_) => {
                        HandleOutcome::Rejected(SessionError::NotInGame)
                    }
                }
            }
        }
    }

    fn check_game_status(&mut self, ctx: MsgContext, user: u64, session_id: u64) -> (out:
        HandleOutcome)
        requires
            old(self).wf(),
        ensures
            final(self).wf(),
            final(self)@ == model::step_check_game_status(old(self)@, ctx, user, session_id).0,
            out@ == model::step_check_game_status(old(self)@, ctx, user, session_id).1,
    {
        if ctx.source != ctx.program_id {
            return HandleOutcome::Ignored;
        }
        let ghost gs0 = self@;
        let found = self.find_session(user);
        match found {
            None => HandleOutcome::Ignored,
            Some(i) => {
                let cur = &self.sessions[i].1;
                let over = matches!(cur.session_status, SessionStatus::GameOver(_));
                if session_id == cur.session_id && !over {
                    let updated = SessionInfo {
                        session_id: cur.session_id,
                        original_msg_id: cur.original_msg_id,
                        send_to_wordle_msg_id: cur.send_to_wordle_msg_id,
                        tries: cur.tries,
                        session_status: SessionStatus::GameOver(GameStatus::Lose),
                    };
                    proof {
                        model::lemma_gs_wf_insert(gs0, user, updated@);
                    }
                    self.set_session(i, user, updated);
                    HandleOutcome::Notice {
                        user,
                        event: GameSessionEvent::GameOver(GameStatus::Lose),
                    }
                } else {
                    HandleOutcome::Ignored
                }
            }
        }
    }

    /// Stores a correlated oracle reply, as [`model::reply_step`]
    /// describes, and names the suspended player call to resume, if any.
    pub fn handle_reply(&mut self, reply_to: u64, event: WordleEvent) -> (wake: Option<u64>)
        requires
            old(self).wf(),
        ensures
            final(self).wf(),
            final(self)@ == model::reply_step(old(self)@, reply_to, event@).0,
            wake == model::reply_step(old(self)@, reply_to, event@).1,
    {
        let ghost gs0 = self@;
        let user = event.get_user();
        let found = self.find_session(user);
        match found {
            None => None,
            Some(i) => {
                let cur = &self.sessions[i].1;
                if reply_to == cur.send_to_wordle_msg_id && cur.is_wait_reply_status() {
                    let original = cur.original_msg_id;
                    let updated = SessionInfo {
                        session_id: cur.session_id,
                        original_msg_id: cur.original_msg_id,
                        send_to_wordle_msg_id: cur.send_to_wordle_msg_id,
                        tries: cur.tries,
                        session_status: SessionStatus::ReplyReceived(event),
                    };
                    proof {
                        assert(model::session_wf(gs0.sessions[user]));
                        model::lemma_gs_wf_insert(gs0, user, updated@);
                    }
                    self.set_session(i, user, updated);
                    Some(original)
                } else {
                    None
                }
            }
        }
    }

    /// Snapshot of the registry and the configured oracle address, for
    /// diagnostics; the coordinator is not changed.
    pub fn state(&self) -> (st: GameSessionState)
        ensures
            st.wordle_program_id == self.wordle_program_id,
            st.game_sessions@.len() == self.sessions@.len(),
            forall|i: int|
                0 <= i < self.sessions@.len() ==> (#[trigger] st.game_sessions@[i]).0
                    == self.sessions@[i].0 && st.game_sessions@[i].1@ == self.sessions@[i].1@,
    {
        let mut out: Vec<(u64, SessionInfo)> = Vec::new();
        let mut i: usize = 0;
        while i < self.sessions.len()
            invariant
                i <= self.sessions@.len(),
                out@.len() == i,
                forall|j: int|
                    0 <= j < i ==> (#[trigger] out@[j]).0 == self.sessions@[j].0 && out@[j].1@
                        == self.sessions@[j].1@,
            decreases self.sessions@.len() - i,
        {
            let entry = &self.sessions[i];
            out.push((entry.0, entry.1.clone()));
            i += 1;
        }
        GameSessionState { wordle_program_id: self.wordle_program_id, game_sessions: out }
    }
}

} // verus!
