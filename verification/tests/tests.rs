use gsession::model;
use gsession::session::GameSession;
use gsession::session::HandleOutcome;
use gsession::session_io::GameSessionAction;
use gsession::session_io::GameSessionEvent;
use gsession::session_io::GameSessionInit;
use gsession::session_io::GameStatus;
use gsession::session_io::MsgContext;
use gsession::session_io::SessionError;
use gsession::session_io::SessionStatus;
use gsession::session_io::WordleAction;
use gsession::session_io::WordleEvent;
use gsession::word::get_random_value;
use gsession::word::Wordle;
use gsession::word_io::Action;
use gsession::word_io::Event;
use gsession::word_io::WordError;

const GAME_SESSION_PROGRAM_ID: u64 = 1;
const WORDLE_PROGRAM_ID: u64 = 2;
const USER: u64 = 50;

/// What a player observes for one request, after the coordinator, the
/// oracle and the suspend/resume plumbing have run to quiescence.
#[derive(Debug, PartialEq)]
enum SendResult {
    Reply(GameSessionEvent),
    Failed(SessionError),
    /// The caller stays suspended: the oracle never replied.
    NoReply,
}

/// In-process stand-in for the message transport: it owns both programs,
/// assigns message identifiers, completes oracle round trips, re-delivers
/// a suspended call once it is woken, and keeps scheduled timeouts and
/// unsolicited notices.
struct World {
    session: GameSession,
    wordle: Wordle,
    next_msg_id: u64,
    /// Entropy handed to the oracle when it picks a secret.
    random_byte: u8,
    /// Whether oracle requests are delivered at all.
    oracle_online: bool,
    /// Scheduled `(user, session_id)` progress checks not yet fired.
    timeouts: Vec<(u64, u64)>,
    /// Unsolicited `(user, event)` messages sent to players.
    notices: Vec<(u64, GameSessionEvent)>,
}

impl World {
    fn new(random_byte: u8) -> World {
        World {
            session: GameSession::new(GameSessionInit { wordle_program_id: WORDLE_PROGRAM_ID }),
            wordle: Wordle::new(),
            next_msg_id: 1000,
            random_byte,
            oracle_online: true,
            timeouts: Vec::new(),
            notices: Vec::new(),
        }
    }

    fn fresh_id(&mut self) -> u64 {
        self.next_msg_id += 1;
        self.next_msg_id
    }

    /// Delivers one player message and runs the exchange to quiescence.
    /// `build` constructs the payload; it is called again when the
    /// suspended message is re-delivered after a wake, as the transport
    /// re-executes the very same payload.
    fn send(&mut self, user: u64, build: &dyn Fn() -> GameSessionAction) -> SendResult {
        let msg_id = self.fresh_id();
        let outbound = self.fresh_id();
        let ctx = MsgContext {
            source: user,
            msg_id,
            program_id: GAME_SESSION_PROGRAM_ID,
            outbound_msg_id: outbound,
        };
        match self.session.handle(ctx, build()) {
            HandleOutcome::Reply(ev) => SendResult::Reply(ev),
            HandleOutcome::Rejected(e) => SendResult::Failed(e),
            HandleOutcome::Notice { .. } | HandleOutcome::Ignored => {
                panic!("player messages reply, suspend or fail");
            }
            HandleOutcome::Forwarded { request, timeout } => {
                if let Some(t) = timeout {
                    self.timeouts.push((t.user, t.session_id));
                }
                if !self.oracle_online {
                    return SendResult::NoReply;
                }
                let oracle_action = match request {
                    WordleAction::StartGame { user } => Action::StartGame { user },
                    WordleAction::CheckWord { user, word } => Action::CheckWord { user, word },
                };
                let reply = match self.wordle.handle(self.random_byte, oracle_action) {
                    Ok(ev) => ev,
                    Err(_) => return SendResult::NoReply,
                };
                let wake = self.session.handle_reply(outbound, reply.into_session_event());
                assert_eq!(wake, Some(msg_id));
                // the woken message is re-delivered with the same payload
                match self.session.handle(ctx, build()) {
                    HandleOutcome::Reply(ev) => SendResult::Reply(ev),
                    HandleOutcome::Rejected(e) => SendResult::Failed(e),
                    _ => panic!("a woken call replies or fails"),
                }
            }
        }
    }

    fn start_game(&mut self, user: u64) -> SendResult {
        self.send(user, &|| GameSessionAction::StartGame)
    }

    fn check_word(&mut self, user: u64, word: &str) -> SendResult {
        let w = word.to_string();
        self.send(user, &move || GameSessionAction::CheckWord { word: w.clone() })
    }

    /// Fires every scheduled progress check, as the transport does once
    /// the delay has elapsed.
    fn spend_blocks(&mut self) {
        let due: Vec<(u64, u64)> = self.timeouts.drain(..).collect();
        for (user, session_id) in due {
            let msg_id = self.fresh_id();
            let outbound = self.fresh_id();
            let ctx = MsgContext {
                source: GAME_SESSION_PROGRAM_ID,
                msg_id,
                program_id: GAME_SESSION_PROGRAM_ID,
                outbound_msg_id: outbound,
            };
            let action = GameSessionAction::CheckGameStatus { user, session_id };
            match self.session.handle(ctx, action) {
                HandleOutcome::Notice { user, event } => self.notices.push((user, event)),
                HandleOutcome::Ignored => {}
                _ => panic!("a progress check notifies or is ignored"),
            }
        }
    }

    fn assert_start_game_success(&mut self, user: u64) {
        assert_eq!(self.start_game(user), SendResult::Reply(GameSessionEvent::StartSuccess));
    }

    fn assert_check_word_result(
        &mut self,
        user: u64,
        word: &str,
        correct_positions: Vec<u8>,
        contained_in_word: Vec<u8>,
    ) {
        assert_eq!(
            self.check_word(user, word),
            SendResult::Reply(GameSessionEvent::CheckWordResult {
                correct_positions,
                contained_in_word,
            })
        );
    }

    fn assert_check_word_fail(&mut self, user: u64, word: &str) {
        assert!(matches!(self.check_word(user, word), SendResult::Failed(_)));
    }

    fn assert_game_over(&mut self, user: u64, word: &str, status: GameStatus) {
        assert_eq!(
            self.check_word(user, word),
            SendResult::Reply(GameSessionEvent::GameOver(status))
        );
    }
}

/// One full winning game, with every malformed or out-of-turn message on
/// the way rejected without disturbing it.  The secret is "human".
#[test]
fn test_win() {
    // entropy 1 makes the oracle pick "human"
    let mut world = World::new(1);

    world.assert_start_game_success(USER);

    // "house" against "human": only slot 0 is right; the 'u' at slot 2
    // occurs elsewhere in the secret
    world.assert_check_word_result(USER, "house", vec![0], vec![2]);

    world.assert_check_word_result(USER, "apple", vec![], vec![0]);
    world.assert_check_word_result(USER, "grape", vec![], vec![2]);
    world.assert_check_word_result(USER, "abcde", vec![], vec![0]);

    // the fifth evaluation is exact, and a perfect match wins even on the
    // last allowed guess
    world.assert_game_over(USER, "human", GameStatus::Win);

    // the game is over: a further guess is out of turn
    world.assert_check_word_fail(USER, "sssss");

    // a finished game may be restarted
    world.assert_start_game_success(USER);

    // malformed guesses never reach the oracle
    world.assert_check_word_fail(USER, "caonima");
    world.assert_check_word_fail(USER, "and");

    // a player who never started has no game
    world.assert_check_word_fail(51, "kkkk");

    let state = world.session.state();
    assert_eq!(state.wordle_program_id, WORDLE_PROGRAM_ID);
    assert_eq!(state.game_sessions.len(), 1);
    assert_eq!(state.game_sessions[0].0, USER);
}

/// Five wrong guesses in a row: the first four report their partial
/// matches, the fifth ends the game as a loss.  The secret is "horse".
#[test]
fn test_tried_limit() {
    // entropy 2 makes the oracle pick "horse"
    let mut world = World::new(2);

    world.assert_start_game_success(USER);

    for i in 0..5 {
        if i == 4 {
            world.assert_game_over(USER, "house", GameStatus::Lose);
        } else {
            world.assert_check_word_result(USER, "house", vec![0, 1, 3, 4], vec![]);
        }
    }

    let state = world.session.state();
    assert_eq!(state.game_sessions[0].1.tries, 5);
    assert!(matches!(
        state.game_sessions[0].1.session_status,
        SessionStatus::GameOver(GameStatus::Lose)
    ));
}

/// The oracle never confirms the start; once the scheduled delay elapses
/// the session is terminated as a loss and the player is notified once,
/// without ever having guessed.
#[test]
fn test_dealyed_logic() {
    let mut world = World::new(0);
    world.oracle_online = false;

    assert_eq!(world.start_game(USER), SendResult::NoReply);

    world.spend_blocks();

    assert_eq!(
        world.notices,
        vec![(USER, GameSessionEvent::GameOver(GameStatus::Lose))]
    );
    let state = world.session.state();
    assert!(matches!(
        state.game_sessions[0].1.session_status,
        SessionStatus::GameOver(GameStatus::Lose)
    ));
}

/// Starting while a game is genuinely in progress is rejected and no
/// message reaches the oracle.
#[test]
fn start_while_in_progress_rejected() {
    let mut world = World::new(0);
    world.assert_start_game_success(USER);
    assert_eq!(world.start_game(USER), SendResult::Failed(SessionError::AlreadyInGame));
    // the running game is undisturbed: a guess still works; the secret is
    // "house", so "human" matches slot 0 and its 'u' occurs elsewhere
    world.assert_check_word_result(USER, "human", vec![0], vec![1]);
}

/// Malformed guesses are rejected without consuming a try: wrong length,
/// uppercase, digits.
#[test]
fn invalid_words_consume_no_try() {
    let mut world = World::new(0);
    world.assert_start_game_success(USER);
    // the secret is "house"
    world.assert_check_word_result(USER, "human", vec![0], vec![1]);

    for bad in ["", "ab", "abcd", "abcdef", "House", "hOuse", "hous3", "hous!"] {
        assert_eq!(
            world.check_word(USER, bad),
            SendResult::Failed(SessionError::InvalidWord)
        );
    }

    let state = world.session.state();
    assert_eq!(state.game_sessions[0].1.tries, 1);

    // a well-formed guess still works afterwards
    world.assert_check_word_result(USER, "horse", vec![0, 1, 3, 4], vec![]);
}

/// Guessing with no active game fails: before any start, and after a
/// loss.
#[test]
fn guess_without_game_rejected() {
    let mut world = World::new(2);
    assert_eq!(
        world.check_word(USER, "house"),
        SendResult::Failed(SessionError::NotInGame)
    );

    world.assert_start_game_success(USER);
    for _ in 0..4 {
        world.assert_check_word_result(USER, "house", vec![0, 1, 3, 4], vec![]);
    }
    world.assert_game_over(USER, "house", GameStatus::Lose);
    assert_eq!(
        world.check_word(USER, "house"),
        SendResult::Failed(SessionError::NotInGame)
    );
}

/// A stored reply is delivered exactly once, on the player's next call;
/// afterwards the normal rules apply again.
#[test]
fn stored_reply_delivered_once() {
    let mut world = World::new(0);

    // drive the exchange by hand: start, let the oracle confirm, but do
    // not re-deliver the suspended call yet
    let msg_id = world.fresh_id();
    let outbound = world.fresh_id();
    let ctx = MsgContext {
        source: USER,
        msg_id,
        program_id: GAME_SESSION_PROGRAM_ID,
        outbound_msg_id: outbound,
    };
    let out = world.session.handle(ctx, GameSessionAction::StartGame);
    let request = match out {
        HandleOutcome::Forwarded { request, .. } => request,
        other => panic!("expected a forwarded start, got {:?}", other),
    };
    let oracle_action = match request {
        WordleAction::StartGame { user } => Action::StartGame { user },
        other => panic!("expected a start request, got {:?}", other),
    };
    let reply = world.wordle.handle(0, oracle_action).unwrap();
    let wake = world.session.handle_reply(outbound, reply.into_session_event());
    assert_eq!(wake, Some(msg_id));

    // a guess cannot consume the pending start confirmation
    assert_eq!(
        world.check_word(USER, "house"),
        SendResult::Failed(SessionError::PendingStartReply)
    );

    // the next start call replays the confirmation
    assert_eq!(world.start_game(USER), SendResult::Reply(GameSessionEvent::StartSuccess));

    // it was consumed: a further start is now out of turn
    assert_eq!(world.start_game(USER), SendResult::Failed(SessionError::AlreadyInGame));
}

/// A duplicate or mis-correlated oracle reply is ignored: only the reply
/// carrying the outstanding request's identifier resumes the caller, and
/// only once.
#[test]
fn stale_oracle_reply_ignored() {
    let mut world = World::new(0);

    let msg_id = world.fresh_id();
    let outbound = world.fresh_id();
    let ctx = MsgContext {
        source: USER,
        msg_id,
        program_id: GAME_SESSION_PROGRAM_ID,
        outbound_msg_id: outbound,
    };
    world.session.handle(ctx, GameSessionAction::StartGame);

    // wrong correlation identifier: nobody is resumed
    let stray = Event::GameStarted { user: USER };
    assert_eq!(world.session.handle_reply(outbound + 7, stray.into_session_event()), None);

    // reply for a player with no session at all
    let unknown = Event::GameStarted { user: 99 };
    assert_eq!(world.session.handle_reply(outbound, unknown.into_session_event()), None);

    // the matching reply resumes the caller...
    let good = Event::GameStarted { user: USER };
    assert_eq!(
        world.session.handle_reply(outbound, good.into_session_event()),
        Some(msg_id)
    );

    // ...and a duplicate of it is a no-op
    let dup = Event::GameStarted { user: USER };
    assert_eq!(world.session.handle_reply(outbound, dup.into_session_event()), None);
}

/// A timeout that no longer applies is ignored: the player restarted in
/// the meantime, so the stale check fires against a superseded game.
#[test]
fn superseded_timeout_ignored() {
    let mut world = World::new(2);
    world.assert_start_game_success(USER);
    let stale = world.timeouts.clone();

    // lose the first game, start a second one
    for _ in 0..4 {
        world.assert_check_word_result(USER, "house", vec![0, 1, 3, 4], vec![]);
    }
    world.assert_game_over(USER, "house", GameStatus::Lose);
    world.assert_start_game_success(USER);

    // fire only the first game's check: its session identifier is stale
    world.timeouts = stale;
    world.spend_blocks();
    assert_eq!(world.notices, vec![]);

    // the second game is unaffected
    world.assert_check_word_result(USER, "house", vec![0, 1, 3, 4], vec![]);
}

/// The player is notified of a timeout loss exactly once, even if the
/// check fires again.
#[test]
fn timeout_notifies_once() {
    let mut world = World::new(0);
    world.oracle_online = false;
    assert_eq!(world.start_game(USER), SendResult::NoReply);

    let due = world.timeouts.clone();
    world.spend_blocks();
    world.timeouts = due;
    world.spend_blocks();

    assert_eq!(world.notices, vec![(USER, GameSessionEvent::GameOver(GameStatus::Lose))]);
}

/// The oracle's letter comparison on concrete words.
#[test]
fn oracle_positions_exact() {
    let mut wordle = Wordle::new();
    // entropy 1: the secret is "human"
    wordle.handle(1, Action::StartGame { user: USER }).unwrap();
    let ev = wordle
        .handle(0, Action::CheckWord { user: USER, word: "house".to_string() })
        .unwrap();
    assert_eq!(
        ev,
        Event::WordChecked {
            user: USER,
            correct_positions: vec![0],
            contained_in_word: vec![2],
        }
    );

    // entropy 2: the secret is "horse"; "house" differs in the one slot
    // holding 'u', which occurs nowhere else in the secret
    let mut wordle2 = Wordle::new();
    wordle2.handle(2, Action::StartGame { user: USER }).unwrap();
    let ev2 = wordle2
        .handle(0, Action::CheckWord { user: USER, word: "house".to_string() })
        .unwrap();
    assert_eq!(
        ev2,
        Event::WordChecked {
            user: USER,
            correct_positions: vec![0, 1, 3, 4],
            contained_in_word: vec![],
        }
    );

    // a perfect guess reports every slot
    let ev3 = wordle2
        .handle(0, Action::CheckWord { user: USER, word: "horse".to_string() })
        .unwrap();
    assert_eq!(
        ev3,
        Event::WordChecked {
            user: USER,
            correct_positions: vec![0, 1, 2, 3, 4],
            contained_in_word: vec![],
        }
    );
}

/// The oracle's own rejections: a guess of the wrong length, and a guess
/// for a player it holds no game for.
#[test]
fn oracle_errors() {
    let mut wordle = Wordle::new();
    assert_eq!(
        wordle.handle(0, Action::CheckWord { user: USER, word: "toolong".to_string() }),
        Err(WordError::WrongLength)
    );
    assert_eq!(
        wordle.handle(0, Action::CheckWord { user: USER, word: "house".to_string() }),
        Err(WordError::NoGame)
    );
}

/// Entropy folding into a bank index.
#[test]
fn random_value_in_range() {
    assert_eq!(get_random_value(0, 3), 0);
    assert_eq!(get_random_value(1, 3), 1);
    assert_eq!(get_random_value(2, 3), 2);
    assert_eq!(get_random_value(7, 3), 1);
    assert_eq!(get_random_value(255, 3), 0);
}

/// A winning evaluation is exactly the full index set.
#[test]
fn has_guessed_on_concrete_events() {
    let win = WordleEvent::WordChecked {
        user: USER,
        correct_positions: vec![0, 1, 2, 3, 4],
        contained_in_word: vec![],
    };
    assert!(win.has_guessed());

    let partial = WordleEvent::WordChecked {
        user: USER,
        correct_positions: vec![0, 1, 3, 4],
        contained_in_word: vec![],
    };
    assert!(!partial.has_guessed());
    assert_eq!(partial.get_user(), USER);
}

/// The read-only state query reflects the registry without touching it.
#[test]
fn state_query_snapshot() {
    let mut world = World::new(1);
    world.assert_start_game_success(USER);
    world.assert_start_game_success(51);
    world.assert_check_word_result(USER, "house", vec![0], vec![2]);

    let state = world.session.state();
    assert_eq!(state.wordle_program_id, WORDLE_PROGRAM_ID);
    assert_eq!(state.game_sessions.len(), 2);
    let mine = state.game_sessions.iter().find(|e| e.0 == USER).unwrap();
    assert_eq!(mine.1.tries, 1);
    assert!(matches!(mine.1.session_status, SessionStatus::WaitUserInput));

    // the query changed nothing
    let again = world.session.state();
    assert_eq!(state, again);
    assert_eq!(model::TRIES_LIMIT, 5);
}
