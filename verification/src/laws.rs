//! Laws of the coordinator's state machine, proved once and for all over
//! the abstract model that [`crate::session::GameSession::handle`] and
//! [`crate::session::GameSession::handle_reply`] are verified against.

use vstd::prelude::*;

use crate::model;
use crate::session_io::GameStatus;
use crate::session_io::MsgContext;
use crate::session_io::SessionError;

verus! {

/// At most one oracle request is outstanding per session: a step issues
/// at most one request (the outcome carries at most one), and when it
/// does, the requesting player's session records exactly that request's
/// identifier as the only one it will accept, while every other session
/// is untouched.
pub proof fn lemma_single_outstanding_request(
    gs: model::GameSession,
    ctx: MsgContext,
    action: model::GameSessionAction,
)
    ensures
        model::step(gs, ctx, action).1 is Forwarded ==> ({
            let gs2 = model::step(gs, ctx, action).0;
            &&& gs2.sessions.contains_key(ctx.source)
            &&& gs2.sessions[ctx.source].session_status.is_wait_reply()
            &&& gs2.sessions[ctx.source].send_to_wordle_msg_id == ctx.outbound_msg_id
            &&& forall|u: u64|
                u != ctx.source && #[trigger] gs.sessions.contains_key(u)
                    ==> gs2.sessions.contains_key(u) && gs2.sessions[u] == gs.sessions[u]
        }),
{
}

/// An oracle reply is consumed only when it carries the identifier of the
/// session's single outstanding request while that session waits; it then
/// resumes exactly the suspended call the session recorded.  Every other
/// reply is stale or a duplicate: it changes nothing and resumes nobody.
pub proof fn lemma_reply_correlation(gs: model::GameSession, reply_to: u64, ev: model::WordleEvent)
    ensures
        ({
            let user = model::event_user(ev);
            let gs2 = model::reply_step(gs, reply_to, ev).0;
            let wake = model::reply_step(gs, reply_to, ev).1;
            &&& (wake is Some) <==> (gs.sessions.contains_key(user)
                && gs.sessions[user].session_status.is_wait_reply() && reply_to
                == gs.sessions[user].send_to_wordle_msg_id)
            &&& wake is None ==> gs2 == gs
            &&& wake is Some ==> {
                &&& wake == Some(gs.sessions[user].original_msg_id)
                &&& gs2.sessions[user].session_status == model::SessionStatus::ReplyReceived(ev)
                &&& gs2.sessions[user].tries == gs.sessions[user].tries
                &&& forall|u: u64|
                    u != user && #[trigger] gs.sessions.contains_key(u)
                        ==> gs2.sessions.contains_key(u) && gs2.sessions[u] == gs.sessions[u]
            }
        }),
{
}

/// A suspended call resumes at most once: after a reply is consumed the
/// session no longer waits, so the same reply delivered again is a no-op.
pub proof fn lemma_resume_at_most_once(gs: model::GameSession, reply_to: u64, ev: model::WordleEvent)
    ensures
        model::reply_step(gs, reply_to, ev).1 is Some ==> ({
            let gs2 = model::reply_step(gs, reply_to, ev).0;
            &&& model::reply_step(gs2, reply_to, ev).1 is None
            &&& model::reply_step(gs2, reply_to, ev).0 == gs2
        }),
{
}

/// Within a game the guess counter never decreases: any message other
/// than a start leaves every session's counter the same or higher.  Only
/// starting a new game resets it.
pub proof fn lemma_tries_monotone(
    gs: model::GameSession,
    ctx: MsgContext,
    action: model::GameSessionAction,
)
    requires
        model::gs_wf(gs),
        !(action is StartGame),
    ensures
        forall|u: u64| #[trigger]
            gs.sessions.contains_key(u) ==> model::step(gs, ctx, action).0.sessions.contains_key(u)
                && gs.sessions[u].tries <= model::step(gs, ctx, action).0.sessions[u].tries,
{
}

/// The guess counter never exceeds the limit: every message preserves
/// well-formedness of the registry.
pub proof fn lemma_step_preserves_wf(
    gs: model::GameSession,
    ctx: MsgContext,
    action: model::GameSessionAction,
)
    requires
        model::gs_wf(gs),
    ensures
        model::gs_wf(model::step(gs, ctx, action).0),
{
    let gs2 = model::step(gs, ctx, action).0;
    assert forall|u: u64| #[trigger] gs2.sessions.contains_key(u) implies model::session_wf(
        gs2.sessions[u],
    ) by {
        if gs.sessions.contains_key(u) {
            assert(model::session_wf(gs.sessions[u]));
        }
    }
}

/// So does every oracle reply.
pub proof fn lemma_reply_preserves_wf(gs: model::GameSession, reply_to: u64, ev: model::WordleEvent)
    requires
        model::gs_wf(gs),
    ensures
        model::gs_wf(model::reply_step(gs, reply_to, ev).0),
{
    let gs2 = model::reply_step(gs, reply_to, ev).0;
    assert forall|u: u64| #[trigger] gs2.sessions.contains_key(u) implies model::session_wf(
        gs2.sessions[u],
    ) by {
        if gs.sessions.contains_key(u) {
            assert(model::session_wf(gs.sessions[u]));
        }
    }
}

/// An evaluation that consumes the last allowed guess without winning
/// ends the game as a loss, then and there.
pub proof fn lemma_limit_forces_loss(
    gs: model::GameSession,
    ctx: MsgContext,
    word: Seq<char>,
    ev: model::WordleEvent,
)
    requires
        gs.sessions.contains_key(ctx.source),
        gs.sessions[ctx.source].session_status == model::SessionStatus::ReplyReceived(ev),
        ev is WordChecked,
        !model::is_winning_reply(ev),
        gs.sessions[ctx.source].tries + 1 == model::TRIES_LIMIT,
    ensures
        model::step_check_word(gs, ctx, word).1 == model::HandleOutcome::Reply(
            model::GameSessionEvent::GameOver(GameStatus::Lose),
        ),
        model::step_check_word(gs, ctx, word).0.sessions[ctx.source].session_status
            == model::SessionStatus::GameOver(GameStatus::Lose),
{
}

/// A stored evaluation that reports every slot correct wins the game,
/// whatever the guess counter holds.
pub proof fn lemma_perfect_match_wins(
    gs: model::GameSession,
    ctx: MsgContext,
    word: Seq<char>,
    ev: model::WordleEvent,
)
    requires
        gs.sessions.contains_key(ctx.source),
        gs.sessions[ctx.source].session_status == model::SessionStatus::ReplyReceived(ev),
        model::is_winning_reply(ev),
    ensures
        model::step_check_word(gs, ctx, word).1 == model::HandleOutcome::Reply(
            model::GameSessionEvent::GameOver(GameStatus::Win),
        ),
        model::step_check_word(gs, ctx, word).0.sessions[ctx.source].session_status
            == model::SessionStatus::GameOver(GameStatus::Win),
{
}

/// Starting while a game is genuinely in progress changes nothing and
/// sends nothing: the coordinator is untouched and the caller gets a
/// plain rejection.
pub proof fn lemma_start_rejected_while_in_progress(gs: model::GameSession, ctx: MsgContext)
    requires
        gs.sessions.contains_key(ctx.source),
        gs.sessions[ctx.source].session_status is WaitUserInput || gs.sessions[ctx.source].session_status
            is WaitWordleCheckWordReply,
    ensures
        model::step_start_game(gs, ctx).0 == gs,
        model::step_start_game(gs, ctx).1 == model::HandleOutcome::Rejected(
            SessionError::AlreadyInGame,
        ),
{
}

/// A malformed guess is rejected before anything happens: no oracle
/// request, no counted try, no state change.  (When a stored reply is
/// pending, a guess replays that reply instead and is not re-validated.)
pub proof fn lemma_invalid_word_rejected(gs: model::GameSession, ctx: MsgContext, word: Seq<char>)
    requires
        !model::valid_word(word),
        !(model::session_or_default(gs, ctx.source).session_status is ReplyReceived),
    ensures
        model::step_check_word(gs, ctx, word).0 == gs,
        model::step_check_word(gs, ctx, word).1 is Rejected,
{
}

/// A due progress check for a session still bound to the same game
/// terminates it as a loss and notifies the player — and does so exactly
/// once: the same check delivered again finds the game over and is
/// ignored.
pub proof fn lemma_timeout_terminates(
    gs: model::GameSession,
    ctx: MsgContext,
    user: u64,
    session_id: u64,
)
    requires
        ctx.source == ctx.program_id,
        gs.sessions.contains_key(user),
        gs.sessions[user].session_id == session_id,
        !(gs.sessions[user].session_status is GameOver),
    ensures
        model::step_check_game_status(gs, ctx, user, session_id).1 == (model::HandleOutcome::Notice {
            user,
            event: model::GameSessionEvent::GameOver(GameStatus::Lose),
        }),
        model::step_check_game_status(gs, ctx, user, session_id).0.sessions[user].session_status
            == model::SessionStatus::GameOver(GameStatus::Lose),
        model::step_check_game_status(
            model::step_check_game_status(gs, ctx, user, session_id).0,
            ctx,
            user,
            session_id,
        ).0 == model::step_check_game_status(gs, ctx, user, session_id).0,
        model::step_check_game_status(
            model::step_check_game_status(gs, ctx, user, session_id).0,
            ctx,
            user,
            session_id,
        ).1 == model::HandleOutcome::Ignored,
{
}

/// A progress check that no longer applies — wrong sender, unknown
/// player, superseded game, or a game already over — is a no-op.
pub proof fn lemma_stale_timeout_ignored(
    gs: model::GameSession,
    ctx: MsgContext,
    user: u64,
    session_id: u64,
)
    requires
        ctx.source != ctx.program_id || !gs.sessions.contains_key(user) || gs.sessions[user].session_id
            != session_id || (gs.sessions[user].session_status is GameOver),
    ensures
        model::step_check_game_status(gs, ctx, user, session_id).0 == gs,
        model::step_check_game_status(gs, ctx, user, session_id).1
            == model::HandleOutcome::Ignored,
{
}

/// Once a reply is stored, the player's next start call replays the
/// pending reply exactly and advances the session exactly once: a second
/// start finds a game in progress and is rejected without any change.
pub proof fn lemma_replay_delivered_once(
    gs: model::GameSession,
    ctx: MsgContext,
    ctx2: MsgContext,
    ev: model::WordleEvent,
)
    requires
        gs.sessions.contains_key(ctx.source),
        gs.sessions[ctx.source].session_status == model::SessionStatus::ReplyReceived(ev),
        ctx2.source == ctx.source,
    ensures
        model::step_start_game(gs, ctx).1 == model::HandleOutcome::Reply(model::reply_event(ev)),
        model::step_start_game(gs, ctx).0.sessions[ctx.source].session_status
            is WaitUserInput,
        model::step_start_game(model::step_start_game(gs, ctx).0, ctx2).0
            == model::step_start_game(gs, ctx).0,
        model::step_start_game(model::step_start_game(gs, ctx).0, ctx2).1
            == model::HandleOutcome::Rejected(SessionError::AlreadyInGame),
{
}

/// A stored evaluation is consumed by the first guess that arrives:
/// afterwards the session holds no stored reply, so nothing is ever
/// delivered twice.
pub proof fn lemma_reply_consumed_once(
    gs: model::GameSession,
    ctx: MsgContext,
    word: Seq<char>,
    ev: model::WordleEvent,
)
    requires
        gs.sessions.contains_key(ctx.source),
        gs.sessions[ctx.source].session_status == model::SessionStatus::ReplyReceived(ev),
        ev is WordChecked,
    ensures
        model::step_check_word(gs, ctx, word).1 is Reply,
        !(model::step_check_word(gs, ctx, word).0.sessions[ctx.source].session_status
            is ReplyReceived),
{
}

} // verus!
