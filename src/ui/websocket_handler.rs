//! The client's side of the connection: what a message from the server does to
//! the client, and what the client sends for a request of the screens.
use crate::models::{GameStatus, User, UserStatus, WSClientMessage, WSServerMessage};
use crate::ui::types::{
    countdown_text, is_fresh_prompt, logged, now_secs, App, ChallengeData, Event, LogType, Player,
    Tab, UiGameData, UiMessage,
};
use vstd::prelude::*;

verus! {

/// `new` is `old` with one countdown of `duration` seconds queued in place of
/// the notices before: from `duration` down to one, the first with priority.
pub open spec fn countdown_logged(new: Seq<Event>, event: Seq<char>, action: Seq<char>, duration: nat) -> bool {
    &&& new.len() == (if duration == 0 {
        1
    } else {
        duration
    })
    &&& forall|i: int|
        0 <= i < new.len() ==> (#[trigger] new[i]).fresh(
            LogType::Info,
            countdown_text(event, action, (duration - i) as nat),
            1,
            i == 0,
        )
}

/// Queues a countdown: `event` will `action` in `duration` seconds, then one
/// second less, down to one.
pub fn count_down_to_zero(app: &mut App, event: &str, action: &str, duration: u8)
    ensures
        countdown_logged(final(app).events@, event@, action@, duration as nat),
        final(app).current_tab == old(app).current_tab,
        final(app).state == old(app).state,
        final(app).current_user == old(app).current_user,
        final(app).outbox == old(app).outbox,
{
    let first_event = Event::countdown(event, action, duration, true);
    app.add_log_event(first_event);
    let mut remaining: u8 = duration;
    while remaining > 1
        invariant
            remaining <= duration,
            duration >= 1 ==> remaining >= 1,
            app.events@.len() == (if duration == 0 {
                1
            } else {
                duration - remaining + 1
            }),
            forall|i: int|
                0 <= i < app.events@.len() ==> (#[trigger] app.events@[i]).fresh(
                    LogType::Info,
                    countdown_text(event@, action@, (duration - i) as nat),
                    1,
                    i == 0,
                ),
            app.current_tab == old(app).current_tab,
            app.state == old(app).state,
            app.current_user == old(app).current_user,
            app.outbox == old(app).outbox,
        decreases remaining,
    {
        remaining = remaining - 1;
        app.add_log_event(Event::countdown(event, action, remaining, false));
    }
}

/// The notice of a challenge.
pub open spec fn challenge_notice(name: Seq<char>) -> Seq<char> {
    "Challenge received from "@ + name + ". Accept [A/a] | Reject [R/r]"@
}

/// The notice of the name the server assigned.
pub open spec fn name_notice(name: Seq<char>) -> Seq<char> {
    "Master Cat assigned name "@ + name + " to you"@
}

/// The players of a roster that the client lists: all but itself.
pub open spec fn listed_players(users: Seq<User>, me: Option<Player>) -> Seq<User> {
    match me {
        Some(p) => users.filter(|u: User| u.id@ != p.id@),
        None => users,
    }
}

/// Only the notices changed.
pub open spec fn only_events_changed(old: App, new: App) -> bool {
    &&& new.current_tab == old.current_tab
    &&& new.state == old.state
    &&& new.current_user == old.current_user
    &&& new.outbox == old.outbox
}

/// Of the screens' state, only the match changed.
pub open spec fn only_game_changed(old: App, new: App) -> bool {
    &&& new.current_user == old.current_user
    &&& new.outbox == old.outbox
    &&& new.state.cursor_position == old.state.cursor_position
    &&& new.state.players == old.state.players
    &&& new.state.menu == old.state.menu
    &&& new.state.challenge == old.state.challenge
}

/// What a message of the server does to the client at `now` (Unix time, in
/// seconds).
pub open spec fn server_message_applied(old: App, new: App, message: WSServerMessage, now: u64) -> bool {
    match message {
        WSServerMessage::RequestForChallenge { from_user } => {
            &&& logged(old.events@, new.events@, LogType::Info, challenge_notice(from_user.display_name@), 5, false)
            &&& new.state.challenge == Some(ChallengeData { opponent_id: from_user.id })
            &&& new.current_tab == old.current_tab
            &&& new.current_user == old.current_user
            &&& new.outbox == old.outbox
            &&& new.state.cursor_position == old.state.cursor_position
            &&& new.state.players == old.state.players
            &&& new.state.menu == old.state.menu
            &&& new.state.game == old.state.game
        },
        WSServerMessage::UserStatus { connected_users } => {
            let kept = listed_players(connected_users@, old.current_user);
            &&& new.state.players.items@ == kept
            &&& new.state.players.selected == (if old.state.players.items@.len() == 0 && kept.len() > 0 {
                Some(0usize)
            } else {
                old.state.players.selected
            })
            &&& new.current_tab == old.current_tab
            &&& new.current_user == old.current_user
            &&& new.outbox == old.outbox
            &&& new.events == old.events
            &&& new.state.cursor_position == old.state.cursor_position
            &&& new.state.menu == old.state.menu
            &&& new.state.challenge == old.state.challenge
            &&& new.state.game == old.state.game
        },
        WSServerMessage::SuccessfulConnection { user } => {
            &&& logged(old.events@, new.events@, LogType::Success, name_notice(user.display_name@), 1, false)
            &&& new.current_user == Some(
                User { id: user.id, status: UserStatus::Available, display_name: user.display_name },
            )
            &&& new.current_tab == old.current_tab
            &&& new.state == old.state
            &&& new.outbox == old.outbox
        },
        WSServerMessage::Error { message } => {
            &&& logged(old.events@, new.events@, LogType::Error, message@, 1, false)
            &&& only_events_changed(old, new)
        },
        WSServerMessage::GameInit { game_id, prompt_text, starts_at } => {
            let wait = if starts_at >= now { starts_at - now } else { 0 };
            &&& countdown_logged(new.events@, "game"@, "start"@, if wait > 255 { 255 } else { wait as nat })
            &&& new.current_tab == Tab::Game
            &&& only_game_changed(old, new)
            &&& match new.state.game {
                Some(g) => {
                    &&& g.game_id == game_id
                    &&& g.my_progress == 0
                    &&& g.opponent_progress == 0
                    &&& is_fresh_prompt(g.prompt_text@, prompt_text@)
                    &&& g.starts_at == starts_at
                    &&& g.status == GameStatus::Init
                },
                None => false,
            }
        },
        WSServerMessage::GameStart => {
            &&& logged(old.events@, new.events@, LogType::Success, "Game Started"@, 10, true)
            &&& new.current_tab == old.current_tab
            &&& only_game_changed(old, new)
            &&& match (old.state.game, new.state.game) {
                (Some(o), Some(n)) => {
                    &&& n.status == GameStatus::InProgress
                    &&& n.game_id == o.game_id
                    &&& n.my_progress == o.my_progress
                    &&& n.opponent_progress == o.opponent_progress
                    &&& n.prompt_text == o.prompt_text
                    &&& n.starts_at == o.starts_at
                },
                (None, None) => true,
                _ => false,
            }
        },
        WSServerMessage::GameUpdate { my_progress, opponent_progress } => {
            &&& new.current_tab == old.current_tab
            &&& new.events == old.events
            &&& only_game_changed(old, new)
            &&& match (old.state.game, new.state.game) {
                (Some(o), Some(n)) => {
                    &&& n.my_progress == my_progress
                    &&& n.opponent_progress == opponent_progress
                    &&& n.game_id == o.game_id
                    &&& n.status == o.status
                    &&& n.prompt_text == o.prompt_text
                    &&& n.starts_at == o.starts_at
                },
                (None, None) => true,
                _ => false,
            }
        },
    }
}

/// The roster without the client's own entry.
fn players_without(users: Vec<User>, me: &Option<Player>) -> (r: Vec<User>)
    ensures
        r@ == listed_players(users@, *me),
{
    match me {
        None => users,
        Some(p) => {
            let mut kept: Vec<User> = Vec::new();
            let mut i: usize = 0;
            while i < users.len()
                invariant
                    i <= users@.len(),
                    kept@ == users@.subrange(0, i as int).filter(|u: User| u.id@ != p.id@),
                decreases users@.len() - i,
            {
                proof {
                    reveal(Seq::filter);
                    assert(users@.subrange(0, i + 1).drop_last() =~= users@.subrange(0, i as int));
                }
                if users[i].id != p.id {
                    kept.push(users[i].copy());
                }
                i = i + 1;
            }
            assert(users@.subrange(0, users@.len() as int) =~= users@);
            kept
        },
    }
}

/// Applies a message of the server, received at `now` (Unix time, in seconds).
pub fn handle_incoming_websocket_message_at(app: &mut App, websock_message: WSServerMessage, now: u64)
    ensures
        server_message_applied(*old(app), *final(app), websock_message, now),
{
    match websock_message {
        WSServerMessage::RequestForChallenge { from_user } => {
            let mut notice = String::from_str("Challenge received from ");
            notice.append(from_user.display_name.as_str());
            notice.append(". Accept [A/a] | Reject [R/r]");
            app.add_log_event(Event::info(notice.as_str(), 5, false));
            app.state.challenge = Some(ChallengeData { opponent_id: from_user.id });
        },
        WSServerMessage::UserStatus { connected_users } => {
            let others = players_without(connected_users, &app.current_user);
            app.state.players.clear_and_insert_items(others);
        },
        WSServerMessage::SuccessfulConnection { user } => {
            let mut notice = String::from_str("Master Cat assigned name ");
            notice.append(user.display_name.as_str());
            notice.append(" to you");
            app.add_log_event(Event::success(notice.as_str(), 1, false));
            app.current_user = Some(
                User { id: user.id, status: UserStatus::Available, display_name: user.display_name },
            );
        },
        WSServerMessage::Error { message } => {
            app.add_log_event(Event::error(message.as_str(), 1, false));
        },
        WSServerMessage::GameInit { game_id, prompt_text, starts_at } => {
            app.state.game = Some(UiGameData::new(game_id, prompt_text, starts_at));
            app.current_tab = Tab::Game;
            let wait: u64 = starts_at.saturating_sub(now);
            let seconds: u8 = if wait > 255 { 255 } else { wait as u8 };
            count_down_to_zero(app, "game", "start", seconds);
        },
        WSServerMessage::GameStart => {
            match &mut app.state.game {
                Some(game_data) => {
                    game_data.status = GameStatus::InProgress;
                },
                None => {},
            }
            app.add_log_event(Event::success("Game Started", 10, true));
        },
        WSServerMessage::GameUpdate { my_progress, opponent_progress } => {
            match &mut app.state.game {
                Some(game_data) => {
                    game_data.my_progress = my_progress;
                    game_data.opponent_progress = opponent_progress;
                },
                None => {},
            }
        },
    }
}

/// Applies a message of the server now.
pub fn handle_incoming_websocket_message(app: &mut App, websock_message: WSServerMessage) {
    handle_incoming_websocket_message_at(app, websock_message, now_secs());
}

/// What the client sends the server for a request of the screens; nothing for
/// a local progress tick.
pub fn to_client_message(message: &UiMessage) -> (r: Option<WSClientMessage>)
    ensures
        match *message {
            UiMessage::AcceptChallenge { user_id } => r == Some(
                WSClientMessage::AcceptChallenge { opponent_user_id: user_id },
            ),
            UiMessage::Challenge { user_name, user_id } => r == Some(
                WSClientMessage::Challenge { to_user_id: user_id },
            ),
            UiMessage::UpdateProgress { game_id, progress } => r == Some(
                WSClientMessage::UpdateProgress { game_id, progress },
            ),
            UiMessage::ProgressUpdate(_) => r is None,
        },
{
    match message {
        UiMessage::AcceptChallenge { user_id } => Some(
            WSClientMessage::AcceptChallenge { opponent_user_id: user_id.clone() },
        ),
        UiMessage::Challenge { user_id, .. } => Some(
            WSClientMessage::Challenge { to_user_id: user_id.clone() },
        ),
        UiMessage::UpdateProgress { game_id, progress } => Some(
            WSClientMessage::UpdateProgress { game_id: game_id.clone(), progress: *progress },
        ),
        UiMessage::ProgressUpdate(_) => None,
    }
}

/// The notice of a failed send.
pub open spec fn send_failure_notice(error: Seq<char>) -> Seq<char> {
    "Could not send challenge because of error "@ + error
}

/// The notice after a request was sent, or failed to be sent with the error
/// text `failure`: for a challenge and an acceptance only.
pub fn sent_event(message: &UiMessage, failure: Option<&str>) -> (r: Option<Event>)
    ensures
        match (*message, failure) {
            (UiMessage::AcceptChallenge { .. }, None) => r matches Some(e) && e.fresh(
                LogType::Success,
                "Accepted challenge"@,
                1,
                true,
            ),
            (UiMessage::AcceptChallenge { .. }, Some(error)) => r matches Some(e) && e.fresh(
                LogType::Error,
                send_failure_notice(error@),
                1,
                true,
            ),
            (UiMessage::Challenge { user_name, .. }, None) => r matches Some(e) && e.fresh(
                LogType::Success,
                "Successfully sent the challenge to "@ + user_name@,
                2,
                false,
            ),
            (UiMessage::Challenge { .. }, Some(error)) => r matches Some(e) && e.fresh(
                LogType::Error,
                send_failure_notice(error@),
                1,
                false,
            ),
            _ => r is None,
        },
{
    match message {
        UiMessage::AcceptChallenge { .. } => match failure {
            None => Some(Event::success("Accepted challenge", 1, true)),
            Some(error) => {
                let mut notice = String::from_str("Could not send challenge because of error ");
                notice.append(error);
                Some(Event::error(notice.as_str(), 1, true))
            },
        },
        UiMessage::Challenge { user_name, .. } => match failure {
            None => {
                let mut notice = String::from_str("Successfully sent the challenge to ");
                notice.append(user_name.as_str());
                Some(Event::success(notice.as_str(), 2, false))
            },
            Some(error) => {
                let mut notice = String::from_str("Could not send challenge because of error ");
                notice.append(error);
                Some(Event::error(notice.as_str(), 1, false))
            },
        },
        _ => None,
    }
}

/// The notice after connecting to the server, or failing to with the error
/// text `failure`.
pub fn connection_event(failure: Option<&str>) -> (r: Event)
    ensures
        match failure {
            None => r.fresh(LogType::Success, "Websocket connection established"@, 1, false),
            Some(error) => r.fresh(
                LogType::Error,
                "Could not create websocket connection "@ + error@,
                1,
                true,
            ),
        },
{
    match failure {
        None => Event::success("Websocket connection established", 1, false),
        Some(error) => {
            let mut notice = String::from_str("Could not create websocket connection ");
            notice.append(error);
            Event::error(notice.as_str(), 1, true)
        },
    }
}

} // verus!
