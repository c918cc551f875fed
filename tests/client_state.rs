use kittui_racer::models::{GameStatus, User, UserStatus, WSClientMessage, WSServerMessage};
use kittui_racer::ui::draw::select_event_at;
use kittui_racer::ui::fsm::{choose_list_action, Key, TransitionAction};
use kittui_racer::ui::input_handler::{handle_arena_input, handle_game_input, handle_input, handle_menu_input};
use kittui_racer::ui::models::App as PracticeApp;
use kittui_racer::ui::stateful_list::StatefulList;
use kittui_racer::ui::types::{
    App, ChallengeData, CharState, DisplayModifier, Event, LogType, PromptKey, Tab, TouchState,
    UiGameData, UiMessage,
};
use kittui_racer::ui::utils::calculate_progress;
use kittui_racer::ui::websocket_handler::{
    connection_event, count_down_to_zero, handle_incoming_websocket_message_at, sent_event,
    to_client_message,
};
use std::collections::VecDeque;

fn user(id: &str, name: &str) -> User {
    User { id: id.to_string(), status: UserStatus::Busy, display_name: name.to_string() }
}

fn event_at(message: &str, created_at: u64, duration: u64, displayed_at: Option<u64>) -> Event {
    Event {
        is_priority: false,
        log_type: LogType::Info,
        message: message.to_string(),
        duration,
        created_at,
        displayed_at,
    }
}

fn app_in_game(prompt: &str) -> App {
    let mut app = App::new();
    app.state.game = Some(UiGameData::new("g".to_string(), prompt.to_string(), 0));
    app.current_tab = Tab::Game;
    app
}

fn states(app: &App) -> Vec<CharState> {
    app.state.game.as_ref().unwrap().prompt_text.iter().map(|k| k.state).collect()
}

#[test]
fn progress_is_a_whole_percentage() {
    assert_eq!(calculate_progress(0, 10), 0);
    assert_eq!(calculate_progress(1, 3), 33);
    assert_eq!(calculate_progress(29, 100), 29);
    assert_eq!(calculate_progress(10, 10), 100);
    assert_eq!(calculate_progress(0, 0), 0);
    assert_eq!(calculate_progress(5, 0), u16::MAX);
    assert_eq!(calculate_progress(usize::MAX, 1), u16::MAX);
}

#[test]
fn list_selection_wraps_around() {
    let mut list = StatefulList::with_items(vec![1, 2, 3]);
    assert_eq!(list.selected, Some(0));
    list.previous();
    assert_eq!(list.selected, Some(2));
    list.next();
    assert_eq!(list.selected, Some(0));
    list.next();
    assert_eq!(list.get_selected_item(), Some(&2));
    list.unselect();
    assert_eq!(list.get_selected_item(), None);
    list.next();
    assert_eq!(list.selected, Some(0));
    let mut empty: StatefulList<u8> = StatefulList::with_items(vec![]);
    empty.next();
    empty.previous();
    assert_eq!(empty.selected, None);
    empty.clear_and_insert_items(vec![4, 5]);
    assert_eq!(empty.selected, Some(0));
    empty.add_items(vec![6]);
    empty.add_item(7);
    assert_eq!(empty.items, vec![4, 5, 6, 7]);
}

#[test]
fn prompt_starts_with_cursor_on_first_key() {
    let game = UiGameData::new("g1".to_string(), "ab".to_string(), 9);
    assert_eq!(
        game.prompt_text,
        vec![
            PromptKey { character: 'a', state: CharState::CursorPosition },
            PromptKey { character: 'b', state: CharState::Untouched },
        ]
    );
    assert_eq!(game.status, GameStatus::Init);
    assert!(UiGameData::new("g".to_string(), String::new(), 0).prompt_text.is_empty());
    assert_eq!(PracticeApp::new("xyz".to_string()).prompt.len(), 3);
    assert_eq!(PromptKey::new('q').state, CharState::Untouched);
}

#[test]
fn typing_marks_keys_and_moves_cursor() {
    let mut app = app_in_game("abc");
    assert!(!handle_game_input(&mut app, Key::Char('a')));
    assert!(!handle_game_input(&mut app, Key::Char('x')));
    assert_eq!(
        states(&app),
        vec![
            CharState::Touched(TouchState::Valid),
            CharState::Touched(TouchState::Invalid),
            CharState::CursorPosition,
        ]
    );
    assert_eq!(app.state.cursor_position, 2);
    assert!(!handle_game_input(&mut app, Key::Char('c')));
    assert_eq!(app.state.cursor_position, 2);
    assert!(!handle_game_input(&mut app, Key::Backspace));
    assert_eq!(app.state.cursor_position, 1);
    assert_eq!(states(&app)[1], CharState::CursorPosition);
    assert_eq!(states(&app)[2], CharState::Untouched);
    assert!(!handle_game_input(&mut app, Key::Backspace));
    assert!(handle_game_input(&mut app, Key::Backspace));
    assert!(handle_game_input(&mut app, Key::Esc));
}

#[test]
fn arena_challenges_selected_player() {
    let mut app = App::new();
    app.current_tab = Tab::Arena;
    app.state.players = StatefulList::with_items(vec![user("2", "Bob"), user("3", "Cy")]);
    assert!(!handle_arena_input(&mut app, Key::Char('j')));
    assert!(!handle_input(&mut app, Key::Enter));
    assert_eq!(app.outbox.len(), 1);
    match &app.outbox[0] {
        UiMessage::Challenge { user_name, user_id } => {
            assert_eq!(user_name, "Cy");
            assert_eq!(user_id, "3");
        },
        other => panic!("unexpected {other:?}"),
    }
    assert!(handle_arena_input(&mut app, Key::Esc));
}

#[test]
fn pending_challenge_only_accepts() {
    let mut app = App::new();
    app.state.challenge = Some(ChallengeData { opponent_id: "7".to_string() });
    assert_eq!(choose_list_action(true, Key::Down), TransitionAction::Nop);
    assert!(!handle_menu_input(&mut app, Key::Char('a')));
    assert!(matches!(&app.outbox[0], UiMessage::AcceptChallenge { user_id } if user_id == "7"));
    let mut lonely = App::new();
    lonely.accept_current_challenge();
    assert!(lonely.outbox.is_empty());
    assert_eq!(lonely.events.len(), 1);
    assert_eq!(lonely.events[0].message, "No active challenges to accept");
    assert_eq!(lonely.events[0].log_type, LogType::Error);
}

#[test]
fn menu_opens_the_chosen_screen() {
    let mut app = App::new();
    assert_eq!(app.current_tab, Tab::Menu);
    assert!(!handle_input(&mut app, Key::Char('l')));
    assert_eq!(app.current_tab, Tab::Arena);
    let mut app = App::new();
    handle_menu_input(&mut app, Key::Up);
    assert_eq!(app.state.menu.selected, Some(1));
    handle_menu_input(&mut app, Key::Enter);
    assert_eq!(app.current_tab, Tab::Game);
    assert!(handle_input(&mut App::new(), Key::Esc));
}

#[test]
fn priority_event_clears_queue() {
    let mut app = App::new();
    app.add_log_event(Event::info("one", 1, false));
    app.add_log_event(Event::info("two", 1, false));
    assert_eq!(app.events.len(), 2);
    app.add_log_event(Event::success("now", 3, true));
    assert_eq!(app.events.len(), 1);
    assert_eq!(app.events[0].duration, 3000);
}

#[test]
fn event_expiry_and_modifier() {
    let e = event_at("x", 1_000, 4_000, None);
    assert!(!e.is_expired_at(5_000));
    assert!(e.is_expired_at(5_001));
    assert_eq!(e.display_modifier_at(4_000), DisplayModifier::Bold);
    assert_eq!(e.display_modifier_at(4_001), DisplayModifier::Plain);
    assert_eq!(e.display_modifier_at(6_000), DisplayModifier::Dim);
    let mut shown = event_at("y", 0, 1_000, Some(10_000));
    assert!(!shown.is_expired_at(10_500));
    shown.mark_displayed_at(20_000);
    assert_eq!(shown.displayed_at, Some(10_000));
    let mut fresh = event_at("z", 0, 1_000, None);
    fresh.mark_displayed_at(30);
    assert_eq!(fresh.displayed_at, Some(30));
}

#[test]
fn bar_moves_past_expired_head() {
    let mut empty: VecDeque<Event> = VecDeque::new();
    let (none, modifier) = select_event_at(&mut empty, 5);
    assert!(none.is_none());
    assert_eq!(modifier, DisplayModifier::Plain);

    let mut events: VecDeque<Event> =
        vec![event_at("old", 0, 1_000, Some(0)), event_at("new", 0, 1_000, None)].into();
    let (shown, modifier) = select_event_at(&mut events, 5_000);
    assert_eq!(shown.unwrap().message, "new");
    assert_eq!(modifier, DisplayModifier::Bold);
    assert_eq!(events.len(), 1);
    assert_eq!(events[0].displayed_at, Some(5_000));

    let mut single: VecDeque<Event> = vec![event_at("only", 0, 1_000, Some(0))].into();
    let (shown, modifier) = select_event_at(&mut single, 5_000);
    assert_eq!(shown.unwrap().message, "only");
    assert_eq!(modifier, DisplayModifier::Dim);
    assert_eq!(single.len(), 1);
}

#[test]
fn countdown_counts_down_to_one() {
    let mut app = App::new();
    app.add_log_event(Event::info("stale", 1, false));
    count_down_to_zero(&mut app, "game", "start", 3);
    let texts: Vec<&str> = app.events.iter().map(|e| e.message.as_str()).collect();
    assert_eq!(
        texts,
        vec!["game will start in 3 seconds", "game will start in 2 seconds", "game will start in 1 seconds"]
    );
    assert!(app.events[0].is_priority && !app.events[1].is_priority);
    let mut app = App::new();
    count_down_to_zero(&mut app, "game", "start", 0);
    assert_eq!(app.events.len(), 1);
    assert_eq!(app.events[0].message, "game will start in 0 seconds");
    assert_eq!(Event::countdown("x", "go", 255, false).message, "x will go in 255 seconds");
    assert_eq!(Event::countdown("x", "go", 40, false).message, "x will go in 40 seconds");
}

#[test]
fn server_messages_update_the_client() {
    let mut app = App::new();
    handle_incoming_websocket_message_at(
        &mut app,
        WSServerMessage::SuccessfulConnection { user: user("1", "Ael") },
        0,
    );
    assert_eq!(app.current_user.as_ref().unwrap().status, UserStatus::Available);
    assert_eq!(app.events[0].message, "Master Cat assigned name Ael to you");

    let roster = vec![user("1", "Ael"), user("2", "Bob"), user("3", "Cy")];
    handle_incoming_websocket_message_at(&mut app, WSServerMessage::UserStatus { connected_users: roster }, 0);
    let ids: Vec<&str> = app.state.players.items.iter().map(|u| u.id.as_str()).collect();
    assert_eq!(ids, vec!["2", "3"]);
    assert_eq!(app.state.players.selected, Some(0));

    handle_incoming_websocket_message_at(
        &mut app,
        WSServerMessage::RequestForChallenge { from_user: user("2", "Bob") },
        0,
    );
    assert_eq!(app.state.challenge.as_ref().unwrap().opponent_id, "2");
    assert_eq!(app.events.back().unwrap().message, "Challenge received from Bob. Accept [A/a] | Reject [R/r]");

    handle_incoming_websocket_message_at(
        &mut app,
        WSServerMessage::GameInit { game_id: "21".to_string(), prompt_text: "hi".to_string(), starts_at: 1_010 },
        1_007,
    );
    assert_eq!(app.current_tab, Tab::Game);
    assert_eq!(app.events.len(), 3);
    assert_eq!(app.events[0].message, "game will start in 3 seconds");

    handle_incoming_websocket_message_at(&mut app, WSServerMessage::GameStart, 1_010);
    assert_eq!(app.state.game.as_ref().unwrap().status, GameStatus::InProgress);
    assert_eq!(app.events.len(), 1);

    handle_incoming_websocket_message_at(
        &mut app,
        WSServerMessage::GameUpdate { my_progress: 12, opponent_progress: 34 },
        1_011,
    );
    let game = app.state.game.as_ref().unwrap();
    assert_eq!((game.my_progress, game.opponent_progress), (12, 34));

    handle_incoming_websocket_message_at(&mut app, WSServerMessage::Error { message: "nope".to_string() }, 0);
    assert_eq!(app.events.back().unwrap().log_type, LogType::Error);
}

#[test]
fn far_start_is_capped_and_update_without_game_is_ignored() {
    let mut app = App::new();
    handle_incoming_websocket_message_at(
        &mut app,
        WSServerMessage::GameUpdate { my_progress: 1, opponent_progress: 2 },
        0,
    );
    assert!(app.state.game.is_none());
    handle_incoming_websocket_message_at(
        &mut app,
        WSServerMessage::GameInit { game_id: "g".to_string(), prompt_text: "p".to_string(), starts_at: 10_000 },
        0,
    );
    assert_eq!(app.events.len(), 255);
}

#[test]
fn requests_become_client_messages() {
    let accept = UiMessage::AcceptChallenge { user_id: "5".to_string() };
    assert_eq!(
        to_client_message(&accept),
        Some(WSClientMessage::AcceptChallenge { opponent_user_id: "5".to_string() })
    );
    assert_eq!(
        to_client_message(&UiMessage::Challenge { user_name: "Bob".to_string(), user_id: "2".to_string() }),
        Some(WSClientMessage::Challenge { to_user_id: "2".to_string() })
    );
    assert_eq!(to_client_message(&UiMessage::ProgressUpdate(3)), None);
    assert_eq!(sent_event(&accept, None).unwrap().message, "Accepted challenge");
    let failed = sent_event(&accept, Some("closed")).unwrap();
    assert_eq!(failed.message, "Could not send challenge because of error closed");
    assert!(failed.is_priority);
    let challenge = UiMessage::Challenge { user_name: "Bob".to_string(), user_id: "2".to_string() };
    assert_eq!(sent_event(&challenge, None).unwrap().message, "Successfully sent the challenge to Bob");
    assert!(sent_event(&UiMessage::ProgressUpdate(1), None).is_none());
    assert_eq!(connection_event(Some("refused")).message, "Could not create websocket connection refused");
    assert_eq!(connection_event(None).log_type, LogType::Success);
}

#[test]
fn own_progress_is_recorded_and_reported() {
    let mut game = UiGameData::new("g7".to_string(), "abc".to_string(), 0);
    match game.update_current_progress(66) {
        UiMessage::UpdateProgress { game_id, progress } => {
            assert_eq!(game_id, "g7");
            assert_eq!(progress, 66);
        },
        other => panic!("unexpected {other:?}"),
    }
    assert_eq!(game.my_progress, 66);
}
