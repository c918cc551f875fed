use kittui_racer::models::{GameStatus, User, UserStatus, WSClientMessage, WSServerMessage};
use kittui_racer::server_utils::fast_storage::{
    BlazinglyFastDb, Delivery, GameData, StoreError, UserConnection, UserGameData,
    START_DELAY_SECS,
};
use kittui_racer::server_utils::generate_name;
use kittui_racer::server_utils::message_handlers::{
    connect_user, disconnect_user, handle_client_messages, is_insignificant_update,
    start_pending_game, HandlerOutcome,
};

const PROMPT: &str = "To wear your heart on your sleeve isn't a very good plan; you should wear it inside, where it functions best.";
const MISSING: &str = "Requested user cannot be found or is disconnected";

fn user(id: &str) -> User {
    User { id: id.to_string(), status: UserStatus::Available, display_name: format!("Cat {id}") }
}

fn db_with(ids: &[&str]) -> BlazinglyFastDb<u32> {
    let mut db = BlazinglyFastDb::new();
    for (i, id) in ids.iter().enumerate() {
        connect_user(&mut db, UserConnection::new(user(id), i as u32)).unwrap();
    }
    db
}

fn to_of(deliveries: &[Delivery]) -> Vec<String> {
    deliveries.iter().map(|d| d.to.clone()).collect()
}

fn accept(db: &mut BlazinglyFastDb<u32>, by: &str, of: &str, now: u64) -> HandlerOutcome {
    let message = WSClientMessage::AcceptChallenge { opponent_user_id: of.to_string() };
    handle_client_messages(db, by, message, now)
}

fn report(db: &mut BlazinglyFastDb<u32>, by: &str, game_id: &str, progress: u16) -> Vec<Delivery> {
    let message = WSClientMessage::UpdateProgress { game_id: game_id.to_string(), progress };
    let outcome = handle_client_messages(db, by, message, 0);
    assert!(outcome.start.is_none());
    outcome.deliveries
}

#[test]
fn registered_user_is_found_until_removed() {
    let mut db = db_with(&["alice", "bob"]);
    assert_eq!(db.get_user_by_id("alice"), Some(user("alice")));
    assert_eq!(db.get_user_connection_by_id("bob").map(|c| c.sender), Some(1));
    db.delete_user_connection("bob");
    assert_eq!(db.get_user_by_id("alice"), Some(user("alice")));
    db.delete_user_connection("alice");
    assert_eq!(db.get_user_by_id("alice"), None);
    assert!(db.get_user_connection_by_id("alice").is_none());
    db.delete_user_connection("alice");
    assert!(db.users.is_empty());
}

#[test]
fn duplicate_registration_is_refused() {
    let mut db = db_with(&["alice"]);
    let again = UserConnection::new(user("alice"), 7);
    assert_eq!(db.insert_new_user_connection(again).err(), Some(StoreError::UserExists));
    assert_eq!(db.users.len(), 1);
    assert_eq!(db.users[0].sender, 0);
    assert!(connect_user(&mut db, UserConnection::new(user("alice"), 8)).is_err());
}

#[test]
fn connecting_welcomes_and_broadcasts_roster() {
    let mut db = db_with(&["alice"]);
    let out = connect_user(&mut db, UserConnection::new(user("bob"), 1)).unwrap();
    assert_eq!(to_of(&out), vec!["bob", "alice", "bob"]);
    assert_eq!(out[0].message, WSServerMessage::SuccessfulConnection { user: user("bob") });
    let roster = WSServerMessage::UserStatus { connected_users: vec![user("alice"), user("bob")] };
    assert_eq!(out[1].message, roster);
    assert_eq!(out[2].message, roster);
}

#[test]
fn roster_broadcast_reaches_every_registered_user() {
    let db = db_with(&["1", "2", "3"]);
    let out = db.boradcast_status();
    assert_eq!(to_of(&out), vec!["1", "2", "3"]);
    for d in &out {
        assert_eq!(
            d.message,
            WSServerMessage::UserStatus { connected_users: vec![user("1"), user("2"), user("3")] }
        );
    }
    assert!(BlazinglyFastDb::<u32>::new().boradcast_status().is_empty());
}

#[test]
fn disconnect_broadcasts_remaining_roster() {
    let mut db = db_with(&["1", "2", "3"]);
    let out = disconnect_user(&mut db, "2");
    assert_eq!(to_of(&out), vec!["1", "3"]);
    assert_eq!(
        out[0].message,
        WSServerMessage::UserStatus { connected_users: vec![user("1"), user("3")] }
    );
    assert!(db.get_user_by_id("2").is_none());
}

#[test]
fn challenge_of_absent_user_errors_to_sender_only() {
    let mut db = db_with(&["alice", "bob"]);
    let message = WSClientMessage::Challenge { to_user_id: "carol".to_string() };
    let out = handle_client_messages(&mut db, "alice", message, 0);
    assert!(out.start.is_none());
    assert_eq!(to_of(&out.deliveries), vec!["alice"]);
    assert_eq!(out.deliveries[0].message, WSServerMessage::Error { message: MISSING.to_string() });
}

#[test]
fn challenge_from_absent_sender_tells_target() {
    let mut db = db_with(&["bob"]);
    let message = WSClientMessage::Challenge { to_user_id: "bob".to_string() };
    let out = handle_client_messages(&mut db, "ghost", message, 0);
    assert_eq!(to_of(&out.deliveries), vec!["bob"]);
    assert_eq!(out.deliveries[0].message, WSServerMessage::Error { message: MISSING.to_string() });
    let nobody = WSClientMessage::Challenge { to_user_id: "carol".to_string() };
    assert!(handle_client_messages(&mut db, "ghost", nobody, 0).deliveries.is_empty());
}

#[test]
fn alice_challenges_bob_and_they_race() {
    let mut db = db_with(&["alice", "bob"]);
    let challenge = WSClientMessage::Challenge { to_user_id: "bob".to_string() };
    let out = handle_client_messages(&mut db, "alice", challenge, 1_000);
    assert_eq!(to_of(&out.deliveries), vec!["bob"]);
    assert_eq!(out.deliveries[0].message, WSServerMessage::RequestForChallenge { from_user: user("alice") });

    let out = accept(&mut db, "bob", "alice", 1_000);
    assert_eq!(to_of(&out.deliveries), vec!["bob", "alice"]);
    let init = WSServerMessage::GameInit {
        game_id: "bobalice".to_string(),
        prompt_text: PROMPT.to_string(),
        starts_at: 1_010,
    };
    assert_eq!(out.deliveries[0].message, init);
    assert_eq!(out.deliveries[1].message, init);
    let start = out.start.unwrap();
    assert_eq!(start.game_id, "bobalice");
    assert_eq!(start.delay_secs, START_DELAY_SECS);
    assert_eq!(db.games.len(), 1);
    assert_eq!(db.games[0].status, GameStatus::Init);

    let started = start_pending_game(&mut db, &start);
    assert_eq!(to_of(&started), vec!["bob", "alice"]);
    assert!(started.iter().all(|d| d.message == WSServerMessage::GameStart));
    assert_eq!(db.games[0].status, GameStatus::InProgress);
    assert!(!db.start_game("bobalice"));
}

#[test]
fn accept_with_one_side_missing_tells_the_other() {
    let mut db = db_with(&["alice"]);
    let out = accept(&mut db, "alice", "bob", 0);
    assert!(out.start.is_none());
    assert_eq!(to_of(&out.deliveries), vec!["alice"]);
    assert_eq!(out.deliveries[0].message, WSServerMessage::Error { message: MISSING.to_string() });
    let out = accept(&mut db, "bob", "alice", 0);
    assert_eq!(to_of(&out.deliveries), vec!["alice"]);
    let out = accept(&mut db, "bob", "carol", 0);
    assert!(out.deliveries.is_empty() && out.start.is_none());
    assert!(db.games.is_empty());
}

#[test]
fn new_match_replaces_the_pair_old_one() {
    let mut db = db_with(&["alice", "bob", "carol"]);
    accept(&mut db, "bob", "alice", 0);
    accept(&mut db, "carol", "alice", 0);
    accept(&mut db, "alice", "bob", 5);
    let ids: Vec<&str> = db.games.iter().map(|g| g.id.as_str()).collect();
    assert_eq!(ids, vec!["carolalice", "alicebob"]);
    assert_eq!(db.games[1].starts_at, 15);
}

#[test]
fn start_time_saturates() {
    let racers = vec![
        UserGameData { progress: 0, user_id: "a".to_string() },
        UserGameData { progress: 0, user_id: "b".to_string() },
    ];
    let game = GameData::new(racers, u64::MAX - 3);
    assert_eq!(game.starts_at, u64::MAX);
    assert_eq!(game.id, "ab");
    assert_eq!(game.prompt_text, PROMPT);
}

#[test]
fn small_early_step_is_not_broadcast() {
    let mut db = db_with(&["alice", "bob"]);
    accept(&mut db, "bob", "alice", 0);
    assert_eq!(report(&mut db, "alice", "bobalice", 48).len(), 2);
    assert!(report(&mut db, "alice", "bobalice", 50).is_empty());
    assert_eq!(db.find_game_progress("bobalice", "alice"), Ok(50));
    let out = report(&mut db, "alice", "bobalice", 95);
    assert_eq!(to_of(&out), vec!["bob", "alice"]);
    assert_eq!(out[1].message, WSServerMessage::GameUpdate { my_progress: 95, opponent_progress: 0 });
    assert_eq!(report(&mut db, "alice", "bobalice", 96).len(), 2);
}

#[test]
fn throttle_rule() {
    assert!(is_insignificant_update(48, 50));
    assert!(is_insignificant_update(0, 4));
    assert!(!is_insignificant_update(0, 5));
    assert!(!is_insignificant_update(68, 70));
    assert!(!is_insignificant_update(94, 95));
    assert!(!is_insignificant_update(0, 100));
}

#[test]
fn updates_are_relative_to_the_receiver() {
    let mut db = db_with(&["alice", "bob"]);
    accept(&mut db, "bob", "alice", 0);
    report(&mut db, "bob", "bobalice", 30);
    let out = report(&mut db, "alice", "bobalice", 75);
    assert_eq!(to_of(&out), vec!["bob", "alice"]);
    assert_eq!(out[0].message, WSServerMessage::GameUpdate { my_progress: 30, opponent_progress: 75 });
    assert_eq!(out[1].message, WSServerMessage::GameUpdate { my_progress: 75, opponent_progress: 30 });
}

#[test]
fn first_report_of_one_hundred_is_broadcast() {
    let mut db = db_with(&["alice", "bob"]);
    let start = accept(&mut db, "bob", "alice", 0).start.unwrap();
    start_pending_game(&mut db, &start);
    let out = report(&mut db, "alice", &start.game_id, 100);
    assert_eq!(to_of(&out), vec!["bob", "alice"]);
    assert_eq!(out[0].message, WSServerMessage::GameUpdate { my_progress: 0, opponent_progress: 100 });
    assert_eq!(out[1].message, WSServerMessage::GameUpdate { my_progress: 100, opponent_progress: 0 });
    assert_eq!(db.games[0].status, GameStatus::Finished);
}

#[test]
fn invalid_reports_are_refused() {
    let mut db = db_with(&["alice", "bob", "carol"]);
    accept(&mut db, "bob", "alice", 0);
    report(&mut db, "alice", "bobalice", 40);
    let notice = |text: &str| WSServerMessage::Error { message: text.to_string() };
    let out = report(&mut db, "alice", "nogame", 10);
    assert_eq!(to_of(&out), vec!["alice"]);
    assert_eq!(out[0].message, notice("The game cannot be found"));
    let out = report(&mut db, "carol", "bobalice", 10);
    assert_eq!(out[0].message, notice("You are not a player of this game"));
    let out = report(&mut db, "alice", "bobalice", 101);
    assert_eq!(out[0].message, notice("Progress cannot exceed one hundred per cent"));
    let out = report(&mut db, "alice", "bobalice", 39);
    assert_eq!(out[0].message, notice("Progress cannot go back"));
    assert_eq!(db.find_game_progress("bobalice", "alice"), Ok(40));
    assert_eq!(db.find_game_progress("bobalice", "carol"), Err(StoreError::PlayerNotInGame));
    assert_eq!(db.update_game_progress("x", "alice", 1), Err(StoreError::GameNotFound));
    assert_eq!(db.broadcase_game_status("x").err(), Some(StoreError::GameNotFound));
}

#[test]
fn routing_drops_messages_for_departed_users() {
    let mut db = db_with(&["alice", "bob"]);
    let routed = db.send_message_to_user("bob", WSServerMessage::GameStart);
    assert_eq!(routed.map(|(s, m)| (*s, m)), Some((1, WSServerMessage::GameStart)));
    db.delete_user_connection("bob");
    assert!(db.send_message_to_user("bob", WSServerMessage::GameStart).is_none());
}

#[test]
fn display_name_joins_two_names() {
    assert_eq!(generate_name("Ael", "Thorn"), "Ael Thorn");
    assert_eq!(generate_name("", ""), " ");
}
