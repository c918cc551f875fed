//! How the server answers a client: each function takes the state and an event
//! and hands back the deliveries that follow, as values. The server puts them on
//! the users' channels, and runs the deferred start of a match when its delay
//! has passed.
use crate::models::{ServerMessageView, WSClientMessage, WSServerMessage};
use crate::server_utils::fast_storage::{
    game_inserted, is_progress_broadcast, removal_of, is_roster_broadcast, progress_stored, race_prompt,
    start_recorded, start_time, BlazinglyFastDb, Delivery, GameData, StoreError, UserConnection,
    UserGameData,
};
use vstd::prelude::*;

verus! {

/// The notice for a user who cannot be found.
pub open spec fn user_missing_text() -> Seq<char> {
    "Requested user cannot be found or is disconnected"@
}

/// The notice for an operation that the store refused.
pub open spec fn store_error_text(e: StoreError) -> Seq<char> {
    match e {
        StoreError::UserExists => "A user with this id is connected already"@,
        StoreError::GameNotFound => "The game cannot be found"@,
        StoreError::PlayerNotInGame => "You are not a player of this game"@,
        StoreError::ProgressOutOfRange => "Progress cannot exceed one hundred per cent"@,
        StoreError::ProgressDecrease => "Progress cannot go back"@,
    }
}

pub fn user_missing_notice() -> (r: WSServerMessage)
    ensures
        r@ == (ServerMessageView::Error { message: user_missing_text() }),
{
    WSServerMessage::Error {
        message: String::from_str("Requested user cannot be found or is disconnected"),
    }
}

pub fn store_error_notice(e: StoreError) -> (r: WSServerMessage)
    ensures
        r@ == (ServerMessageView::Error { message: store_error_text(e) }),
{
    let message = match e {
        StoreError::UserExists => String::from_str("A user with this id is connected already"),
        StoreError::GameNotFound => String::from_str("The game cannot be found"),
        StoreError::PlayerNotInGame => String::from_str("You are not a player of this game"),
        StoreError::ProgressOutOfRange => String::from_str(
            "Progress cannot exceed one hundred per cent",
        ),
        StoreError::ProgressDecrease => String::from_str("Progress cannot go back"),
    };
    WSServerMessage::Error { message }
}

/// A progress report too small to be worth a broadcast: below seventy per
/// cent, and less than five points above the previous one.
pub open spec fn insignificant(previous: int, progress: int) -> bool {
    progress < 70 && progress - previous < 5
}

pub fn is_insignificant_update(previous: u16, progress: u16) -> (r: bool)
    ensures
        r == insignificant(previous as int, progress as int),
{
    progress < 70 && (progress as u32) < (previous as u32) + 5
}

/// The start of a match, due `delay_secs` seconds after its acceptance.
pub struct PendingStart {
    pub game_id: String,
    pub first_user_id: String,
    pub second_user_id: String,
    pub delay_secs: u64,
}

/// What handling a client message gives: the deliveries, in order, and the
/// start of a match to run later, if one was created.
pub struct HandlerOutcome {
    pub deliveries: Vec<Delivery>,
    pub start: Option<PendingStart>,
}

/// The delivery carries this message for this user.
pub open spec fn delivery_is(d: Delivery, to: Seq<char>, m: ServerMessageView) -> bool {
    d.to@ == to && d.message@ == m
}

/// The registry and the store are as they were.
pub open spec fn unchanged<S>(old: BlazinglyFastDb<S>, new: BlazinglyFastDb<S>) -> bool {
    new.users@ == old.users@ && new.games@ == old.games@
}

/// The deliveries for a challenge of `to` by `current`. A challenge goes to
/// its target; where one side is missing the other side is told; where both
/// are, nobody.
pub open spec fn challenge_handled<S>(
    db: BlazinglyFastDb<S>,
    current: Seq<char>,
    to: Seq<char>,
    out: Seq<Delivery>,
) -> bool {
    if db.has_user(to) && db.has_user(current) {
        out.len() == 1 && delivery_is(
            out[0],
            to,
            ServerMessageView::RequestForChallenge { from_user: db.users@[db.user_pos(current)].data@ },
        )
    } else if db.has_user(to) {
        out.len() == 1 && delivery_is(out[0], to, ServerMessageView::Error { message: user_missing_text() })
    } else if db.has_user(current) {
        out.len() == 1 && delivery_is(
            out[0],
            current,
            ServerMessageView::Error { message: user_missing_text() },
        )
    } else {
        out.len() == 0
    }
}

/// The match that `second` accepts against `first` at `now`: racers in this
/// order, both at zero, waiting for its start.
pub open spec fn is_new_match(g: GameData, first: Seq<char>, second: Seq<char>, now: u64) -> bool {
    &&& g.wf()
    &&& g.id@ == first + second
    &&& g.player(0) == first
    &&& g.player(1) == second
    &&& g.progress_at(0) == 0
    &&& g.progress_at(1) == 0
    &&& g.status == crate::models::GameStatus::Init
    &&& g.prompt_text@ == race_prompt()
    &&& g.starts_at == start_time(now)
}

/// The `GameInit` of that match.
pub open spec fn game_init_view(first: Seq<char>, second: Seq<char>, now: u64) -> ServerMessageView {
    ServerMessageView::GameInit {
        game_id: first + second,
        prompt_text: race_prompt(),
        starts_at: start_time(now),
    }
}

/// What accepting the challenge of `opponent` does. With both users present,
/// a match is stored, both get its `GameInit` (the accepting user first) and
/// its start is scheduled; else the present one, if any, is told.
pub open spec fn accept_handled<S>(
    old: BlazinglyFastDb<S>,
    new: BlazinglyFastDb<S>,
    current: Seq<char>,
    opponent: Seq<char>,
    now: u64,
    r: HandlerOutcome,
) -> bool {
    if old.has_user(current) && old.has_user(opponent) {
        &&& new.users@ == old.users@
        &&& game_inserted(old.games@, new.games@, new.games@.last())
        &&& is_new_match(new.games@.last(), current, opponent, now)
        &&& r.deliveries@.len() == 2
        &&& delivery_is(r.deliveries@[0], current, game_init_view(current, opponent, now))
        &&& delivery_is(r.deliveries@[1], opponent, game_init_view(current, opponent, now))
        &&& match r.start {
            Some(p) => {
                &&& p.game_id@ == current + opponent
                &&& p.first_user_id@ == current
                &&& p.second_user_id@ == opponent
                &&& p.delay_secs == start_time(now) - now
            },
            None => false,
        }
    } else {
        &&& unchanged(old, new)
        &&& r.start is None
        &&& if old.has_user(current) {
            r.deliveries@.len() == 1 && delivery_is(
                r.deliveries@[0],
                current,
                ServerMessageView::Error { message: user_missing_text() },
            )
        } else if old.has_user(opponent) {
            r.deliveries@.len() == 1 && delivery_is(
                r.deliveries@[0],
                opponent,
                ServerMessageView::Error { message: user_missing_text() },
            )
        } else {
            r.deliveries@.len() == 0
        }
    }
}

/// The single notice to `to` that the store refused with `e`.
pub open spec fn refused_with(out: Seq<Delivery>, to: Seq<char>, e: StoreError) -> bool {
    out.len() == 1 && delivery_is(out[0], to, ServerMessageView::Error { message: store_error_text(e) })
}

/// What a progress report of `current` does. The store records it where it
/// is valid, and both racers get a `GameUpdate` unless it is insignificant;
/// an invalid report changes nothing and its sender is told why.
pub open spec fn update_handled<S>(
    old: BlazinglyFastDb<S>,
    new: BlazinglyFastDb<S>,
    current: Seq<char>,
    game_id: Seq<char>,
    progress: u16,
    out: Seq<Delivery>,
) -> bool {
    match old.stored_progress(game_id, current) {
        None => unchanged(old, new) && refused_with(
            out,
            current,
            if old.has_game(game_id) {
                StoreError::PlayerNotInGame
            } else {
                StoreError::GameNotFound
            },
        ),
        Some(previous) => if progress > 100 {
            unchanged(old, new) && refused_with(out, current, StoreError::ProgressOutOfRange)
        } else if progress < previous {
            unchanged(old, new) && refused_with(out, current, StoreError::ProgressDecrease)
        } else {
            &&& progress_stored(old, new, game_id, current, progress)
            &&& if insignificant(previous as int, progress as int) {
                out.len() == 0
            } else {
                is_progress_broadcast(new.game(game_id), out)
            }
        },
    }
}

fn one_delivery(to: String, message: WSServerMessage) -> (r: Vec<Delivery>)
    ensures
        r@.len() == 1,
        r@[0].to == to,
        r@[0].message == message,
{
    let mut out: Vec<Delivery> = Vec::new();
    out.push(Delivery { to, message });
    out
}

/// Answers `Challenge { to_user_id }` from the user `current_user_id`.
pub fn handle_challenge<S>(db: &BlazinglyFastDb<S>, current_user_id: &str, to_user_id: String) -> (r: Vec<Delivery>)
    requires
        db.wf(),
    ensures
        challenge_handled(*db, current_user_id@, to_user_id@, r@),
{
    let target_present = db.get_user_connection_by_id(to_user_id.as_str()).is_some();
    match db.get_user_by_id(current_user_id) {
        Some(user_details) => {
            if target_present {
                one_delivery(to_user_id, WSServerMessage::RequestForChallenge { from_user: user_details })
            } else {
                one_delivery(current_user_id.to_owned(), user_missing_notice())
            }
        },
        None => {
            if target_present {
                one_delivery(to_user_id, user_missing_notice())
            } else {
                Vec::new()
            }
        },
    }
}

/// Answers `AcceptChallenge { opponent_user_id }` from `current_user_id`, at
/// `now` (Unix time, in seconds).
pub fn handle_accept_challenge<S>(
    db: &mut BlazinglyFastDb<S>,
    current_user_id: &str,
    opponent_user_id: String,
    now: u64,
) -> (r: HandlerOutcome)
    requires
        old(db).wf(),
    ensures
        final(db).wf(),
        accept_handled(*old(db), *final(db), current_user_id@, opponent_user_id@, now, r),
{
    let current = db.get_user_connection_by_id(current_user_id);
    let opponent = db.get_user_connection_by_id(opponent_user_id.as_str());
    match (current, opponent) {
        (Some(user1), Some(user2)) => {
            let mut racers: Vec<UserGameData> = Vec::new();
            racers.push(UserGameData::new(user1));
            racers.push(UserGameData::new(user2));
            let game_data = GameData::new(racers, now);
            let game_id = game_data.id.clone();
            let prompt_text = game_data.prompt_text.clone();
            let starts_at: u64 = game_data.starts_at;
            let first_user_id = user1.data.id.clone();
            db.insert_game(game_data);
            let mut deliveries: Vec<Delivery> = Vec::new();
            deliveries.push(
                Delivery {
                    to: first_user_id.clone(),
                    message: WSServerMessage::GameInit {
                        game_id: game_id.clone(),
                        prompt_text: prompt_text.clone(),
                        starts_at,
                    },
                },
            );
            deliveries.push(
                Delivery {
                    to: opponent_user_id.clone(),
                    message: WSServerMessage::GameInit { game_id: game_id.clone(), prompt_text, starts_at },
                },
            );
            let start = PendingStart {
                game_id,
                first_user_id,
                second_user_id: opponent_user_id,
                delay_secs: starts_at - now,
            };
            HandlerOutcome { deliveries, start: Some(start) }
        },
        (Some(_), None) => HandlerOutcome {
            deliveries: one_delivery(current_user_id.to_owned(), user_missing_notice()),
            start: None,
        },
        (None, Some(_)) => HandlerOutcome {
            deliveries: one_delivery(opponent_user_id, user_missing_notice()),
            start: None,
        },
        (None, None) => HandlerOutcome { deliveries: Vec::new(), start: None },
    }
}

/// Answers `UpdateProgress { game_id, progress }` from `current_user_id`.
pub fn handle_update_progress<S>(
    db: &mut BlazinglyFastDb<S>,
    current_user_id: &str,
    game_id: String,
    progress: u16,
) -> (r: Vec<Delivery>)
    requires
        old(db).wf(),
    ensures
        final(db).wf(),
        update_handled(*old(db), *final(db), current_user_id@, game_id@, progress, r@),
{
    let previous: u16 = match db.find_game_progress(game_id.as_str(), current_user_id) {
        Ok(p) => p,
        Err(e) => {
            return one_delivery(current_user_id.to_owned(), store_error_notice(e));
        },
    };
    match db.update_game_progress(game_id.as_str(), current_user_id, progress) {
        Ok(()) => {},
        Err(e) => {
            return one_delivery(current_user_id.to_owned(), store_error_notice(e));
        },
    }
    if is_insignificant_update(previous, progress) {
        Vec::new()
    } else {
        proof {
            let pos = old(db).game_pos(game_id@);
            assert(db.game_id_at(pos) == old(db).game_id_at(pos));
            db.lemma_game_pos(game_id@, pos);
        }
        match db.broadcase_game_status(game_id.as_str()) {
            Ok(out) => out,
            Err(_) => Vec::new(),
        }
    }
}

/// Answers one message of the user `current_user_id`, received at `now` (Unix
/// time, in seconds).
pub fn handle_client_messages<S>(
    db: &mut BlazinglyFastDb<S>,
    current_user_id: &str,
    message: WSClientMessage,
    now: u64,
) -> (r: HandlerOutcome)
    requires
        old(db).wf(),
    ensures
        final(db).wf(),
        match message {
            WSClientMessage::Challenge { to_user_id } => {
                &&& unchanged(*old(db), *final(db))
                &&& r.start is None
                &&& challenge_handled(*old(db), current_user_id@, to_user_id@, r.deliveries@)
            },
            WSClientMessage::AcceptChallenge { opponent_user_id } => accept_handled(
                *old(db),
                *final(db),
                current_user_id@,
                opponent_user_id@,
                now,
                r,
            ),
            WSClientMessage::UpdateProgress { game_id, progress } => {
                &&& r.start is None
                &&& update_handled(*old(db), *final(db), current_user_id@, game_id@, progress, r.deliveries@)
            },
        },
{
    match message {
        WSClientMessage::Challenge { to_user_id } => HandlerOutcome {
            deliveries: handle_challenge(db, current_user_id, to_user_id),
            start: None,
        },
        WSClientMessage::AcceptChallenge { opponent_user_id } => {
            handle_accept_challenge(db, current_user_id, opponent_user_id, now)
        },
        WSClientMessage::UpdateProgress { game_id, progress } => HandlerOutcome {
            deliveries: handle_update_progress(db, current_user_id, game_id, progress),
            start: None,
        },
    }
}

/// Runs the start of a match once its delay has passed: the match, if still
/// waiting, is in progress from now on, and both racers get a `GameStart`.
pub fn start_pending_game<S>(db: &mut BlazinglyFastDb<S>, start: &PendingStart) -> (r: Vec<Delivery>)
    requires
        old(db).wf(),
    ensures
        final(db).wf(),
        final(db).users@ == old(db).users@,
        start_recorded(
            old(db).games@,
            final(db).games@,
            old(db).has_game(start.game_id@) && old(db).game(start.game_id@).status
                == crate::models::GameStatus::Init,
            old(db).game_pos(start.game_id@),
        ),
        r@.len() == 2,
        delivery_is(r@[0], start.first_user_id@, ServerMessageView::GameStart),
        delivery_is(r@[1], start.second_user_id@, ServerMessageView::GameStart),
{
    db.start_game(start.game_id.as_str());
    let mut out: Vec<Delivery> = Vec::new();
    out.push(Delivery { to: start.first_user_id.clone(), message: WSServerMessage::GameStart });
    out.push(Delivery { to: start.second_user_id.clone(), message: WSServerMessage::GameStart });
    out
}

/// Registers a new connection: its user is told the identity it got, then
/// every registered user, the new one included, gets the roster. Fails, and
/// changes nothing, where the id is taken.
pub fn connect_user<S>(db: &mut BlazinglyFastDb<S>, connection: UserConnection<S>) -> (r: Result<Vec<Delivery>, StoreError>)
    requires
        old(db).wf(),
    ensures
        final(db).wf(),
        final(db).games@ == old(db).games@,
        r is Err <==> old(db).has_user(connection.data.id@),
        r is Err ==> r == Err::<Vec<Delivery>, StoreError>(StoreError::UserExists) && final(db).users@
            == old(db).users@,
        r matches Ok(out) ==> {
            &&& final(db).users@ == old(db).users@.push(connection)
            &&& out@.len() > 0
            &&& delivery_is(
                out@[0],
                connection.data.id@,
                ServerMessageView::SuccessfulConnection { user: connection.data@ },
            )
            &&& is_roster_broadcast(final(db).users@, out@.drop_first())
        },
{
    let id = connection.data.id.clone();
    let welcome = WSServerMessage::SuccessfulConnection { user: connection.data.copy() };
    match db.insert_new_user_connection(connection) {
        Err(e) => Err(e),
        Ok(()) => {
            let mut out = one_delivery(id, welcome);
            let mut roster = db.boradcast_status();
            let ghost broadcast = roster@;
            out.append(&mut roster);
            assert(out@.drop_first() =~= broadcast);
            Ok(out)
        },
    }
}

/// Removes a connection that ended; the users who stay get the new roster.
pub fn disconnect_user<S>(db: &mut BlazinglyFastDb<S>, user_id: &str) -> (r: Vec<Delivery>)
    requires
        old(db).wf(),
    ensures
        final(db).wf(),
        final(db).games@ == old(db).games@,
        removal_of(*old(db), *final(db), user_id@),
        is_roster_broadcast(final(db).users@, r@),
{
    db.delete_user_connection(user_id);
    db.boradcast_status()
}

} // verus!
