//! The server's in-memory state: the registry of connected users and the store
//! of matches. Both are plain values here; the server holds them behind a lock
//! and performs the deliveries that these functions hand back.
use crate::models::{copy_users, users_view, GameStatus, ServerMessageView, User, WSServerMessage};
use vstd::prelude::*;

verus! {

/// Seconds between the acceptance of a challenge and the start of the match.
pub const START_DELAY_SECS: u64 = 10;

/// A connected user: the public profile and the handle of the outbound channel.
pub struct UserConnection<S> {
    pub sender: S,
    pub data: User,
}

impl<S> UserConnection<S> {
    pub fn new(user: User, sender: S) -> (r: Self)
        ensures
            r.data == user,
            r.sender == sender,
    {
        UserConnection { sender, data: user }
    }
}

/// A message for one user, to be put on that user's outbound channel.
pub struct Delivery {
    pub to: String,
    pub message: WSServerMessage,
}

/// Why an operation on the store did not take place.
#[derive(Clone, Copy, Debug, PartialEq, Eq, Structural)]
pub enum StoreError {
    /// A user with this id is registered already.
    UserExists,
    /// No match has this id.
    GameNotFound,
    /// The user takes no part in the match.
    PlayerNotInGame,
    /// A progress above one hundred per cent.
    ProgressOutOfRange,
    /// A progress below the one stored for the racer.
    ProgressDecrease,
}

/// The registry of connected users and the store of matches.
pub struct BlazinglyFastDb<S> {
    pub users: Vec<UserConnection<S>>,
    pub games: Vec<GameData>,
}

/// One racer of a match.
pub struct UserGameData {
    pub progress: u16,
    pub user_id: String,
}

/// A match between two users.
pub struct GameData {
    pub id: String,
    pub users: Vec<UserGameData>,
    pub status: GameStatus,
    pub prompt_text: String,
    pub starts_at: u64,
}


impl GameData {
    /// A match has exactly two racers.
    pub open spec fn wf(&self) -> bool {
        self.users@.len() == 2
    }

    /// The id of the racer in this seat (0 or 1).
    pub open spec fn player(&self, seat: int) -> Seq<char> {
        self.users@[seat].user_id@
    }

    pub open spec fn progress_at(&self, seat: int) -> u16 {
        self.users@[seat].progress
    }

    /// The first seat that this user takes in the match, or -1.
    pub open spec fn seat_of(&self, user_id: Seq<char>) -> int {
        if self.player(0) == user_id {
            0
        } else if self.player(1) == user_id {
            1
        } else {
            -1
        }
    }
}

/// The two matches are between the same two users, in either order.
pub open spec fn same_pair(g: GameData, h: GameData) -> bool {
    ||| g.player(0) == h.player(0) && g.player(1) == h.player(1)
    ||| g.player(0) == h.player(1) && g.player(1) == h.player(0)
}

/// The two matches cannot both be stored: they share an id or a pair of users.
pub open spec fn clashes(g: GameData, h: GameData) -> bool {
    g.id@ == h.id@ || same_pair(g, h)
}

/// The new match is the old one with the racer in `seat` at `progress`; a
/// racer at one hundred per cent finishes the match.
pub open spec fn progress_recorded(o: GameData, n: GameData, seat: int, progress: u16) -> bool {
    &&& n.id == o.id
    &&& n.prompt_text == o.prompt_text
    &&& n.starts_at == o.starts_at
    &&& n.status == (if progress == 100 { GameStatus::Finished } else { o.status })
    &&& n.users@ == o.users@.update(
        seat,
        UserGameData { progress, user_id: o.users@[seat].user_id },
    )
}

/// No two of the connections share a user id.
pub open spec fn unique_user_ids<S>(users: Seq<UserConnection<S>>) -> bool {
    forall|i: int, j: int|
        0 <= i < users.len() && 0 <= j < users.len() && i != j ==> #[trigger] users[i].data.id@
            != #[trigger] users[j].data.id@
}

/// Every match has two racers, and no two of the matches clash.
pub open spec fn compatible_games(games: Seq<GameData>) -> bool {
    &&& forall|i: int| 0 <= i < games.len() ==> #[trigger] games[i].wf()
    &&& forall|i: int, j: int|
        0 <= i < games.len() && 0 <= j < games.len() && i != j ==> !clashes(
            #[trigger] games[i],
            #[trigger] games[j],
        )
}

fn clashes_exec(g: &GameData, h: &GameData) -> (r: bool)
    requires
        g.wf(),
        h.wf(),
    ensures
        r == clashes(*g, *h),
{
    g.id == h.id || (g.users[0].user_id == h.users[0].user_id && g.users[1].user_id
        == h.users[1].user_id) || (g.users[0].user_id == h.users[1].user_id
        && g.users[1].user_id == h.users[0].user_id)
}

impl<S> BlazinglyFastDb<S> {
    pub open spec fn game_id_at(&self, i: int) -> Seq<char> {
        self.games@[i].id@
    }

    /// A match with this id is stored.
    pub open spec fn has_game(&self, id: Seq<char>) -> bool {
        exists|i: int| 0 <= i < self.games@.len() && #[trigger] self.game_id_at(i) == id
    }

    pub open spec fn game_pos(&self, id: Seq<char>) -> int {
        choose|i: int| 0 <= i < self.games@.len() && #[trigger] self.game_id_at(i) == id
    }

    /// The match stored under this id.
    pub open spec fn game(&self, id: Seq<char>) -> GameData {
        self.games@[self.game_pos(id)]
    }

    /// Every match has two racers, and no two stored matches clash.
    pub open spec fn games_wf(&self) -> bool {
        compatible_games(self.games@)
    }

    /// The progress stored for this racer of this match.
    pub open spec fn stored_progress(&self, game_id: Seq<char>, user_id: Seq<char>) -> Option<u16> {
        if self.has_game(game_id) && self.game(game_id).seat_of(user_id) >= 0 {
            Some(self.game(game_id).progress_at(self.game(game_id).seat_of(user_id)))
        } else {
            None
        }
    }

    pub proof fn lemma_game_pos(&self, id: Seq<char>, i: int)
        requires
            self.games_wf(),
            0 <= i < self.games@.len(),
            self.game_id_at(i) == id,
        ensures
            self.has_game(id),
            self.game_pos(id) == i,
    {
        let k = self.game_pos(id);
        if k != i {
            assert(clashes(self.games@[i], self.games@[k]));
        }
    }
}


/// The quote that every match is raced on.
pub open spec fn race_prompt() -> Seq<char> {
    "To wear your heart on your sleeve isn't a very good plan; you should wear it inside, where it functions best."@
}

/// When a match accepted at `now` starts: the delay later, or the last second
/// that a `u64` holds.
pub open spec fn start_time(now: u64) -> u64 {
    if now + START_DELAY_SECS <= u64::MAX {
        (now + START_DELAY_SECS) as u64
    } else {
        u64::MAX
    }
}

impl UserGameData {
    /// A racer at the start line.
    pub fn new<S>(user: &UserConnection<S>) -> (r: Self)
        ensures
            r.progress == 0,
            r.user_id == user.data.id,
    {
        UserGameData { progress: 0, user_id: user.data.id.clone() }
    }
}

impl GameData {
    /// A match between the two racers, accepted at `now` (Unix time, in
    /// seconds). Its id is the first racer's id followed by the second's.
    pub fn new(users: Vec<UserGameData>, now: u64) -> (r: Self)
        requires
            users@.len() == 2,
        ensures
            r.wf(),
            r.users@ == users@,
            r.id@ == users@[0].user_id@ + users@[1].user_id@,
            r.status == GameStatus::Init,
            r.prompt_text@ == race_prompt(),
            r.starts_at == start_time(now),
    {
        let prompt_text = String::from_str(
            "To wear your heart on your sleeve isn't a very good plan; you should wear it inside, where it functions best.",
        );
        let starts_at: u64 = now.saturating_add(START_DELAY_SECS);
        let mut id = users[0].user_id.clone();
        id.append(users[1].user_id.as_str());
        GameData { id, users, status: GameStatus::Init, prompt_text, starts_at }
    }
}

impl<S> BlazinglyFastDb<S> {
    pub open spec fn user_id_at(&self, i: int) -> Seq<char> {
        self.users@[i].data.id@
    }

    /// A user with this id is registered.
    pub open spec fn has_user(&self, id: Seq<char>) -> bool {
        exists|i: int| 0 <= i < self.users@.len() && #[trigger] self.user_id_at(i) == id
    }

    pub open spec fn user_pos(&self, id: Seq<char>) -> int {
        choose|i: int| 0 <= i < self.users@.len() && #[trigger] self.user_id_at(i) == id
    }

    /// The profile registered under this id.
    pub open spec fn lookup_user(&self, id: Seq<char>) -> Option<User> {
        if self.has_user(id) {
            Some(self.users@[self.user_pos(id)].data)
        } else {
            None
        }
    }

    /// The profiles of all registered users, in order of registration.
    pub open spec fn roster(&self) -> Seq<User> {
        profiles(self.users@)
    }

    /// No two registered users share an id.
    pub open spec fn users_wf(&self) -> bool {
        unique_user_ids(self.users@)
    }

    pub open spec fn wf(&self) -> bool {
        &&& self.users_wf()
        &&& self.games_wf()
    }

    pub proof fn lemma_user_pos(&self, id: Seq<char>, i: int)
        requires
            self.users_wf(),
            0 <= i < self.users@.len(),
            self.user_id_at(i) == id,
        ensures
            self.has_user(id),
            self.user_pos(id) == i,
            self.lookup_user(id) == Some(self.users@[i].data),
    {
    }

    /// An empty registry and an empty store.
    pub fn new() -> (r: Self)
        ensures
            r.wf(),
            r.users@.len() == 0,
            r.games@.len() == 0,
    {
        BlazinglyFastDb { users: Vec::new(), games: Vec::new() }
    }

    fn find_user(&self, user_id: &str) -> (r: Option<usize>)
        requires
            self.users_wf(),
        ensures
            match r {
                Some(i) => i < self.users@.len() && self.user_id_at(i as int) == user_id@
                    && self.user_pos(user_id@) == i,
                None => !self.has_user(user_id@),
            },
    {
        let key = user_id.to_owned();
        let mut i: usize = 0;
        while i < self.users.len()
            invariant
                i <= self.users@.len(),
                self.users_wf(),
                key@ == user_id@,
                forall|j: int| 0 <= j < i ==> #[trigger] self.user_id_at(j) != user_id@,
            decreases self.users@.len() - i,
        {
            if self.users[i].data.id == key {
                proof {
                    self.lemma_user_pos(user_id@, i as int);
                }
                return Some(i);
            }
            i = i + 1;
        }
        None
    }

    /// Registers a connection under its user's id; fails, and changes nothing,
    /// where that id is registered already.
    pub fn insert_new_user_connection(&mut self, user_connection: UserConnection<S>) -> (r: Result<(), StoreError>)
        requires
            old(self).wf(),
        ensures
            final(self).wf(),
            final(self).games@ == old(self).games@,
            r is Ok <==> !old(self).has_user(user_connection.data.id@),
            r is Err ==> r == Err::<(), StoreError>(StoreError::UserExists) && final(self).users@ == old(self).users@,
            r is Ok ==> final(self).users@ == old(self).users@.push(user_connection),
    {
        match self.find_user(user_connection.data.id.as_str()) {
            Some(_) => Err(StoreError::UserExists),
            None => {
                self.users.push(user_connection);
                proof {
                    let o = old(self).users@;
                    assert forall|i: int, j: int|
                        0 <= i < self.users@.len() && 0 <= j < self.users@.len() && i != j implies
                        #[trigger] self.users@[i].data.id@ != #[trigger] self.users@[j].data.id@ by {
                        if i < o.len() && j < o.len() {
                            assert(self.users@[i] == o[i]);
                            assert(self.users@[j] == o[j]);
                        } else if i < o.len() {
                            assert(old(self).user_id_at(i) == o[i].data.id@);
                        } else {
                            assert(old(self).user_id_at(j) == o[j].data.id@);
                        }
                    }
                }
                Ok(())
            },
        }
    }

    /// The profile registered under this id, if any.
    pub fn get_user_by_id(&self, user_id: &str) -> (r: Option<User>)
        requires
            self.users_wf(),
        ensures
            r == self.lookup_user(user_id@),
    {
        match self.find_user(user_id) {
            Some(i) => Some(self.users[i].data.copy()),
            None => None,
        }
    }

    /// The connection registered under this id, if any.
    pub fn get_user_connection_by_id(&self, user_id: &str) -> (r: Option<&UserConnection<S>>)
        requires
            self.users_wf(),
        ensures
            r is Some <==> self.has_user(user_id@),
            r matches Some(c) ==> *c == self.users@[self.user_pos(user_id@)],
    {
        match self.find_user(user_id) {
            Some(i) => Some(&self.users[i]),
            None => None,
        }
    }

    /// The profiles of all registered users, in order of registration.
    pub fn snapshot(&self) -> (r: Vec<User>)
        ensures
            r@ == self.roster(),
    {
        let mut roster: Vec<User> = Vec::new();
        let mut i: usize = 0;
        while i < self.users.len()
            invariant
                i <= self.users@.len(),
                roster@ == self.roster().subrange(0, i as int),
            decreases self.users@.len() - i,
        {
            roster.push(self.users[i].data.copy());
            i = i + 1;
            assert(roster@ =~= self.roster().subrange(0, i as int));
        }
        assert(roster@ =~= self.roster());
        roster
    }

    /// A `UserStatus` with the whole roster, for every registered user, the
    /// one that caused the broadcast included.
    pub fn boradcast_status(&self) -> (r: Vec<Delivery>)
        ensures
            is_roster_broadcast(self.users@, r@),
    {
        let roster = self.snapshot();
        let mut out: Vec<Delivery> = Vec::new();
        let mut j: usize = 0;
        while j < self.users.len()
            invariant
                j <= self.users@.len(),
                roster@ == self.roster(),
                out@.len() == j,
                forall|k: int|
                    0 <= k < j ==> is_roster_delivery(#[trigger] out@[k], self.users@[k].data.id@, self.users@),
            decreases self.users@.len() - j,
        {
            out.push(
                Delivery {
                    to: self.users[j].data.id.clone(),
                    message: WSServerMessage::UserStatus { connected_users: copy_users(&roster) },
                },
            );
            j = j + 1;
        }
        out
    }

    /// Where the message for this user goes: the user's channel, if the user
    /// is registered. A message for a user who left is dropped.
    pub fn send_message_to_user(&self, user_id: &str, message: WSServerMessage) -> (r: Option<(&S, WSServerMessage)>)
        requires
            self.users_wf(),
        ensures
            r is Some <==> self.has_user(user_id@),
            r matches Some((s, m)) ==> *s == self.users@[self.user_pos(user_id@)].sender && m == message,
    {
        match self.find_user(user_id) {
            Some(i) => Some((&self.users[i].sender, message)),
            None => None,
        }
    }

    /// Removes the user with this id, if registered; the other users stay.
    pub fn delete_user_connection(&mut self, user_id: &str)
        requires
            old(self).wf(),
        ensures
            final(self).wf(),
            final(self).games@ == old(self).games@,
            removal_of(*old(self), *final(self), user_id@),
            old(self).has_user(user_id@) ==> final(self).users@ == old(self).users@.remove(old(self).user_pos(user_id@)),
            !old(self).has_user(user_id@) ==> final(self).users@ == old(self).users@,
    {
        match self.find_user(user_id) {
            Some(i) => {
                self.users.remove(i);
                proof {
                    let o = *old(self);
                    assert forall|j: int| 0 <= j < self.users@.len() implies
                        #[trigger] self.user_id_at(j) == o.user_id_at(if j < i { j } else { j + 1 }) by {}
                    assert forall|id: Seq<char>| id != user_id@ implies
                        #[trigger] self.lookup_user(id) == o.lookup_user(id) by {
                        if o.has_user(id) {
                            let k = o.user_pos(id);
                            assert(k != i);
                            let k2 = if k < i { k } else { k - 1 };
                            assert(self.user_id_at(k2) == id);
                            self.lemma_user_pos(id, k2);
                        } else {
                            if self.has_user(id) {
                                let k2 = self.user_pos(id);
                                let k = if k2 < i { k2 } else { k2 + 1 };
                                assert(o.user_id_at(k) == id);
                            }
                        }
                    }
                    if self.has_user(user_id@) {
                        let k2 = self.user_pos(user_id@);
                        let k = if k2 < i { k2 } else { k2 + 1 };
                        assert(o.user_id_at(k) == user_id@);
                    }
                }
            },
            None => {},
        }
    }
}

/// `new` holds `game`, last, and the matches of `old` that do not clash with it.
pub open spec fn game_inserted(old: Seq<GameData>, new: Seq<GameData>, game: GameData) -> bool {
    &&& new.len() > 0
    &&& new.last() == game
    &&& forall|g: GameData|
        #[trigger] new.contains(g) <==> (g == game || (old.contains(g) && !clashes(g, game)))
}

/// `new` is `old` with the progress of this racer of this match recorded; the
/// other matches and the registry are unchanged.
pub open spec fn progress_stored<S>(
    old: BlazinglyFastDb<S>,
    new: BlazinglyFastDb<S>,
    game_id: Seq<char>,
    user_id: Seq<char>,
    progress: u16,
) -> bool {
    let pos = old.game_pos(game_id);
    &&& new.users@ == old.users@
    &&& new.games@.len() == old.games@.len()
    &&& forall|j: int|
        0 <= j < old.games@.len() && j != pos ==> #[trigger] new.games@[j] == old.games@[j]
    &&& progress_recorded(old.games@[pos], new.games@[pos], old.game(game_id).seat_of(user_id), progress)
}

/// Where `started`, `new` is `old` with the match at `pos` in progress;
/// else `new` is `old`.
pub open spec fn start_recorded(old: Seq<GameData>, new: Seq<GameData>, started: bool, pos: int) -> bool {
    if started {
        let (o, n) = (old[pos], new[pos]);
        &&& new.len() == old.len()
        &&& forall|j: int| 0 <= j < old.len() && j != pos ==> #[trigger] new[j] == old[j]
        &&& n.status == GameStatus::InProgress
        &&& n.id == o.id && n.users == o.users && n.prompt_text == o.prompt_text
        &&& n.starts_at == o.starts_at
    } else {
        new == old
    }
}

/// `new` is `old` without the user `id`: that id is not found any more, and
/// every other id finds what it found before.
pub open spec fn removal_of<S>(old: BlazinglyFastDb<S>, new: BlazinglyFastDb<S>, id: Seq<char>) -> bool {
    &&& !new.has_user(id)
    &&& forall|k: Seq<char>| k != id ==> #[trigger] new.lookup_user(k) == old.lookup_user(k)
}

/// The profiles of the connections, in order.
pub open spec fn profiles<S>(users: Seq<UserConnection<S>>) -> Seq<User> {
    users.map_values(|c: UserConnection<S>| c.data)
}

/// The delivery is a `UserStatus` with all the profiles, for the user `to`.
pub open spec fn is_roster_delivery<S>(d: Delivery, to: Seq<char>, users: Seq<UserConnection<S>>) -> bool {
    &&& d.to@ == to
    &&& d.message@ == ServerMessageView::UserStatus { connected_users: users_view(profiles(users)) }
}

/// `out` holds one roster delivery for each connection, in order.
pub open spec fn is_roster_broadcast<S>(users: Seq<UserConnection<S>>, out: Seq<Delivery>) -> bool {
    &&& out.len() == users.len()
    &&& forall|k: int|
        0 <= k < out.len() ==> is_roster_delivery(#[trigger] out[k], users[k].data.id@, users)
}

impl<S> Default for BlazinglyFastDb<S> {
    fn default() -> (r: Self)
        ensures
            r.wf(),
            r.users@.len() == 0,
            r.games@.len() == 0,
    {
        Self::new()
    }
}

/// `out` is a `GameUpdate` for each racer of the match, in seat order, with
/// the receiver's own progress first.
pub open spec fn is_progress_broadcast(game: GameData, out: Seq<Delivery>) -> bool {
    &&& out.len() == 2
    &&& forall|k: int|
        0 <= k < 2 ==> {
            &&& (#[trigger] out[k]).to@ == game.player(k)
            &&& out[k].message@ == ServerMessageView::GameUpdate {
                my_progress: game.progress_at(k),
                opponent_progress: game.progress_at(1 - k),
            }
        }
}

impl<S> BlazinglyFastDb<S> {
    fn find_game(&self, game_id: &str) -> (r: Option<usize>)
        requires
            self.games_wf(),
        ensures
            match r {
                Some(i) => i < self.games@.len() && self.game_id_at(i as int) == game_id@
                    && self.game_pos(game_id@) == i && self.has_game(game_id@),
                None => !self.has_game(game_id@),
            },
    {
        let key = game_id.to_owned();
        let mut i: usize = 0;
        while i < self.games.len()
            invariant
                i <= self.games@.len(),
                self.games_wf(),
                key@ == game_id@,
                forall|j: int| 0 <= j < i ==> #[trigger] self.game_id_at(j) != game_id@,
            decreases self.games@.len() - i,
        {
            if self.games[i].id == key {
                proof {
                    self.lemma_game_pos(game_id@, i as int);
                }
                return Some(i);
            }
            i = i + 1;
        }
        None
    }

    /// Stores a match. Every stored match that clashes with it (same id, or
    /// same two users) is dropped first, so a pair has one match at a time.
    pub fn insert_game(&mut self, game: GameData)
        requires
            old(self).wf(),
            game.wf(),
        ensures
            final(self).wf(),
            final(self).users@ == old(self).users@,
            game_inserted(old(self).games@, final(self).games@, game),
    {
        let ghost o = old(self).games@;
        let ghost mut k: int = 0;
        let mut i: usize = 0;
        while i < self.games.len()
            invariant
                self.users@ == old(self).users@,
                game.wf(),
                self.games_wf(),
                0 <= i <= self.games@.len(),
                0 <= k <= o.len(),
                self.games@.len() - i == o.len() - k,
                forall|j: int| i <= j < self.games@.len() ==> #[trigger] self.games@[j] == o[k + j - i],
                forall|j: int| 0 <= j < i ==> !clashes(#[trigger] self.games@[j], game),
                forall|g: GameData| #[trigger] self.games@.contains(g) ==> o.contains(g),
                forall|j: int|
                    0 <= j < k && !clashes(#[trigger] o[j], game) ==> self.games@.subrange(
                        0,
                        i as int,
                    ).contains(o[j]),
            decreases self.games@.len() - i,
        {
            let ghost before = self.games@;
            if clashes_exec(&self.games[i], &game) {
                self.games.remove(i);
                proof {
                    assert forall|g: GameData| #[trigger] self.games@.contains(g) implies o.contains(g) by {
                        let j = choose|j: int| 0 <= j < self.games@.len() && self.games@[j] == g;
                        let j1 = if j < i { j } else { j + 1 };
                        assert(before[j1] == g);
                        assert(before.contains(g));
                    }
                    assert(self.games@.subrange(0, i as int) =~= before.subrange(0, i as int));
                    assert forall|a: int, b: int|
                        0 <= a < self.games@.len() && 0 <= b < self.games@.len() && a != b implies !clashes(
                        #[trigger] self.games@[a],
                        #[trigger] self.games@[b],
                    ) by {
                        let a1 = if a < i { a } else { a + 1 };
                        let b1 = if b < i { b } else { b + 1 };
                        assert(self.games@[a] == before[a1]);
                        assert(self.games@[b] == before[b1]);
                    }
                    assert forall|j: int| 0 <= j < self.games@.len() implies #[trigger] self.games@[j].wf() by {
                        let j1 = if j < i { j } else { j + 1 };
                        assert(self.games@[j] == before[j1]);
                    }
                    k = k + 1;
                }
            } else {
                proof {
                    assert forall|j: int|
                        0 <= j < k + 1 && !clashes(#[trigger] o[j], game) implies self.games@.subrange(
                        0,
                        i + 1,
                    ).contains(o[j]) by {
                        if j < k {
                            let t = choose|t: int| 0 <= t < i && self.games@.subrange(0, i as int)[t] == o[j];
                            assert(self.games@.subrange(0, i + 1)[t] == o[j]);
                        } else {
                            assert(self.games@.subrange(0, i + 1)[i as int] == o[j]);
                        }
                    }
                    k = k + 1;
                }
                i = i + 1;
            }
        }
        let ghost kept = self.games@;
        self.games.push(game);
        proof {
            assert forall|g: GameData| #[trigger] self.games@.contains(g) <==> (g == game || (o.contains(g)
                && !clashes(g, game))) by {
                if self.games@.contains(g) && g != game {
                    let j = choose|j: int| 0 <= j < self.games@.len() && self.games@[j] == g;
                    assert(j < kept.len());
                    assert(kept.contains(g));
                }
                if o.contains(g) && !clashes(g, game) && g != game {
                    let j = choose|j: int| 0 <= j < o.len() && o[j] == g;
                    assert(kept.subrange(0, kept.len() as int) =~= kept);
                    let t = choose|t: int| 0 <= t < kept.len() && kept[t] == g;
                    assert(self.games@[t] == g);
                }
                if g == game {
                    assert(self.games@[self.games@.len() - 1] == game);
                }
            }
            assert forall|j: int| 0 <= j < self.games@.len() implies #[trigger] self.games@[j].wf() by {
                if j < kept.len() {
                    assert(self.games@[j] == kept[j]);
                }
            }
            assert forall|a: int, b: int|
                0 <= a < self.games@.len() && 0 <= b < self.games@.len() && a != b implies !clashes(
                #[trigger] self.games@[a],
                #[trigger] self.games@[b],
            ) by {
                let last = kept.len() as int;
                if a != last && b != last {
                    assert(self.games@[a] == kept[a]);
                    assert(self.games@[b] == kept[b]);
                } else if a == last {
                    assert(self.games@[b] == kept[b]);
                    assert(!clashes(kept[b], game));
                } else {
                    assert(self.games@[a] == kept[a]);
                    assert(!clashes(kept[a], game));
                }
            }
        }
    }

    /// The progress stored for this racer of this match.
    pub fn find_game_progress(&self, game_id: &str, user_id: &str) -> (r: Result<u16, StoreError>)
        requires
            self.wf(),
        ensures
            !self.has_game(game_id@) ==> r == Err::<u16, StoreError>(StoreError::GameNotFound),
            self.has_game(game_id@) && self.game(game_id@).seat_of(user_id@) < 0 ==> r == Err::<
                u16,
                StoreError,
            >(StoreError::PlayerNotInGame),
            self.stored_progress(game_id@, user_id@) matches Some(p) ==> r == Ok::<u16, StoreError>(p),
    {
        match self.find_game(game_id) {
            None => Err(StoreError::GameNotFound),
            Some(g) => {
                let game = &self.games[g];
                assert(game.wf());
                let key = user_id.to_owned();
                if game.users[0].user_id == key {
                    Ok(game.users[0].progress)
                } else if game.users[1].user_id == key {
                    Ok(game.users[1].progress)
                } else {
                    Err(StoreError::PlayerNotInGame)
                }
            },
        }
    }

    /// Records the progress (a percentage) of a racer. It fails, and changes
    /// nothing, on an unknown match or racer, above one hundred, and below the
    /// progress stored for the racer.
    pub fn update_game_progress(&mut self, game_id: &str, user_id: &str, progress: u16) -> (r: Result<(), StoreError>)
        requires
            old(self).wf(),
        ensures
            final(self).wf(),
            final(self).users@ == old(self).users@,
            !old(self).has_game(game_id@) ==> r == Err::<(), StoreError>(StoreError::GameNotFound),
            old(self).has_game(game_id@) && old(self).game(game_id@).seat_of(user_id@) < 0 ==> r == Err::<
                (),
                StoreError,
            >(StoreError::PlayerNotInGame),
            old(self).stored_progress(game_id@, user_id@) is Some && progress > 100 ==> r == Err::<
                (),
                StoreError,
            >(StoreError::ProgressOutOfRange),
            old(self).stored_progress(game_id@, user_id@) matches Some(p) && progress <= 100 && progress
                < p ==> r == Err::<(), StoreError>(StoreError::ProgressDecrease),
            old(self).stored_progress(game_id@, user_id@) matches Some(p) && p <= progress <= 100
                ==> r is Ok,
            r is Err ==> final(self).games@ == old(self).games@,
            r is Ok ==> progress_stored(*old(self), *final(self), game_id@, user_id@, progress),
    {
        match self.find_game(game_id) {
            None => Err(StoreError::GameNotFound),
            Some(g) => {
                let ghost o = self.games@;
                assert(self.games[g as int].wf());
                let key = user_id.to_owned();
                let seat: usize = if self.games[g].users[0].user_id == key {
                    0
                } else if self.games[g].users[1].user_id == key {
                    1
                } else {
                    return Err(StoreError::PlayerNotInGame);
                };
                if progress > 100 {
                    return Err(StoreError::ProgressOutOfRange);
                }
                if progress < self.games[g].users[seat].progress {
                    return Err(StoreError::ProgressDecrease);
                }
                let mut game = self.games.remove(g);
                let mut racer = game.users.remove(seat);
                let ghost ou = racer;
                racer.progress = progress;
                game.users.insert(seat, racer);
                if progress == 100 {
                    game.status = GameStatus::Finished;
                }
                self.games.insert(g, game);
                proof {
                    assert(game.users@ =~= o[g as int].users@.update(
                        seat as int,
                        UserGameData { progress, user_id: ou.user_id },
                    ));
                    assert forall|j: int| 0 <= j < self.games@.len() && j != g implies #[trigger] self.games@[j]
                        == o[j] by {}
                    assert(game.player(0) == o[g as int].player(0));
                    assert(game.player(1) == o[g as int].player(1));
                    assert(self.games@[g as int] == game);
                    assert forall|j: int| 0 <= j < self.games@.len() implies #[trigger] self.games@[j].wf() by {
                        if j != g {
                            assert(self.games@[j] == o[j]);
                        }
                    }
                    assert forall|a: int, b: int|
                        0 <= a < self.games@.len() && 0 <= b < self.games@.len() && a != b implies !clashes(
                        #[trigger] self.games@[a],
                        #[trigger] self.games@[b],
                    ) by {
                        assert(!clashes(o[a], o[b]));
                        assert(self.games@[a].id@ == o[a].id@);
                        assert(self.games@[b].id@ == o[b].id@);
                        assert(self.games@[a].player(0) == o[a].player(0));
                        assert(self.games@[a].player(1) == o[a].player(1));
                        assert(self.games@[b].player(0) == o[b].player(0));
                        assert(self.games@[b].player(1) == o[b].player(1));
                    }
                }
                Ok(())
            },
        }
    }

    /// A `GameUpdate` for each racer of the match, with that racer's own
    /// progress first and the opponent's second.
    pub fn broadcase_game_status(&self, game_id: &str) -> (r: Result<Vec<Delivery>, StoreError>)
        requires
            self.wf(),
        ensures
            r is Err <==> !self.has_game(game_id@),
            r is Err ==> r == Err::<Vec<Delivery>, StoreError>(StoreError::GameNotFound),
            r matches Ok(out) ==> is_progress_broadcast(self.game(game_id@), out@),
    {
        match self.find_game(game_id) {
            None => Err(StoreError::GameNotFound),
            Some(g) => {
                let game = &self.games[g];
                assert(game.wf());
                let first = &game.users[0];
                let second = &game.users[1];
                let mut out: Vec<Delivery> = Vec::new();
                out.push(
                    Delivery {
                        to: first.user_id.clone(),
                        message: WSServerMessage::GameUpdate {
                            my_progress: first.progress,
                            opponent_progress: second.progress,
                        },
                    },
                );
                out.push(
                    Delivery {
                        to: second.user_id.clone(),
                        message: WSServerMessage::GameUpdate {
                            my_progress: second.progress,
                            opponent_progress: first.progress,
                        },
                    },
                );
                Ok(out)
            },
        }
    }

    /// Moves a match that waits for its start to `InProgress`; true when it did.
    pub fn start_game(&mut self, game_id: &str) -> (r: bool)
        requires
            old(self).wf(),
        ensures
            final(self).wf(),
            final(self).users@ == old(self).users@,
            r <==> old(self).has_game(game_id@) && old(self).game(game_id@).status == GameStatus::Init,
            start_recorded(old(self).games@, final(self).games@, r, old(self).game_pos(game_id@)),
    {
        match self.find_game(game_id) {
            None => false,
            Some(g) => {
                if self.games[g].status != GameStatus::Init {
                    return false;
                }
                let ghost o = self.games@;
                let mut game = self.games.remove(g);
                game.status = GameStatus::InProgress;
                self.games.insert(g, game);
                proof {
                    assert forall|j: int| 0 <= j < self.games@.len() && j != g implies #[trigger] self.games@[j]
                        == o[j] by {}
                    assert forall|a: int, b: int|
                        0 <= a < self.games@.len() && 0 <= b < self.games@.len() && a != b implies !clashes(
                        #[trigger] self.games@[a],
                        #[trigger] self.games@[b],
                    ) by {
                        assert(!clashes(o[a], o[b]));
                        assert(self.games@[a].id == o[a].id);
                        assert(self.games@[b].id == o[b].id);
                        assert(self.games@[a].users == o[a].users);
                        assert(self.games@[b].users == o[b].users);
                    }
                    assert forall|j: int| 0 <= j < self.games@.len() implies #[trigger] self.games@[j].wf() by {
                        assert(o[j].wf());
                        assert(self.games@[j].users == o[j].users);
                    }
                }
                true
            },
        }
    }
}

} // verus!
