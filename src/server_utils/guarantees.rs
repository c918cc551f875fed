//! What the session layer guarantees across calls, stated over the same
//! predicates that the functions' contracts use.
use crate::models::{users_view, ServerMessageView};
use crate::server_utils::fast_storage::{
    is_progress_broadcast, is_roster_broadcast, profiles, removal_of, BlazinglyFastDb, Delivery,
    UserConnection,
};
use crate::server_utils::message_handlers::{
    accept_handled, challenge_handled, delivery_is, update_handled, HandlerOutcome,
};
use vstd::prelude::*;

verus! {

/// A registered user is found under its id, with its profile, while other
/// users leave; once it is removed itself, it is found no more.
pub proof fn lemma_registered_until_removed<S>(
    db: BlazinglyFastDb<S>,
    c: UserConnection<S>,
    registered: BlazinglyFastDb<S>,
    other: Seq<char>,
    other_left: BlazinglyFastDb<S>,
    removed: BlazinglyFastDb<S>,
)
    requires
        db.wf(),
        registered.wf(),
        !db.has_user(c.data.id@),
        registered.users@ == db.users@.push(c),
        other != c.data.id@,
        removal_of(registered, other_left, other),
        removal_of(other_left, removed, c.data.id@),
    ensures
        registered.lookup_user(c.data.id@) == Some(c.data),
        other_left.lookup_user(c.data.id@) == Some(c.data),
        removed.lookup_user(c.data.id@) is None,
{
    let last = db.users@.len() as int;
    assert(registered.user_id_at(last) == c.data.id@);
    registered.lemma_user_pos(c.data.id@, last);
}

/// A roster broadcast reaches every registered user once and nobody else, and
/// each copy lists exactly the registered users.
pub proof fn lemma_roster_reaches_everyone<S>(db: BlazinglyFastDb<S>, out: Seq<Delivery>)
    requires
        db.wf(),
        is_roster_broadcast(db.users@, out),
    ensures
        out.len() == db.users@.len(),
        forall|id: Seq<char>|
            db.has_user(id) <==> exists|k: int| 0 <= k < out.len() && (#[trigger] out[k]).to@ == id,
        forall|k1: int, k2: int|
            0 <= k1 < out.len() && 0 <= k2 < out.len() && k1 != k2 ==> (#[trigger] out[k1]).to@
                != (#[trigger] out[k2]).to@,
        forall|k: int|
            0 <= k < out.len() ==> match (#[trigger] out[k]).message@ {
                ServerMessageView::UserStatus { connected_users } => {
                    &&& connected_users.len() == db.users@.len()
                    &&& forall|id: Seq<char>|
                        db.has_user(id) <==> exists|j: int|
                            0 <= j < connected_users.len() && (#[trigger] connected_users[j]).id == id
                },
                _ => false,
            },
{
    assert forall|id: Seq<char>|
        db.has_user(id) <==> exists|k: int| 0 <= k < out.len() && (#[trigger] out[k]).to@ == id by {
        if db.has_user(id) {
            let k = db.user_pos(id);
            assert(out[k].to@ == id);
        }
        if exists|k: int| 0 <= k < out.len() && (#[trigger] out[k]).to@ == id {
            let k = choose|k: int| 0 <= k < out.len() && (#[trigger] out[k]).to@ == id;
            assert(db.user_id_at(k) == id);
        }
    }
    assert forall|k1: int, k2: int|
        0 <= k1 < out.len() && 0 <= k2 < out.len() && k1 != k2 implies (#[trigger] out[k1]).to@
            != (#[trigger] out[k2]).to@ by {
        assert(db.users@[k1].data.id@ != db.users@[k2].data.id@);
    }
    let roster = users_view(profiles(db.users@));
    assert forall|id: Seq<char>|
        db.has_user(id) <==> exists|j: int| 0 <= j < roster.len() && (#[trigger] roster[j]).id == id by {
        if db.has_user(id) {
            let k = db.user_pos(id);
            assert(roster[k].id == id);
        }
        if exists|j: int| 0 <= j < roster.len() && (#[trigger] roster[j]).id == id {
            let j = choose|j: int| 0 <= j < roster.len() && (#[trigger] roster[j]).id == id;
            assert(db.user_id_at(j) == id);
        }
    }
}

/// Challenging a user who is not registered gives one `Error`, to the
/// challenger, and nothing to anybody else.
pub proof fn lemma_challenge_of_absent_user<S>(
    db: BlazinglyFastDb<S>,
    current: Seq<char>,
    to: Seq<char>,
    out: Seq<Delivery>,
)
    requires
        db.wf(),
        db.has_user(current),
        !db.has_user(to),
        challenge_handled(db, current, to, out),
    ensures
        out.len() == 1,
        out[0].to@ == current,
        out[0].message@ is Error,
{
}

/// Accepting a challenge between two present users gives each of them one
/// `GameInit`, both with the same game id, prompt and start time; the start
/// that runs after the delay gives each of them one `GameStart`.
pub proof fn lemma_accept_starts_both<S>(
    old: BlazinglyFastDb<S>,
    new: BlazinglyFastDb<S>,
    current: Seq<char>,
    opponent: Seq<char>,
    now: u64,
    r: HandlerOutcome,
    start_out: Seq<Delivery>,
)
    requires
        old.wf(),
        old.has_user(current),
        old.has_user(opponent),
        current != opponent,
        accept_handled(old, new, current, opponent, now, r),
        r.start matches Some(p) && start_out.len() == 2 && delivery_is(
            start_out[0],
            p.first_user_id@,
            ServerMessageView::GameStart,
        ) && delivery_is(start_out[1], p.second_user_id@, ServerMessageView::GameStart),
    ensures
        r.deliveries@.len() == 2,
        r.deliveries@[0].to@ == current && r.deliveries@[1].to@ == opponent,
        r.deliveries@[0].message@ == r.deliveries@[1].message@,
        r.deliveries@[0].message@ is GameInit,
        start_out[0].to@ == current && start_out[1].to@ == opponent,
        start_out[0].message@ is GameStart && start_out[1].message@ is GameStart,
{
}

/// A report below seventy per cent and less than five points above the
/// stored progress is recorded without a broadcast; one at seventy or above is
/// broadcast to both racers, whatever the step.
pub proof fn lemma_throttle<S>(
    old: BlazinglyFastDb<S>,
    new: BlazinglyFastDb<S>,
    current: Seq<char>,
    game_id: Seq<char>,
    previous: u16,
    progress: u16,
    out: Seq<Delivery>,
)
    requires
        old.wf(),
        old.stored_progress(game_id, current) == Some(previous),
        previous <= progress <= 100,
        update_handled(old, new, current, game_id, progress, out),
    ensures
        progress < 70 && progress - previous < 5 ==> out.len() == 0,
        progress >= 70 ==> out.len() == 2 && is_progress_broadcast(new.game(game_id), out),
{
}

/// A recorded report is what the store holds for that racer afterwards.
pub proof fn lemma_report_is_stored<S>(
    old: BlazinglyFastDb<S>,
    new: BlazinglyFastDb<S>,
    current: Seq<char>,
    game_id: Seq<char>,
    previous: u16,
    progress: u16,
    out: Seq<Delivery>,
)
    requires
        old.wf(),
        new.wf(),
        old.stored_progress(game_id, current) == Some(previous),
        previous <= progress <= 100,
        update_handled(old, new, current, game_id, progress, out),
    ensures
        new.stored_progress(game_id, current) == Some(progress),
{
    let pos = old.game_pos(game_id);
    assert(new.game_id_at(pos) == old.game_id_at(pos));
    new.lemma_game_pos(game_id, pos);
    let (o, n) = (old.games@[pos], new.games@[pos]);
    let seat = o.seat_of(current);
    assert(o.wf());
    assert(n.player(0) == o.player(0));
    assert(n.player(1) == o.player(1));
    assert(n.users@[seat].progress == progress);
}

/// Each racer's `GameUpdate` carries that racer's stored progress as its own
/// and the other racer's stored progress as the opponent's.
pub proof fn lemma_update_is_relative<S>(db: BlazinglyFastDb<S>, game_id: Seq<char>, out: Seq<Delivery>)
    requires
        db.wf(),
        db.has_game(game_id),
        db.game(game_id).player(0) != db.game(game_id).player(1),
        is_progress_broadcast(db.game(game_id), out),
    ensures
        forall|k: int|
            0 <= k < 2 ==> {
                let me = (#[trigger] out[k]).to@;
                let other = db.game(game_id).player(1 - k);
                &&& other != me
                &&& db.stored_progress(game_id, me) is Some
                &&& db.stored_progress(game_id, other) is Some
                &&& out[k].message@ == ServerMessageView::GameUpdate {
                    my_progress: db.stored_progress(game_id, me)->Some_0,
                    opponent_progress: db.stored_progress(game_id, other)->Some_0,
                }
            },
{
    assert(db.game(game_id).wf());
}

} // verus!
