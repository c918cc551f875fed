//! Which notice the event bar shows, and how.
use crate::ui::types::{now_millis, DisplayModifier, Event};
use std::collections::VecDeque;
use vstd::prelude::*;

verus! {

/// The notice with its moment of display recorded as `now`, unless it had one.
pub open spec fn shown(e: Event, now: u64) -> Event {
    Event {
        displayed_at: Some(
            match e.displayed_at {
                Some(t) => t,
                None => now,
            },
        ),
        ..e
    }
}

/// The notice at the head of the queue, marked as shown at `now`. With more
/// notices waiting, a head that is over is dropped and the next one takes its
/// place. Gives that notice and how to show it; `Plain` when there is none.
pub fn select_event_at(events: &mut VecDeque<Event>, now: u64) -> (r: (Option<Event>, DisplayModifier))
    ensures
        old(events)@.len() == 0 ==> final(events)@ == old(events)@ && r == (
        None::<Event>,
        DisplayModifier::Plain,
        ),
        old(events)@.len() == 1 ==> final(events)@ == seq![shown(old(events)@[0], now)] && r == (
        Some(shown(old(events)@[0], now)),
        shown(old(events)@[0], now).modifier_at(now),
        ),
        old(events)@.len() >= 2 ==> {
            let head = shown(old(events)@[0], now);
            if head.expired_at(now) {
                let next = shown(old(events)@[1], now);
                &&& final(events)@ == seq![next] + old(events)@.subrange(2, old(events)@.len() as int)
                &&& r == (Some(next), next.modifier_at(now))
            } else {
                &&& final(events)@ == seq![head] + old(events)@.subrange(1, old(events)@.len() as int)
                &&& r == (Some(head), head.modifier_at(now))
            }
        },
{
    let ghost o = events@;
    match events.pop_front() {
        None => (None, DisplayModifier::Plain),
        Some(mut head) => {
            head.mark_displayed_at(now);
            assert(head == shown(o[0], now));
            if events.len() == 0 || !head.is_expired_at(now) {
                let shown_head = head.copy();
                let modifier = shown_head.display_modifier_at(now);
                events.push_front(head);
                assert(events@ =~= seq![shown(o[0], now)] + o.subrange(1, o.len() as int));
                (Some(shown_head), modifier)
            } else {
                match events.pop_front() {
                    None => (None, DisplayModifier::Plain),
                    Some(mut next) => {
                        next.mark_displayed_at(now);
                        assert(next == shown(o[1], now));
                        let shown_next = next.copy();
                        let modifier = shown_next.display_modifier_at(now);
                        events.push_front(next);
                        assert(events@ =~= seq![shown(o[1], now)] + o.subrange(2, o.len() as int));
                        (Some(shown_next), modifier)
                    },
                }
            }
        },
    }
}

/// The notice for the event bar now, and how to show it.
pub fn get_event_and_modifier(events: &mut VecDeque<Event>) -> (Option<Event>, DisplayModifier) {
    select_event_at(events, now_millis())
}

} // verus!
