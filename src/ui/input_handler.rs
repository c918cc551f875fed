//! What a key does, on each screen. Each handler says whether the client quits.
use crate::ui::fsm::{choose_list_action, list_action, Key, TransitionAction};
use crate::ui::stateful_list::{next_index, previous_index, StatefulList};
use crate::ui::types::{challenge_accepted, App, CharState, PromptKey, Tab, TouchState};
use vstd::prelude::*;

verus! {

/// The prompt after `c` was typed at `pos`: that key is marked right or wrong
/// and, where `advance`, the cursor moves to the next key.
pub open spec fn typed_prompt(prompt: Seq<PromptKey>, pos: int, c: char, advance: bool) -> Seq<PromptKey> {
    let touched = if prompt[pos].character == c {
        TouchState::Valid
    } else {
        TouchState::Invalid
    };
    let marked = prompt.update(
        pos,
        PromptKey { character: prompt[pos].character, state: CharState::Touched(touched) },
    );
    if advance {
        marked.update(
            pos + 1,
            PromptKey { character: prompt[pos + 1].character, state: CharState::CursorPosition },
        )
    } else {
        marked
    }
}

/// The prompt after a backspace at `pos`: the key is untouched again and the
/// cursor is on the key before.
pub open spec fn erased_prompt(prompt: Seq<PromptKey>, pos: int) -> Seq<PromptKey> {
    prompt.update(pos, PromptKey { character: prompt[pos].character, state: CharState::Untouched }).update(
        pos - 1,
        PromptKey { character: prompt[pos - 1].character, state: CharState::CursorPosition },
    )
}

/// `new` is `old` with this prompt and cursor; the rest of the match and of
/// the client is unchanged.
pub open spec fn prompt_moved(old: App, new: App, prompt: Seq<PromptKey>, cursor: int) -> bool {
    &&& new.current_tab == old.current_tab
    &&& new.current_user == old.current_user
    &&& new.events == old.events
    &&& new.outbox == old.outbox
    &&& new.state.players == old.state.players
    &&& new.state.menu == old.state.menu
    &&& new.state.challenge == old.state.challenge
    &&& new.state.cursor_position == cursor
    &&& match (old.state.game, new.state.game) {
        (Some(o), Some(n)) => {
            &&& n.game_id == o.game_id
            &&& n.my_progress == o.my_progress
            &&& n.opponent_progress == o.opponent_progress
            &&& n.starts_at == o.starts_at
            &&& n.status == o.status
            &&& n.prompt_text@ == prompt
        },
        _ => false,
    }
}

/// What a key does on the race screen. A character marks the key under the
/// cursor right or wrong and moves on (not past the last key); backspace steps
/// back, and quits at the first key; escape quits.
pub open spec fn game_input_done(old: App, new: App, input: Key, quit: bool) -> bool {
    let pos = old.state.cursor_position as int;
    match old.state.game {
        None => new == old && quit == (input == Key::Esc),
        Some(g) => {
            let prompt = g.prompt_text@;
            match input {
                Key::Char(c) => {
                    &&& !quit
                    &&& if pos < prompt.len() {
                        let advance = pos + 1 < prompt.len() && pos < u16::MAX;
                        prompt_moved(
                            old,
                            new,
                            typed_prompt(prompt, pos, c, advance),
                            if advance {
                                pos + 1
                            } else {
                                pos
                            },
                        )
                    } else {
                        new == old
                    }
                },
                Key::Backspace => if pos == 0 {
                    quit && new == old
                } else if pos < prompt.len() {
                    !quit && prompt_moved(old, new, erased_prompt(prompt, pos), pos - 1)
                } else {
                    !quit && new == old
                },
                Key::Esc => quit && new == old,
                _ => !quit && new == old,
            }
        },
    }
}

/// Handles a key on the race screen; true when the client should quit.
pub fn handle_game_input(app: &mut App, input: Key) -> (r: bool)
    ensures
        game_input_done(*old(app), *final(app), input, r),
{
    let position: usize = app.state.cursor_position as usize;
    match &mut app.state.game {
        None => input == Key::Esc,
        Some(game_data) => {
            let prompt_text = &mut game_data.prompt_text;
            match input {
                Key::Char(character) => {
                    if position < prompt_text.len() {
                        let expected = prompt_text[position].character;
                        let touched = if expected == character {
                            TouchState::Valid
                        } else {
                            TouchState::Invalid
                        };
                        prompt_text.set(
                            position,
                            PromptKey { character: expected, state: CharState::Touched(touched) },
                        );
                        if position + 1 < prompt_text.len() && app.state.cursor_position < u16::MAX {
                            let next = prompt_text[position + 1].character;
                            prompt_text.set(
                                position + 1,
                                PromptKey { character: next, state: CharState::CursorPosition },
                            );
                            app.state.cursor_position = app.state.cursor_position + 1;
                        }
                    }
                    false
                },
                Key::Backspace => {
                    if position == 0 {
                        true
                    } else {
                        if position < prompt_text.len() {
                            let current = prompt_text[position].character;
                            prompt_text.set(
                                position,
                                PromptKey { character: current, state: CharState::Untouched },
                            );
                            let previous = prompt_text[position - 1].character;
                            prompt_text.set(
                                position - 1,
                                PromptKey { character: previous, state: CharState::CursorPosition },
                            );
                            app.state.cursor_position = app.state.cursor_position - 1;
                        }
                        false
                    }
                },
                Key::Esc => true,
                _ => false,
            }
        },
    }
}

/// The selected item of a list, if the selection points at one.
pub open spec fn selected_item<T>(list: StatefulList<T>) -> Option<T> {
    match list.selected {
        Some(i) => if i < list.items@.len() {
            Some(list.items@[i as int])
        } else {
            None
        },
        None => None,
    }
}

/// `new` is `old` with the selection of the player list, or of the menu, at
/// `players` and `menu`; nothing else changed.
pub open spec fn selection_moved(old: App, new: App, players: Option<usize>, menu: Option<usize>) -> bool {
    &&& new.current_tab == old.current_tab
    &&& new.current_user == old.current_user
    &&& new.events == old.events
    &&& new.outbox == old.outbox
    &&& new.state.cursor_position == old.state.cursor_position
    &&& new.state.challenge == old.state.challenge
    &&& new.state.game == old.state.game
    &&& new.state.players.items@ == old.state.players.items@
    &&& new.state.menu.items@ == old.state.menu.items@
    &&& new.state.players.selected == players
    &&& new.state.menu.selected == menu
}

/// What a key does on the list of players: move the selection, challenge the
/// selected player, accept a pending challenge, or quit.
pub open spec fn arena_input_done(old: App, new: App, input: Key, quit: bool) -> bool {
    let players = old.state.players;
    let menu = old.state.menu.selected;
    match list_action(old.state.challenge is Some, input) {
        TransitionAction::MoveDown => !quit && selection_moved(
            old,
            new,
            next_index(players.selected, players.items@.len()),
            menu,
        ),
        TransitionAction::MoveUp => !quit && selection_moved(
            old,
            new,
            previous_index(players.selected, players.items@.len()),
            menu,
        ),
        TransitionAction::Select => {
            &&& !quit
            &&& match selected_item(players) {
                Some(p) => {
                    &&& new.outbox@ == old.outbox@.push(
                        crate::ui::types::UiMessage::Challenge { user_name: p.display_name, user_id: p.id },
                    )
                    &&& new.current_tab == old.current_tab
                    &&& new.current_user == old.current_user
                    &&& new.events == old.events
                    &&& new.state == old.state
                },
                None => new == old,
            }
        },
        TransitionAction::Quit => quit && new == old,
        TransitionAction::AcceptChallenge => !quit && challenge_accepted(old, new),
        _ => !quit && new == old,
    }
}

/// Handles a key on the list of players; true when the client should quit.
pub fn handle_arena_input(app: &mut App, input: Key) -> (r: bool)
    ensures
        arena_input_done(*old(app), *final(app), input, r),
{
    let action = choose_list_action(app.state.challenge.is_some(), input);
    match action {
        TransitionAction::MoveDown => {
            app.state.players.next();
            false
        },
        TransitionAction::MoveUp => {
            app.state.players.previous();
            false
        },
        TransitionAction::Select => {
            let message = match app.state.players.get_selected_item() {
                Some(player) => Some(player.challenge()),
                None => None,
            };
            match message {
                Some(m) => app.outbox.push(m),
                None => {},
            }
            false
        },
        TransitionAction::Quit => true,
        TransitionAction::AcceptChallenge => {
            app.accept_current_challenge();
            false
        },
        _ => false,
    }
}

/// What a key does on the menu: move the selection, open the chosen screen
/// (the first entry opens the list of players, any other the race), accept a
/// pending challenge, or quit.
pub open spec fn menu_input_done(old: App, new: App, input: Key, quit: bool) -> bool {
    let menu = old.state.menu;
    let players = old.state.players.selected;
    match list_action(old.state.challenge is Some, input) {
        TransitionAction::MoveDown => !quit && selection_moved(
            old,
            new,
            players,
            next_index(menu.selected, menu.items@.len()),
        ),
        TransitionAction::MoveUp => !quit && selection_moved(
            old,
            new,
            players,
            previous_index(menu.selected, menu.items@.len()),
        ),
        TransitionAction::Select => {
            &&& !quit
            &&& match menu.selected {
                Some(i) => {
                    &&& new.current_tab == (if i == 0 {
                        Tab::Arena
                    } else {
                        Tab::Game
                    })
                    &&& new.current_user == old.current_user
                    &&& new.events == old.events
                    &&& new.outbox == old.outbox
                    &&& new.state == old.state
                },
                None => new == old,
            }
        },
        TransitionAction::Quit => quit && new == old,
        TransitionAction::AcceptChallenge => !quit && challenge_accepted(old, new),
        _ => !quit && new == old,
    }
}

/// Handles a key on the menu; true when the client should quit.
pub fn handle_menu_input(app: &mut App, input: Key) -> (r: bool)
    ensures
        menu_input_done(*old(app), *final(app), input, r),
{
    let action = choose_list_action(app.state.challenge.is_some(), input);
    match action {
        TransitionAction::MoveDown => {
            app.state.menu.next();
            false
        },
        TransitionAction::MoveUp => {
            app.state.menu.previous();
            false
        },
        TransitionAction::Select => {
            match app.state.menu.selected {
                Some(index) => {
                    if index == 0 {
                        app.current_tab = Tab::Arena;
                    } else {
                        app.current_tab = Tab::Game;
                    }
                },
                None => {},
            }
            false
        },
        TransitionAction::Quit => true,
        TransitionAction::AcceptChallenge => {
            app.accept_current_challenge();
            false
        },
        _ => false,
    }
}

/// What a key does on the screen on view.
pub open spec fn tab_input_done(old: App, new: App, input: Key, quit: bool) -> bool {
    match old.current_tab {
        Tab::Game => game_input_done(old, new, input, quit),
        Tab::Arena => arena_input_done(old, new, input, quit),
        Tab::Menu => menu_input_done(old, new, input, quit),
    }
}

impl Tab {
    /// Handles a key on the screen on view; true when the client should quit.
    pub fn handle_tab_specific_input(self, app: &mut App, input: Key) -> (r: bool)
        ensures
            tab_input_done(*old(app), *final(app), input, r),
    {
        match app.current_tab {
            Tab::Game => handle_game_input(app, input),
            Tab::Arena => handle_arena_input(app, input),
            Tab::Menu => handle_menu_input(app, input),
        }
    }
}

/// Handles a key: escape quits on every screen, any other key goes to the
/// screen on view. True when the client should quit.
pub fn handle_input(app: &mut App, input: Key) -> (r: bool)
    ensures
        input == Key::Esc ==> r && *final(app) == *old(app),
        input != Key::Esc ==> tab_input_done(*old(app), *final(app), input, r),
{
    match input {
        Key::Esc => true,
        _ => {
            let tab = app.current_tab;
            tab.handle_tab_specific_input(app, input)
        },
    }
}

} // verus!
