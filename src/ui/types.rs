//! The state of the terminal client.
use crate::models::{GameStatus, User};
use crate::ui::fsm::Key;
use crate::ui::stateful_list::StatefulList;
use std::collections::VecDeque;
use std::time::{SystemTime, UNIX_EPOCH};
use vstd::prelude::*;

pub use crate::models::UserStatus;

verus! {

/// The wall clock: milliseconds since the Unix epoch.
///
/// Relies on `std::time::SystemTime::now`, read against `UNIX_EPOCH` (a clock
/// set before the epoch reads 0). Nothing is promised of the value.
#[verifier::external_body]
pub(crate) fn now_millis() -> u64 {
    match SystemTime::now().duration_since(UNIX_EPOCH) {
        Ok(elapsed) => elapsed.as_millis() as u64,
        Err(_) => 0,
    }
}

/// The wall clock in seconds since the Unix epoch.
pub fn now_secs() -> u64 {
    now_millis() / 1000
}

/// Whether a typed character matched the prompt.
#[derive(Clone, Copy, Debug, PartialEq, Eq, Structural)]
pub enum TouchState {
    Valid,
    Invalid,
}

/// The state of one character of the prompt.
#[derive(Clone, Copy, Debug, PartialEq, Eq, Structural)]
pub enum CharState {
    /// The cursor has not reached the character yet, or went back over it.
    Untouched,
    /// The character to be typed next.
    CursorPosition,
    /// The character was typed, rightly or wrongly.
    Touched(TouchState),
}

impl Default for CharState {
    fn default() -> (r: Self)
        ensures
            r == CharState::Untouched,
    {
        CharState::Untouched
    }
}

// For the client, each user is a player.
pub type Player = User;

impl Player {
    /// The request to challenge this player.
    pub fn challenge(&self) -> (r: UiMessage)
        ensures
            r == (UiMessage::Challenge { user_name: self.display_name, user_id: self.id }),
    {
        UiMessage::Challenge { user_name: self.display_name.clone(), user_id: self.id.clone() }
    }
}

/// A character of the prompt and how far the player got with it.
#[derive(Clone, Copy, Debug, PartialEq, Eq, Structural)]
pub struct PromptKey {
    pub character: char,
    pub state: CharState,
}

impl PromptKey {
    pub fn new(character: char) -> (r: Self)
        ensures
            r.character == character,
            r.state == CharState::Untouched,
    {
        PromptKey { character, state: CharState::default() }
    }
}

/// The key at `i` of a prompt before anything is typed: the cursor on the first.
pub open spec fn fresh_key(text: Seq<char>, i: int) -> PromptKey {
    PromptKey {
        character: text[i],
        state: if i == 0 {
            CharState::CursorPosition
        } else {
            CharState::Untouched
        },
    }
}

/// `keys` are the keys of the prompt `text` before anything is typed.
pub open spec fn is_fresh_prompt(keys: Seq<PromptKey>, text: Seq<char>) -> bool {
    &&& keys.len() == text.len()
    &&& forall|i: int| 0 <= i < text.len() ==> #[trigger] keys[i] == fresh_key(text, i)
}

/// The keys of a prompt, the cursor on the first.
pub fn prompt_keys(text: &str) -> (r: Vec<PromptKey>)
    ensures
        is_fresh_prompt(r@, text@),
{
    let len: usize = text.unicode_len();
    let mut keys: Vec<PromptKey> = Vec::new();
    let mut i: usize = 0;
    while i < len
        invariant
            len == text@.len(),
            i <= len,
            keys@.len() == i,
            forall|j: int| 0 <= j < i ==> #[trigger] keys@[j] == fresh_key(text@, j),
        decreases len - i,
    {
        let mut key = PromptKey::new(text.get_char(i));
        if i == 0 {
            key.state = CharState::CursorPosition;
        }
        keys.push(key);
        i = i + 1;
    }
    keys
}

/// The match as the client sees it.
pub struct UiGameData {
    pub game_id: String,
    pub my_progress: u16,
    pub opponent_progress: u16,
    pub prompt_text: Vec<PromptKey>,
    pub starts_at: u64,
    pub status: GameStatus,
}

impl UiGameData {
    /// A match announced by the server, nobody has typed anything yet.
    pub fn new(game_id: String, prompt_text: String, starts_at: u64) -> (r: Self)
        ensures
            r.game_id == game_id,
            r.my_progress == 0,
            r.opponent_progress == 0,
            is_fresh_prompt(r.prompt_text@, prompt_text@),
            r.starts_at == starts_at,
            r.status == GameStatus::Init,
    {
        let keys = prompt_keys(prompt_text.as_str());
        UiGameData {
            game_id,
            my_progress: 0,
            opponent_progress: 0,
            prompt_text: keys,
            starts_at,
            status: GameStatus::Init,
        }
    }

    /// Records the player's own progress and gives the report for the server.
    pub fn update_current_progress(&mut self, progress: u16) -> (r: UiMessage)
        ensures
            final(self).my_progress == progress,
            final(self).game_id == old(self).game_id,
            final(self).opponent_progress == old(self).opponent_progress,
            final(self).prompt_text == old(self).prompt_text,
            final(self).starts_at == old(self).starts_at,
            final(self).status == old(self).status,
            r == (UiMessage::UpdateProgress { game_id: old(self).game_id, progress }),
    {
        self.my_progress = progress;
        UiMessage::UpdateProgress { game_id: self.game_id.clone(), progress }
    }
}

/// The whole state of the screens.
pub struct State {
    /// Position of the cursor in the prompt.
    pub cursor_position: u16,
    /// The other connected players.
    pub players: StatefulList<Player>,
    pub menu: StatefulList<String>,
    /// The challenge that waits for an answer.
    pub challenge: Option<ChallengeData>,
    /// The match, once the server announced one.
    pub game: Option<UiGameData>,
}

impl Default for State {
    fn default() -> (r: Self)
        ensures
            r.cursor_position == 0,
            r.players.items@.len() == 0,
            r.players.selected is None,
            r.menu.items@.len() == 2,
            r.menu.items@[0]@ == "Game"@,
            r.menu.items@[1]@ == "Practice"@,
            r.menu.selected == Some(0usize),
            r.challenge is None,
            r.game is None,
    {
        let mut menu_items: Vec<String> = Vec::new();
        menu_items.push(String::from_str("Game"));
        menu_items.push(String::from_str("Practice"));
        State {
            cursor_position: 0,
            players: StatefulList::with_items(Vec::new()),
            menu: StatefulList::with_items(menu_items),
            challenge: None,
            game: None,
        }
    }
}

/// The screen the player is on.
#[derive(Clone, Copy, Debug, PartialEq, Eq, Structural)]
pub enum Tab {
    /// The race.
    Game,
    /// The list of players to challenge.
    Arena,
    /// The choice between a race and practice; the first screen.
    Menu,
}

impl Default for Tab {
    fn default() -> (r: Self)
        ensures
            r == Tab::Menu,
    {
        Tab::Menu
    }
}

/// The kind of a notice on the event bar.
#[derive(Clone, Copy, Debug, PartialEq, Eq, Structural)]
pub enum LogType {
    Success,
    Error,
    Info,
}

/// How a notice is shown: bold while new, plain later, dim once expired.
#[derive(Clone, Copy, Debug, PartialEq, Eq, Structural)]
pub enum DisplayModifier {
    Bold,
    Plain,
    Dim,
}

/// A notice for the event bar. Times are milliseconds since the Unix epoch.
#[derive(Clone, Debug)]
pub struct Event {
    /// A priority notice drops the ones queued before it.
    pub is_priority: bool,
    pub log_type: LogType,
    pub message: String,
    /// How long the notice is shown, in milliseconds.
    pub duration: u64,
    pub created_at: u64,
    pub displayed_at: Option<u64>,
}

/// The text of a digit.
pub open spec fn digit_text(d: nat) -> Seq<char> {
    if d == 0 {
        "0"@
    } else if d == 1 {
        "1"@
    } else if d == 2 {
        "2"@
    } else if d == 3 {
        "3"@
    } else if d == 4 {
        "4"@
    } else if d == 5 {
        "5"@
    } else if d == 6 {
        "6"@
    } else if d == 7 {
        "7"@
    } else if d == 8 {
        "8"@
    } else {
        "9"@
    }
}

/// The decimal text of a number.
pub open spec fn decimal(n: nat) -> Seq<char>
    decreases n,
{
    if n < 10 {
        digit_text(n)
    } else {
        decimal(n / 10) + digit_text(n % 10)
    }
}

fn append_digit(s: &mut String, d: u8)
    requires
        d < 10,
    ensures
        final(s)@ == old(s)@ + digit_text(d as nat),
{
    let text = if d == 0 {
        "0"
    } else if d == 1 {
        "1"
    } else if d == 2 {
        "2"
    } else if d == 3 {
        "3"
    } else if d == 4 {
        "4"
    } else if d == 5 {
        "5"
    } else if d == 6 {
        "6"
    } else if d == 7 {
        "7"
    } else if d == 8 {
        "8"
    } else {
        "9"
    };
    s.append(text);
}

/// Appends the decimal text of `n`.
pub fn append_decimal(s: &mut String, n: u8)
    ensures
        final(s)@ == old(s)@ + decimal(n as nat),
{
    let ghost start = s@;
    if n >= 100 {
        append_digit(s, n / 100);
        append_digit(s, (n / 10) % 10);
        append_digit(s, n % 10);
        proof {
            let (a, b, c) = (digit_text((n / 100) as nat), digit_text(((n / 10) % 10) as nat), digit_text((n % 10) as nat));
            let t = (n / 10) as nat;
            assert(t / 10 == (n / 100) as nat);
            assert(t % 10 == ((n / 10) % 10) as nat);
            assert(decimal((n / 100) as nat) == a);
            assert(decimal(t) == decimal(t / 10) + digit_text(t % 10));
            assert(decimal(t) == a + b);
            assert(decimal(n as nat) == decimal(t) + c);
            assert(s@ =~= start + decimal(n as nat));
        }
    } else if n >= 10 {
        append_digit(s, n / 10);
        append_digit(s, n % 10);
        proof {
            assert(decimal(n as nat) == decimal((n / 10) as nat) + digit_text((n % 10) as nat));
            assert(s@ =~= start + decimal(n as nat));
        }
    } else {
        append_digit(s, n);
    }
}

/// The text of a countdown notice.
pub open spec fn countdown_text(event: Seq<char>, action: Seq<char>, seconds: nat) -> Seq<char> {
    event + " will "@ + action + " in "@ + decimal(seconds) + " seconds"@
}

impl Event {
    /// The notice has these contents and has not been shown yet.
    pub open spec fn fresh(
        &self,
        log_type: LogType,
        message: Seq<char>,
        duration_secs: nat,
        is_priority: bool,
    ) -> bool {
        &&& self.log_type == log_type
        &&& self.message@ == message
        &&& self.duration == duration_secs * 1000
        &&& self.is_priority == is_priority
        &&& self.displayed_at is None
    }

    /// Since when the notice counts as shown: its display, or its creation.
    pub open spec fn shown_since(&self) -> u64 {
        match self.displayed_at {
            Some(t) => t,
            None => self.created_at,
        }
    }

    /// The notice is over at `now`.
    pub open spec fn expired_at(&self, now: u64) -> bool {
        now > self.shown_since() + self.duration
    }

    /// How the notice is shown at `now`: dim once over, bold for the first
    /// three quarters of its time, plain for the rest.
    pub open spec fn modifier_at(&self, now: u64) -> DisplayModifier {
        if self.expired_at(now) {
            DisplayModifier::Dim
        } else if 4 * (if now >= self.shown_since() { now - self.shown_since() } else { 0 }) <= 3
            * self.duration {
            DisplayModifier::Bold
        } else {
            DisplayModifier::Plain
        }
    }

    /// A notice created now, shown for `duration` seconds.
    pub fn new(log_type: LogType, message: &str, duration: u8, is_priority: bool) -> (r: Self)
        ensures
            r.fresh(log_type, message@, duration as nat, is_priority),
    {
        Event {
            is_priority,
            log_type,
            message: message.to_owned(),
            duration: duration as u64 * 1000,
            created_at: now_millis(),
            displayed_at: None,
        }
    }

    /// A copy of the notice.
    pub fn copy(&self) -> (r: Self)
        ensures
            r == *self,
    {
        Event {
            is_priority: self.is_priority,
            log_type: self.log_type,
            message: self.message.clone(),
            duration: self.duration,
            created_at: self.created_at,
            displayed_at: self.displayed_at,
        }
    }

    /// Records `now` as the moment of display, unless one was recorded.
    pub fn mark_displayed_at(&mut self, now: u64)
        ensures
            final(self).displayed_at == (match old(self).displayed_at {
                Some(t) => Some(t),
                None => Some(now),
            }),
            final(self).is_priority == old(self).is_priority,
            final(self).log_type == old(self).log_type,
            final(self).message == old(self).message,
            final(self).duration == old(self).duration,
            final(self).created_at == old(self).created_at,
    {
        if self.displayed_at.is_none() {
            self.displayed_at = Some(now);
        }
    }

    /// Records the moment of display, unless one was recorded.
    pub fn check_and_update_display_time(&mut self)
        ensures
            final(self).displayed_at is Some,
            old(self).displayed_at is Some ==> final(self).displayed_at == old(self).displayed_at,
            final(self).is_priority == old(self).is_priority,
            final(self).log_type == old(self).log_type,
            final(self).message == old(self).message,
            final(self).duration == old(self).duration,
            final(self).created_at == old(self).created_at,
    {
        self.mark_displayed_at(now_millis());
    }

    pub fn is_expired_at(&self, now: u64) -> (r: bool)
        ensures
            r == self.expired_at(now),
    {
        let since: u64 = match self.displayed_at {
            Some(t) => t,
            None => self.created_at,
        };
        now > since && now - since > self.duration
    }

    /// Whether the notice is over now.
    pub fn is_expired(&self) -> bool {
        self.is_expired_at(now_millis())
    }

    pub fn display_modifier_at(&self, now: u64) -> (r: DisplayModifier)
        ensures
            r == self.modifier_at(now),
    {
        if self.is_expired_at(now) {
            return DisplayModifier::Dim;
        }
        let since: u64 = match self.displayed_at {
            Some(t) => t,
            None => self.created_at,
        };
        let elapsed: u64 = if now >= since { now - since } else { 0 };
        if 4 * (elapsed as u128) <= 3 * (self.duration as u128) {
            DisplayModifier::Bold
        } else {
            DisplayModifier::Plain
        }
    }

    /// How the notice is shown now.
    pub fn get_display_modifier(&self) -> DisplayModifier {
        self.display_modifier_at(now_millis())
    }

    pub fn success(message: &str, duration: u8, is_priority: bool) -> (r: Self)
        ensures
            r.fresh(LogType::Success, message@, duration as nat, is_priority),
    {
        Self::new(LogType::Success, message, duration, is_priority)
    }

    pub fn error(message: &str, duration: u8, is_priority: bool) -> (r: Self)
        ensures
            r.fresh(LogType::Error, message@, duration as nat, is_priority),
    {
        Self::new(LogType::Error, message, duration, is_priority)
    }

    pub fn info(message: &str, duration: u8, is_priority: bool) -> (r: Self)
        ensures
            r.fresh(LogType::Info, message@, duration as nat, is_priority),
    {
        Self::new(LogType::Info, message, duration, is_priority)
    }

    /// A one-second notice that `event` will `action` in `seconds` seconds.
    pub fn countdown(event: &str, action: &str, seconds: u8, is_priority: bool) -> (r: Self)
        ensures
            r.fresh(LogType::Info, countdown_text(event@, action@, seconds as nat), 1, is_priority),
    {
        let mut message = String::from_str(event);
        message.append(" will ");
        message.append(action);
        message.append(" in ");
        append_decimal(&mut message, seconds);
        message.append(" seconds");
        Self::info(message.as_str(), 1, is_priority)
    }
}

/// A message from the screens to the connection with the server.
#[derive(Debug)]
pub enum UiMessage {
    ProgressUpdate(usize),
    Challenge {
        /// Name of the challenged player.
        user_name: String,
        /// Id of the challenged player.
        user_id: String,
    },
    AcceptChallenge {
        /// Id of the challenger.
        user_id: String,
    },
    UpdateProgress { game_id: String, progress: u16 },
}

/// The challenge that waits for an answer.
pub struct ChallengeData {
    pub opponent_id: String,
}

/// The state of the client.
pub struct App {
    /// The screen on view.
    pub current_tab: Tab,
    pub state: State,
    /// The identity that the server assigned.
    pub current_user: Option<Player>,
    /// The notices, oldest first.
    pub events: VecDeque<Event>,
    /// Messages for the server, oldest first, that the connection has not
    /// taken yet.
    pub outbox: Vec<UiMessage>,
}

/// The queue after `event` was added: alone where it has priority, else last.
pub open spec fn with_event(events: Seq<Event>, event: Event) -> Seq<Event> {
    if event.is_priority {
        seq![event]
    } else {
        events.push(event)
    }
}

/// `new` is `old` with the notice `e` queued.
pub open spec fn logged(old: Seq<Event>, new: Seq<Event>, log_type: LogType, message: Seq<char>, duration_secs: nat, is_priority: bool) -> bool {
    &&& new.len() > 0
    &&& new == with_event(old, new.last())
    &&& new.last().fresh(log_type, message, duration_secs, is_priority)
}

/// What accepting the pending challenge does: the acceptance goes to the
/// outbox; with no challenge pending, an error notice is queued instead.
pub open spec fn challenge_accepted(old: App, new: App) -> bool {
    &&& new.current_tab == old.current_tab
    &&& new.state == old.state
    &&& new.current_user == old.current_user
    &&& match old.state.challenge {
        Some(c) => {
            &&& new.outbox@ == old.outbox@.push(UiMessage::AcceptChallenge { user_id: c.opponent_id })
            &&& new.events == old.events
        },
        None => {
            &&& new.outbox == old.outbox
            &&& logged(old.events@, new.events@, LogType::Error, "No active challenges to accept"@, 1, false)
        },
    }
}

impl App {
    /// The client as it starts: on the menu, nothing known yet.
    pub fn new() -> (r: Self)
        ensures
            r.current_tab == Tab::Menu,
            r.current_user is None,
            r.events@.len() == 0,
            r.outbox@.len() == 0,
            r.state.cursor_position == 0,
            r.state.challenge is None,
            r.state.game is None,
            r.state.players.items@.len() == 0,
    {
        App {
            current_tab: Tab::default(),
            events: VecDeque::new(),
            current_user: None,
            state: State::default(),
            outbox: Vec::new(),
        }
    }

    /// Queues a notice; a priority notice drops the ones before it.
    pub fn add_log_event(&mut self, event: Event)
        ensures
            final(self).events@ == with_event(old(self).events@, event),
            final(self).current_tab == old(self).current_tab,
            final(self).state == old(self).state,
            final(self).current_user == old(self).current_user,
            final(self).outbox == old(self).outbox,
    {
        if event.is_priority {
            self.events.clear();
        }
        self.events.push_back(event);
        assert(self.events@ =~= with_event(old(self).events@, event));
    }

    /// Accepts the pending challenge, or tells the player there is none.
    pub fn accept_current_challenge(&mut self)
        ensures
            challenge_accepted(*old(self), *final(self)),
    {
        match &self.state.challenge {
            Some(challenge_data) => {
                let message = UiMessage::AcceptChallenge { user_id: challenge_data.opponent_id.clone() };
                self.outbox.push(message);
            },
            None => {
                let invalid_action_error = Event::error("No active challenges to accept", 1, false);
                self.add_log_event(invalid_action_error);
            },
        }
    }
}

} // verus!
