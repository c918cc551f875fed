//! The messages that client and server exchange, and the values they carry.
use vstd::prelude::*;

verus! {

/// Whether a connected user can take a new challenge.
#[derive(Clone, Copy, Debug, PartialEq, Eq, Structural)]
pub enum UserStatus {
    Available,
    Busy,
}

/// The public profile of a connected user.
#[derive(Clone, Debug, PartialEq, Eq)]
pub struct User {
    pub id: String,
    pub status: UserStatus,
    pub display_name: String,
}

/// A profile as a mathematical value.
pub struct UserView {
    pub id: Seq<char>,
    pub status: UserStatus,
    pub display_name: Seq<char>,
}

impl View for User {
    type V = UserView;

    open spec fn view(&self) -> UserView {
        UserView { id: self.id@, status: self.status, display_name: self.display_name@ }
    }
}

/// The profiles of a list, in order.
pub open spec fn users_view(users: Seq<User>) -> Seq<UserView> {
    users.map_values(|u: User| u@)
}

impl User {
    /// A field-by-field copy of the profile.
    pub fn copy(&self) -> (r: User)
        ensures
            r == *self,
    {
        User { id: self.id.clone(), status: self.status, display_name: self.display_name.clone() }
    }
}

/// Copies a list of profiles, keeping their order.
pub fn copy_users(users: &Vec<User>) -> (r: Vec<User>)
    ensures
        r@ == users@,
{
    let mut r: Vec<User> = Vec::new();
    let mut i: usize = 0;
    while i < users.len()
        invariant
            i <= users@.len(),
            r@ == users@.subrange(0, i as int),
        decreases users@.len() - i,
    {
        r.push(users[i].copy());
        i = i + 1;
    }
    assert(r@ =~= users@);
    r
}

/// What the server sends to a client, one message per text frame.
#[derive(Clone, Debug, PartialEq, Eq)]
pub enum WSServerMessage {
    /// The whole roster of connected users; it replaces the previous one.
    UserStatus { connected_users: Vec<User> },
    /// The identity the server assigned to this connection.
    SuccessfulConnection { user: User },
    /// Another user challenges the receiver.
    RequestForChallenge { from_user: User },
    /// A failure notice, to be shown to the player.
    Error { message: String },
    /// A match was created; it runs from `starts_at` (Unix time, in seconds).
    GameInit { game_id: String, prompt_text: String, starts_at: u64 },
    /// The match runs now.
    GameStart,
    /// Progress of both racers, from the receiver's point of view.
    GameUpdate { my_progress: u16, opponent_progress: u16 },
}

/// A server message as a mathematical value.
pub enum ServerMessageView {
    UserStatus { connected_users: Seq<UserView> },
    SuccessfulConnection { user: UserView },
    RequestForChallenge { from_user: UserView },
    Error { message: Seq<char> },
    GameInit { game_id: Seq<char>, prompt_text: Seq<char>, starts_at: u64 },
    GameStart,
    GameUpdate { my_progress: u16, opponent_progress: u16 },
}

impl View for WSServerMessage {
    type V = ServerMessageView;

    open spec fn view(&self) -> ServerMessageView {
        match self {
            WSServerMessage::UserStatus { connected_users } => ServerMessageView::UserStatus {
                connected_users: users_view(connected_users@),
            },
            WSServerMessage::SuccessfulConnection { user } => {
                ServerMessageView::SuccessfulConnection { user: user@ }
            },
            WSServerMessage::RequestForChallenge { from_user } => {
                ServerMessageView::RequestForChallenge { from_user: from_user@ }
            },
            WSServerMessage::Error { message } => ServerMessageView::Error { message: message@ },
            WSServerMessage::GameInit { game_id, prompt_text, starts_at } => {
                ServerMessageView::GameInit {
                    game_id: game_id@,
                    prompt_text: prompt_text@,
                    starts_at: *starts_at,
                }
            },
            WSServerMessage::GameStart => ServerMessageView::GameStart,
            WSServerMessage::GameUpdate { my_progress, opponent_progress } => {
                ServerMessageView::GameUpdate {
                    my_progress: *my_progress,
                    opponent_progress: *opponent_progress,
                }
            },
        }
    }
}

impl WSServerMessage {
    /// A copy of the message, equal to it in value.
    pub fn copy(&self) -> (r: WSServerMessage)
        ensures
            r@ == self@,
    {
        match self {
            WSServerMessage::UserStatus { connected_users } => {
                WSServerMessage::UserStatus { connected_users: copy_users(connected_users) }
            },
            WSServerMessage::SuccessfulConnection { user } => {
                WSServerMessage::SuccessfulConnection { user: user.copy() }
            },
            WSServerMessage::RequestForChallenge { from_user } => {
                WSServerMessage::RequestForChallenge { from_user: from_user.copy() }
            },
            WSServerMessage::Error { message } => WSServerMessage::Error { message: message.clone() },
            WSServerMessage::GameInit { game_id, prompt_text, starts_at } => {
                WSServerMessage::GameInit {
                    game_id: game_id.clone(),
                    prompt_text: prompt_text.clone(),
                    starts_at: *starts_at,
                }
            },
            WSServerMessage::GameStart => WSServerMessage::GameStart,
            WSServerMessage::GameUpdate { my_progress, opponent_progress } => {
                WSServerMessage::GameUpdate {
                    my_progress: *my_progress,
                    opponent_progress: *opponent_progress,
                }
            },
        }
    }
}

/// What a client sends to the server, one message per text frame.
#[derive(Clone, Debug, PartialEq, Eq)]
pub enum WSClientMessage {
    /// Challenge the user with this id.
    Challenge { to_user_id: String },
    /// Accept the challenge that this user raised.
    AcceptChallenge { opponent_user_id: String },
    /// The sender's progress (a percentage) in the given match.
    UpdateProgress { game_id: String, progress: u16 },
}

/// The phase of a match.
#[derive(Clone, Copy, Debug, PartialEq, Eq, Structural)]
pub enum GameStatus {
    Init,
    InProgress,
    Finished,
}

} // verus!
