//! The chat message that the relay carries.

use vstd::prelude::*;

verus! {

/// Longest room name, in characters.
pub const MAX_ROOM_CHARS: usize = 30;

/// Longest user name, in characters.
pub const MAX_USERNAME_CHARS: usize = 20;

/// What a message is to the contracts: its four texts as character sequences.
pub struct MessageView {
    pub room: Seq<char>,
    pub username: Seq<char>,
    pub message: Seq<char>,
    pub avatar_style: Seq<char>,
}

impl MessageView {
    /// What validation says of a message: the first limit that it breaks,
    /// the room's before the user name's, or that it breaks none.
    pub open spec fn check(self) -> Result<(), ValidationError> {
        if self.room.len() > MAX_ROOM_CHARS {
            Err(ValidationError::RoomTooLong)
        } else if self.username.len() > MAX_USERNAME_CHARS {
            Err(ValidationError::UsernameTooLong)
        } else {
            Ok(())
        }
    }
}

/// Why a message is refused before it reaches the hub.
#[derive(Clone, Copy, Debug, PartialEq, Eq)]
pub enum ValidationError {
    /// The room name has more than `MAX_ROOM_CHARS` characters.
    RoomTooLong,
    /// The user name has more than `MAX_USERNAME_CHARS` characters.
    UsernameTooLong,
}

/// One chat message. It has no identity beyond its content.
#[derive(Debug, PartialEq, Eq)]
pub struct Message {
    pub room: String,
    pub username: String,
    pub message: String,
    pub avatar_style: String,
}

impl View for Message {
    type V = MessageView;

    open spec fn view(&self) -> MessageView {
        MessageView {
            room: self.room@,
            username: self.username@,
            message: self.message@,
            avatar_style: self.avatar_style@,
        }
    }
}

impl Message {
    /// Checks the limits on the room name and the user name.
    pub fn validate(&self) -> (outcome: Result<(), ValidationError>)
        ensures
            outcome == self@.check(),
    {
        if self.room.as_str().unicode_len() > MAX_ROOM_CHARS {
            Err(ValidationError::RoomTooLong)
        } else if self.username.as_str().unicode_len() > MAX_USERNAME_CHARS {
            Err(ValidationError::UsernameTooLong)
        } else {
            Ok(())
        }
    }

    /// Builds a message from its four texts, if it passes validation.
    pub fn new(room: &str, username: &str, message: &str, avatar_style: &str) -> (outcome: Result<
        Message,
        ValidationError,
    >)
        ensures
            match outcome {
                Ok(msg) => {
                    &&& msg@.check() is Ok
                    &&& msg@.room == room@
                    &&& msg@.username == username@
                    &&& msg@.message == message@
                    &&& msg@.avatar_style == avatar_style@
                },
                Err(error) => (MessageView {
                    room: room@,
                    username: username@,
                    message: message@,
                    avatar_style: avatar_style@,
                }).check() == Err::<(), ValidationError>(error),
            },
    {
        let msg = Message {
            room: room.to_owned(),
            username: username.to_owned(),
            message: message.to_owned(),
            avatar_style: avatar_style.to_owned(),
        };
        match msg.validate() {
            Ok(()) => Ok(msg),
            Err(error) => Err(error),
        }
    }
}

/// The views of a sequence of messages, in the same order.
pub open spec fn views(msgs: Seq<Message>) -> Seq<MessageView> {
    Seq::new(msgs.len(), |i: int| msgs[i]@)
}

impl Clone for Message {
    fn clone(&self) -> (copy: Self)
        ensures
            copy == *self,
    {
        Message {
            room: self.room.clone(),
            username: self.username.clone(),
            message: self.message.clone(),
            avatar_style: self.avatar_style.clone(),
        }
    }
}

} // verus!
