//! The interactions that an authenticated request may carry, and the answer
//! to each.

use vstd::prelude::*;
use vstd::string::StringExecFns;

verus! {

/// The kind of an inbound interaction.
#[derive(Clone, Copy, Debug, PartialEq, Eq, Structural)]
pub enum InteractionRequestType {
    /// The platform checks that the endpoint is alive.
    Ping,
    /// A user invoked a command of the application.
    ApplicationCommand,
}

impl InteractionRequestType {
    /// The number that stands for this kind on the wire.
    pub open spec fn spec_code(self) -> u8 {
        match self {
            InteractionRequestType::Ping => 1,
            InteractionRequestType::ApplicationCommand => 2,
        }
    }

    /// The number that stands for this kind on the wire.
    pub fn code(&self) -> (code: u8)
        ensures
            code == self.spec_code(),
    {
        match self {
            InteractionRequestType::Ping => 1,
            InteractionRequestType::ApplicationCommand => 2,
        }
    }

    /// The kind that `code` stands for on the wire, if it stands for one.
    pub fn from_code(code: u8) -> (kind: Option<InteractionRequestType>)
        ensures
            match kind {
                Some(kind) => kind.spec_code() == code,
                None => code != 1 && code != 2,
            },
    {
        if code == 1 {
            Some(InteractionRequestType::Ping)
        } else if code == 2 {
            Some(InteractionRequestType::ApplicationCommand)
        } else {
            None
        }
    }
}

/// The kind of an answer to an interaction.
#[derive(Clone, Copy, Debug, PartialEq, Eq, Structural)]
pub enum InteractionResponseType {
    /// Acknowledges a ping.
    Pong,
    /// Answers with a message in the channel the interaction came from.
    ChannelMessageWithSource,
}

impl InteractionResponseType {
    /// The number that stands for this kind on the wire.
    pub open spec fn spec_code(self) -> u8 {
        match self {
            InteractionResponseType::Pong => 1,
            InteractionResponseType::ChannelMessageWithSource => 4,
        }
    }

    /// The number that stands for this kind on the wire.
    pub fn code(&self) -> (code: u8)
        ensures
            code == self.spec_code(),
    {
        match self {
            InteractionResponseType::Pong => 1,
            InteractionResponseType::ChannelMessageWithSource => 4,
        }
    }
}

impl Default for InteractionResponseType {
    fn default() -> (kind: Self)
        ensures
            kind == InteractionResponseType::Pong,
    {
        InteractionResponseType::Pong
    }
}

/// The user who caused an interaction.
#[derive(Clone, Debug, PartialEq, Eq)]
pub struct User {
    /// The user's name.
    pub username: String,
}

/// The membership under which a user caused an interaction.
#[derive(Clone, Debug, PartialEq, Eq)]
pub struct Member {
    /// The user, where the platform names one.
    pub user: Option<User>,
}

/// An inbound interaction, parsed from an authenticated body.
#[derive(Clone, Debug, PartialEq, Eq)]
pub struct InteractionRequest {
    /// What kind of interaction this is.
    pub kind: InteractionRequestType,
    /// Who caused it, where the platform says so.
    pub member: Option<Member>,
}

/// What an answer carries besides its kind.
#[derive(Clone, Debug, PartialEq, Eq)]
pub struct InteractionResponseData {
    /// The text of the message.
    pub content: Option<String>,
}

/// The answer to an interaction.
#[derive(Clone, Debug, PartialEq, Eq)]
pub struct InteractionResponse {
    /// What kind of answer this is.
    pub kind: InteractionResponseType,
    /// The payload; an acknowledgement has none.
    pub data: Option<InteractionResponseData>,
}

impl Default for InteractionResponse {
    fn default() -> (response: Self)
        ensures
            response.kind == InteractionResponseType::Pong,
            response.data is None,
    {
        InteractionResponse { kind: InteractionResponseType::Pong, data: None }
    }
}

impl InteractionRequest {
    /// The name of the user who caused the interaction; empty where the
    /// request names no member or no user.
    pub open spec fn username(self) -> Seq<char> {
        match self.member {
            Some(member) => match member.user {
                Some(user) => user.username@,
                None => Seq::empty(),
            },
            None => Seq::empty(),
        }
    }
}

/// The text that greets the user called `username`.
pub open spec fn greeting(username: Seq<char>) -> Seq<char> {
    "Hello, "@ + username
}

/// Answers an interaction. A ping is acknowledged with a pong that carries no
/// data; a command is answered with a channel message that greets the user by
/// name.
pub fn interactions(body: &InteractionRequest) -> (response: InteractionResponse)
    ensures
        match body.kind {
            InteractionRequestType::Ping => {
                &&& response.kind == InteractionResponseType::Pong
                &&& response.data is None
            },
            InteractionRequestType::ApplicationCommand => {
                &&& response.kind == InteractionResponseType::ChannelMessageWithSource
                &&& response.data matches Some(data)
                &&& data.content matches Some(content)
                &&& content@ == greeting(body.username())
            },
        },
{
    match body.kind {
        InteractionRequestType::Ping => InteractionResponse {
            kind: InteractionResponseType::Pong,
            data: None,
        },
        InteractionRequestType::ApplicationCommand => {
            let mut content = String::from_str("Hello, ");
            match &body.member {
                Some(member) => match &member.user {
                    Some(user) => {
                        content.append(user.username.as_str());
                    },
                    None => {},
                },
                None => {},
            }
            assert(content@ =~= greeting(body.username()));
            InteractionResponse {
                kind: InteractionResponseType::ChannelMessageWithSource,
                data: Some(InteractionResponseData { content: Some(content) }),
            }
        },
    }
}

} // verus!
