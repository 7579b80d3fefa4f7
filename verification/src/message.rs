//! The messages that pass between a gateway and the agent.
use vstd::prelude::*;

verus! {

/// What a gateway keeps of a message so that a reply can find its way back.
///
/// Each field is one string-valued key of the context that the platform gave; a key that is
/// absent, or not a string there, is `None`.
#[derive(Debug, Clone, PartialEq, Eq)]
pub struct MessageContext {
    /// WeChat: the token that threads a reply into the conversation.
    pub context_token: Option<String>,
    /// QQ: `guild`, `group`, `c2c` or `dm`.
    pub msg_type: Option<String>,
    /// QQ: the id of the message to reply to.
    pub msg_id: Option<String>,
    /// QQ guild messages: the channel.
    pub channel_id: Option<String>,
    /// QQ group messages: the group.
    pub group_openid: Option<String>,
    /// QQ direct messages: the guild.
    pub guild_id: Option<String>,
}

impl MessageContext {
    /// The context with no keys.
    pub fn empty() -> (r: MessageContext)
        ensures
            r.context_token is None,
            r.msg_type is None,
            r.msg_id is None,
            r.channel_id is None,
            r.group_openid is None,
            r.guild_id is None,
    {
        MessageContext {
            context_token: None,
            msg_type: None,
            msg_id: None,
            channel_id: None,
            group_openid: None,
            guild_id: None,
        }
    }
}

/// A message that a gateway received, in the form that every platform shares.
#[derive(Debug, Clone, PartialEq, Eq)]
pub struct IncomingMessage {
    pub session_id: String,
    pub sender_id: String,
    pub sender_name: String,
    pub content: String,
    pub platform: String,
    pub timestamp: i64,
    /// Platform-specific context for replying (e.g. WeChat context_token).
    pub context: MessageContext,
}

/// A message to send through a gateway.
#[derive(Debug, Clone, PartialEq, Eq)]
pub struct OutgoingMessage {
    pub session_id: String,
    pub content: String,
    /// The context of the message that this one answers.
    pub context: MessageContext,
}

/// The view of an optional string.
pub open spec fn opt_view(o: Option<String>) -> Option<Seq<char>> {
    match o {
        Some(s) => Some(s@),
        None => None,
    }
}

/// The view of an optional string, or `default` where there is none.
pub open spec fn view_or(o: Option<String>, default: Seq<char>) -> Seq<char> {
    match o {
        Some(s) => s@,
        None => default,
    }
}

/// The string in `o`, or a copy of `default` where there is none.
pub fn string_or(o: &Option<String>, default: &str) -> (r: String)
    ensures
        r@ == view_or(*o, default@),
{
    match o {
        Some(s) => s.clone(),
        None => default.to_string(),
    }
}

} // verus!
