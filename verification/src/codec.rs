//! The line codec for the chat wire protocol.
//!
//! Encoding and parsing of the textual protocol lines is delegated to the
//! `twitch_message` crate. Each encoder's output is stated exactly, as the
//! crate's own sources show it; what `parse` returns is given the name
//! `parsed_of`, and the transport logic that consumes a parsed message is
//! verified for every possible value of it.

use vstd::prelude::*;

use twitch_message::encode::{join, ping, pong, privmsg, register, reply, Formattable};
use twitch_message::messages::TwitchMessage::{
    GlobalUserState as TmWelcome, Ping as TmPing, Pong as TmPong, Privmsg as TmChat,
    Ready as TmReady,
};
use twitch_message::Color;

use self::ParsedMessage::{Chat, Invalid, Other, Ping, Pong, Ready, Welcome};

verus! {

/// One inbound chat-protocol message, reduced to the kinds the transport
/// manager dispatches on.
#[derive(Clone, Debug, PartialEq)]
pub enum ParsedMessage {
    /// A chat post by a user, to be forwarded on the internal bus.
    Chat(ChatMessage),
    /// A server liveness probe carrying the token a pong must reflect.
    Ping(String),
    /// The server's answer to one of our own liveness probes, carrying
    /// the token it reflects.
    Pong(String),
    /// The server's ready message carrying our assigned identity.
    Ready(String),
    /// The server's welcome message: registration is complete and the
    /// channel can be joined.
    Welcome,
    /// A recognised message the transport does not act on.
    Other,
    /// The line did not parse: a protocol violation.
    Invalid,
}

/// A chat post as republished on the internal bus.
#[derive(Clone, Debug, PartialEq)]
pub struct ChatMessage {
    pub sender: String,
    pub channel: String,
    pub data: String,
    pub msg_id: Option<String>,
    pub user_id: Option<String>,
    /// The sender's chosen color tag, as red, green and blue, when set.
    pub color: Option<(u8, u8, u8)>,
}

/// The channel name as it appears on the wire: a `#` is prepended when
/// the configured name lacks one.
pub open spec fn chan_of(channel: Seq<char>) -> Seq<char> {
    if channel.len() > 0 && channel[0] == '#' {
        channel
    } else {
        seq!['#'] + channel
    }
}

/// The wire form of our liveness probe.
pub open spec fn ping_line_of(token: Seq<char>) -> Seq<char> {
    "PING "@ + token + "\r\n"@
}

/// The wire form of the answer to a server probe.
pub open spec fn pong_line_of(token: Seq<char>) -> Seq<char> {
    "PONG :"@ + token + "\r\n"@
}

/// The wire form of the join command.
pub open spec fn join_line_of(channel: Seq<char>) -> Seq<char> {
    "JOIN "@ + chan_of(channel) + "\r\n"@
}

/// The wire form of a broadcast message to the channel.
pub open spec fn privmsg_line_of(channel: Seq<char>, data: Seq<char>) -> Seq<char> {
    "PRIVMSG "@ + chan_of(channel) + " :"@ + data + "\r\n"@
}

/// The wire form of a reply to an earlier message.
pub open spec fn reply_line_of(id: Seq<char>, channel: Seq<char>, data: Seq<char>) -> Seq<char> {
    "@reply-parent-msg-id="@ + id + " "@ + privmsg_line_of(channel, data)
}

/// The wire form of the registration handshake, requesting every
/// capability the protocol offers.
pub open spec fn register_lines_of(name: Seq<char>, pass: Seq<char>) -> Seq<char> {
    "CAP REQ twitch.tv/commands\r\nCAP REQ twitch.tv/membership\r\nCAP REQ twitch.tv/tags\r\nPASS "@
        + pass + "\r\nNICK "@ + name + "\r\n"@
}

/// What `twitch_message::parse` makes of a line; a function of the line alone.
pub uninterp spec fn parsed_of(line: Seq<char>) -> ParsedMessage;

/// Relies on twitch_message::encode::ping: formats `PING {token}\r\n`.
#[verifier::external_body]
pub fn encode_ping(token: &str) -> (r: String)
    ensures
        r@ == ping_line_of(token@),
{
    let mut out = String::new();
    let _ = ping(token).format(&mut out);
    out
}

/// Relies on twitch_message::encode::pong: formats `PONG :{token}\r\n`.
#[verifier::external_body]
pub fn encode_pong(token: &str) -> (r: String)
    ensures
        r@ == pong_line_of(token@),
{
    let mut out = String::new();
    let _ = pong(token).format(&mut out);
    out
}

/// Relies on twitch_message::encode::join: formats `JOIN {#}{channel}\r\n`,
/// prepending `#` when the channel name lacks one.
#[verifier::external_body]
pub fn encode_join(channel: &str) -> (r: String)
    ensures
        r@ == join_line_of(channel@),
{
    let mut out = String::new();
    let _ = join(channel).format(&mut out);
    out
}

/// Relies on twitch_message::encode::privmsg: formats
/// `PRIVMSG {#}{channel} :{data}\r\n`.
#[verifier::external_body]
pub fn encode_privmsg(channel: &str, data: &str) -> (r: String)
    ensures
        r@ == privmsg_line_of(channel@, data@),
{
    let mut out = String::new();
    let _ = privmsg(channel, data).format(&mut out);
    out
}

/// Relies on twitch_message::encode::reply: a privmsg line prefixed with
/// `@reply-parent-msg-id={id} `.
#[verifier::external_body]
pub fn encode_reply(id: &str, channel: &str, data: &str) -> (r: String)
    ensures
        r@ == reply_line_of(id@, channel@, data@),
{
    let mut out = String::new();
    let _ = reply(id, channel, data).format(&mut out);
    out
}

/// Relies on twitch_message::encode::register with ALL_CAPABILITIES: one
/// `CAP REQ` line per capability, then `PASS {pass}\r\nNICK {name}\r\n`.
#[verifier::external_body]
pub fn encode_register(name: &str, pass: &str) -> (r: String)
    ensures
        r@ == register_lines_of(name@, pass@),
{
    let mut out = String::new();
    let _ = register(name, pass, twitch_message::encode::ALL_CAPABILITIES).format(&mut out);
    out
}

/// Relies on twitch_message::parse: the result depends on the line alone.
/// The variants of the crate's message enum are told apart and their fields
/// moved into plain strings; kinds the transport ignores become `Other`.
#[verifier::external_body]
pub fn parse_line(line: &str) -> (r: ParsedMessage)
    ensures
        r == parsed_of(line@),
{
    let Ok(res) = twitch_message::parse(line) else { return Invalid };
    match res.message.as_enum() {
        TmChat(m) => Chat(ChatMessage {
            msg_id: m.msg_id().map(str::to_string), user_id: m.user_id().map(str::to_string),
            color: m.color().map(|Color(r, g, b)| (r, g, b)),
            sender: m.sender.to_string(), channel: m.channel.to_string(),
            data: m.data.to_string(),
        }),
        TmPing(m) => Ping(m.token.to_string()),
        TmPong(m) => Pong(m.token.to_string()),
        TmReady(m) => Ready(m.name.to_string()),
        TmWelcome(..) => Welcome,
        _ => Other,
    }
}

/// Relies on fastrand::alphanumeric: each call draws one random ASCII
/// alphanumeric character, so ten draws collect into a ten-character token.
#[verifier::external_body]
pub fn fresh_token() -> (r: String)
    ensures
        r@.len() == 10,
{
    std::iter::repeat_with(fastrand::alphanumeric).take(10).collect()
}

} // verus!
