//! What the client reads out of a frame's JSON, and what can go wrong.

use serde_json::Value;
use vstd::prelude::*;
use crate::json::{
    as_bool, as_integer, as_text, bool_of, integer_of, json_of, json_shown, member, member_of,
    show_json, text_of, Json,
};
use crate::text::{join, opt_text, signed_decimal, signed_decimal_text};

verus! {

/// The text member `key` of a value.
pub open spec fn text_member(value: Json, key: Seq<char>) -> Option<Seq<char>> {
    match member_of(value, key) {
        Some(found) => text_of(found),
        None => None,
    }
}

/// The member `key` of a value's member `data`.
pub open spec fn data_member(value: Json, key: Seq<char>) -> Option<Json> {
    match member_of(value, "data"@) {
        Some(data) => member_of(data, key),
        None => None,
    }
}

/// A frame's JSON, as far as the client looks at it.
#[derive(Debug)]
pub struct Message {
    /// `evt`
    pub event: Option<String>,
    /// `nonce`, which ties a reply to its request.
    pub nonce: Option<String>,
    /// `data.message`
    pub error_message: Option<String>,
    /// `data.code`, where it is a number.
    pub error_code: Option<i64>,
    /// `data.code`, where it is a text.
    pub code: Option<String>,
    /// `data.mute`
    pub mute: Option<bool>,
    /// `data.deaf`
    pub deaf: Option<bool>,
    /// All of it, for error messages.
    pub shown: String,
}

/// A `Message` as contracts speak of it.
#[verifier::ext_equal]
pub struct MessageView {
    pub event: Option<Seq<char>>,
    pub nonce: Option<Seq<char>>,
    pub error_message: Option<Seq<char>>,
    pub error_code: Option<i64>,
    pub code: Option<Seq<char>>,
    pub mute: Option<bool>,
    pub deaf: Option<bool>,
    pub shown: Seq<char>,
}

impl View for Message {
    type V = MessageView;

    open spec fn view(&self) -> MessageView {
        MessageView {
            event: opt_text(self.event),
            nonce: opt_text(self.nonce),
            error_message: opt_text(self.error_message),
            error_code: self.error_code,
            code: opt_text(self.code),
            mute: self.mute,
            deaf: self.deaf,
            shown: self.shown@,
        }
    }
}

/// What a JSON value says to the client.
pub open spec fn message_of(value: Json) -> MessageView {
    MessageView {
        event: text_member(value, "evt"@),
        nonce: text_member(value, "nonce"@),
        error_message: match data_member(value, "message"@) {
            Some(found) => text_of(found),
            None => None,
        },
        error_code: match data_member(value, "code"@) {
            Some(found) => integer_of(found),
            None => None,
        },
        code: match data_member(value, "code"@) {
            Some(found) => text_of(found),
            None => None,
        },
        mute: match data_member(value, "mute"@) {
            Some(found) => bool_of(found),
            None => None,
        },
        deaf: match data_member(value, "deaf"@) {
            Some(found) => bool_of(found),
            None => None,
        },
        shown: json_shown(value),
    }
}

fn owned_text(value: Option<&Value>) -> (r: Option<String>)
    ensures
        opt_text(r) == match value {
            Some(found) => text_of(json_of(*found)),
            None => None,
        },
{
    match value {
        Some(found) => match as_text(found) {
            Some(text) => Some(text.to_owned()),
            None => None,
        },
        None => None,
    }
}

fn truth(value: Option<&Value>) -> (r: Option<bool>)
    ensures
        r == match value {
            Some(found) => bool_of(json_of(*found)),
            None => None,
        },
{
    match value {
        Some(found) => as_bool(found),
        None => None,
    }
}

fn data<'a>(value: &'a Value, key: &str) -> (r: Option<&'a Value>)
    ensures
        match r {
            Some(found) => data_member(json_of(*value), key@) == Some(json_of(*found)),
            None => data_member(json_of(*value), key@) is None,
        },
{
    match member(value, "data") {
        Some(data) => member(data, key),
        None => None,
    }
}

impl Message {
    /// Reads a frame's JSON.
    pub fn read(value: &Value) -> (r: Message)
        ensures
            r@ == message_of(json_of(*value)),
    {
        let error_code = match data(value, "code") {
            Some(found) => as_integer(found),
            None => None,
        };
        Message {
            event: owned_text(member(value, "evt")),
            nonce: owned_text(member(value, "nonce")),
            error_message: owned_text(data(value, "message")),
            error_code,
            code: owned_text(data(value, "code")),
            mute: truth(data(value, "mute")),
            deaf: truth(data(value, "deaf")),
            shown: show_json(value),
        }
    }
}

/// What can go wrong between the client and Discord.
#[derive(Debug)]
pub enum IpcError {
    /// A value could not be turned into JSON.
    Encode,
    /// A frame's body was not JSON.
    Decode,
    NegativeLength(i32),
    /// The handshake was answered by something else.
    NotReady(String),
    /// Discord hung up.
    Closed(String),
    UnsupportedOpcode(i32, String),
    /// Discord answered with an error.
    Rpc { message: String, code: Option<i64> },
    MissingCode(String),
    MissingMute(String),
    MissingDeaf(String),
}

/// An `IpcError` as contracts speak of it.
pub enum IpcErrorView {
    Encode,
    Decode,
    NegativeLength(i32),
    NotReady(Seq<char>),
    Closed(Seq<char>),
    UnsupportedOpcode(i32, Seq<char>),
    Rpc { message: Seq<char>, code: Option<i64> },
    MissingCode(Seq<char>),
    MissingMute(Seq<char>),
    MissingDeaf(Seq<char>),
}

impl View for IpcError {
    type V = IpcErrorView;

    open spec fn view(&self) -> IpcErrorView {
        match self {
            IpcError::Encode => IpcErrorView::Encode,
            IpcError::Decode => IpcErrorView::Decode,
            IpcError::NegativeLength(len) => IpcErrorView::NegativeLength(*len),
            IpcError::NotReady(shown) => IpcErrorView::NotReady(shown@),
            IpcError::Closed(shown) => IpcErrorView::Closed(shown@),
            IpcError::UnsupportedOpcode(opcode, shown) => IpcErrorView::UnsupportedOpcode(
                *opcode,
                shown@,
            ),
            IpcError::Rpc { message, code } => IpcErrorView::Rpc { message: message@, code: *code },
            IpcError::MissingCode(shown) => IpcErrorView::MissingCode(shown@),
            IpcError::MissingMute(shown) => IpcErrorView::MissingMute(shown@),
            IpcError::MissingDeaf(shown) => IpcErrorView::MissingDeaf(shown@),
        }
    }
}

/// How an error reads.
pub open spec fn error_text(error: IpcErrorView) -> Seq<char> {
    match error {
        IpcErrorView::Encode => "failed to encode Discord IPC JSON"@,
        IpcErrorView::Decode => "failed to decode Discord IPC JSON"@,
        IpcErrorView::NegativeLength(len) => "Discord IPC frame had a negative length: "@
            + signed_decimal_text(len as int),
        IpcErrorView::NotReady(shown) => "Discord IPC did not return READY after handshake: "@
            + shown,
        IpcErrorView::Closed(shown) => "Discord closed the IPC connection: "@ + shown,
        IpcErrorView::UnsupportedOpcode(opcode, shown) =>
            "received unsupported Discord IPC opcode "@ + signed_decimal_text(opcode as int)
            + ": "@ + shown,
        IpcErrorView::Rpc { message, code } => match code {
            Some(code) => message + " (code "@ + signed_decimal_text(code as int) + ")"@,
            None => message,
        },
        IpcErrorView::MissingCode(shown) =>
            "Discord AUTHORIZE response did not contain data.code: "@ + shown,
        IpcErrorView::MissingMute(shown) => "Discord response did not contain data.mute: "@ + shown,
        IpcErrorView::MissingDeaf(shown) => "Discord response did not contain data.deaf: "@ + shown,
    }
}

impl IpcError {
    /// How the error reads.
    pub fn message(&self) -> (r: String)
        ensures
            r@ == error_text(self@),
    {
        match self {
            IpcError::Encode => "failed to encode Discord IPC JSON".to_owned(),
            IpcError::Decode => "failed to decode Discord IPC JSON".to_owned(),
            IpcError::NegativeLength(len) => join(
                "Discord IPC frame had a negative length: ",
                signed_decimal(*len as i64).as_str(),
            ),
            IpcError::NotReady(shown) => join(
                "Discord IPC did not return READY after handshake: ",
                shown.as_str(),
            ),
            IpcError::Closed(shown) => join(
                "Discord closed the IPC connection: ",
                shown.as_str(),
            ),
            IpcError::UnsupportedOpcode(opcode, shown) => {
                let mut out = join(
                    "received unsupported Discord IPC opcode ",
                    signed_decimal(*opcode as i64).as_str(),
                );
                out.append(": ");
                out.append(shown.as_str());
                out
            },
            IpcError::Rpc { message, code } => match code {
                Some(code) => {
                    let mut out = join(message.as_str(), " (code ");
                    out.append(signed_decimal(*code).as_str());
                    out.append(")");
                    out
                },
                None => message.clone(),
            },
            IpcError::MissingCode(shown) => join(
                "Discord AUTHORIZE response did not contain data.code: ",
                shown.as_str(),
            ),
            IpcError::MissingMute(shown) => join(
                "Discord response did not contain data.mute: ",
                shown.as_str(),
            ),
            IpcError::MissingDeaf(shown) => join(
                "Discord response did not contain data.deaf: ",
                shown.as_str(),
            ),
        }
    }
}

/// Whether Discord answered with an error.
pub open spec fn is_error(message: MessageView) -> bool {
    message.event == Some("ERROR"@)
}

/// The error that a message reports.
pub open spec fn error_of(message: MessageView) -> IpcErrorView {
    IpcErrorView::Rpc {
        message: match message.error_message {
            Some(text) => text,
            None => "Discord returned an RPC error"@,
        },
        code: message.error_code,
    }
}

/// Makes an error of what Discord says went wrong.
pub fn discord_error(message: &Message) -> (r: IpcError)
    ensures
        r@ == error_of(message@),
{
    let text = match &message.error_message {
        Some(text) => text.clone(),
        None => "Discord returned an RPC error".to_owned(),
    };
    IpcError::Rpc { message: text, code: message.error_code }
}

} // verus!
