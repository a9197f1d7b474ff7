//! Messages that a server pushes to its subscribers.

use vstd::prelude::*;

use crate::response::value::{Scalar, ServerValue};

verus! {

/// What was pushed.
#[derive(Clone, Copy, Debug, PartialEq, Eq, Structural)]
pub enum PushKind {
    /// A message on a channel.
    Message,
    /// A message on a sharded channel.
    SMessage,
    /// A message on a channel that a pattern matched.
    PMessage,
    /// Anything that is no message.
    Other,
}

/// A message that was pushed.
#[derive(Debug)]
pub struct PushMessage {
    pub message: Vec<u8>,
    pub channel: Vec<u8>,
    /// The pattern that matched the channel, where there is one.
    pub pattern: Option<Vec<u8>>,
}

/// A message that was pushed, by its bytes.
pub struct PushMessageView {
    pub message: Seq<u8>,
    pub channel: Seq<u8>,
    pub pattern: Option<Seq<u8>>,
}

impl View for PushMessage {
    type V = PushMessageView;

    open spec fn view(&self) -> PushMessageView {
        PushMessageView {
            message: self.message@,
            channel: self.channel@,
            pattern: match self.pattern {
                Some(pattern) => Some(pattern@),
                None => None,
            },
        }
    }
}

/// The bytes of a bulk string; none of anything else.
pub open spec fn bytes_of(value: ServerValue) -> Seq<u8> {
    match value {
        ServerValue::Scalar(Scalar::BulkString(data)) => data@,
        _ => seq![],
    }
}

/// The message that was pushed: its channel before it, and the pattern before both. What is no
/// message, or lacks a part, is none.
pub open spec fn pushed_message(kind: PushKind, data: Seq<ServerValue>) -> Option<PushMessageView> {
    match kind {
        PushKind::Message | PushKind::SMessage => if data.len() >= 2 {
            Some(
                PushMessageView {
                    message: bytes_of(data[1]),
                    channel: bytes_of(data[0]),
                    pattern: None,
                },
            )
        } else {
            None
        },
        PushKind::PMessage => if data.len() >= 3 {
            Some(
                PushMessageView {
                    message: bytes_of(data[2]),
                    channel: bytes_of(data[1]),
                    pattern: Some(bytes_of(data[0])),
                },
            )
        } else {
            None
        },
        PushKind::Other => None,
    }
}

/// The bytes of a bulk string; none of anything else.
fn as_bytes(value: &ServerValue) -> (bytes: Vec<u8>)
    ensures
        bytes@ == bytes_of(*value),
{
    let mut bytes: Vec<u8> = Vec::new();
    match value {
        ServerValue::Scalar(Scalar::BulkString(data)) => {
            bytes.extend_from_slice(data.as_slice());
            assert(bytes@ =~= data@);
        },
        _ => {
            assert(bytes@ =~= seq![]);
        },
    }
    bytes
}

/// The message that was pushed, where it is one and complete.
pub fn handle_push_notification(kind: PushKind, data: &Vec<ServerValue>) -> (message: Option<
    PushMessage,
>)
    ensures
        match message {
            Some(message) => pushed_message(kind, data@) == Some(message@),
            None => pushed_message(kind, data@) is None,
        },
{
    match kind {
        PushKind::Message | PushKind::SMessage => {
            if data.len() >= 2 {
                Some(
                    PushMessage {
                        message: as_bytes(&data[1]),
                        channel: as_bytes(&data[0]),
                        pattern: None,
                    },
                )
            } else {
                None
            }
        },
        PushKind::PMessage => {
            if data.len() >= 3 {
                Some(
                    PushMessage {
                        message: as_bytes(&data[2]),
                        channel: as_bytes(&data[1]),
                        pattern: Some(as_bytes(&data[0])),
                    },
                )
            } else {
                None
            }
        },
        PushKind::Other => None,
    }
}

/// How a message is handed over: without its pattern where that could not be copied, and not at all
/// where the message, its channel or the method that takes it are missing.
pub fn push_call(
    message_copied: bool,
    channel_copied: bool,
    pattern_copied: bool,
    method_found: bool,
) -> (call: Option<bool>)
    ensures
        call == (if message_copied && channel_copied && method_found {
            Some(pattern_copied)
        } else {
            None
        }),
{
    if message_copied && channel_copied && method_found {
        Some(pattern_copied)
    } else {
        None
    }
}

/// Only a message on a matched channel has a pattern, and data that follows a complete message
/// makes no difference.
pub proof fn law_messages_are_read_from_the_front(
    kind: PushKind,
    data: Seq<ServerValue>,
    more: Seq<ServerValue>,
)
    requires
        pushed_message(kind, data) is Some,
    ensures
        pushed_message(kind, data + more) == pushed_message(kind, data),
        pushed_message(kind, data)->Some_0.pattern is Some <==> kind == PushKind::PMessage,
{
}

/// A message carries the bytes that were sent, each part in its place: a plain or sharded message
/// comes after its channel and has no pattern, and a matched one comes after its pattern and its
/// channel. A part that is no bulk string reads as empty.
pub proof fn law_messages_carry_what_was_sent(
    kind: PushKind,
    data: Seq<ServerValue>,
    channel: Vec<u8>,
    message: Vec<u8>,
    pattern: Vec<u8>,
)
    ensures
        kind != PushKind::PMessage && kind != PushKind::Other && data.len() >= 2 ==> {
            &&& pushed_message(kind, data) matches Some(pushed) && {
                &&& pushed.pattern is None
                &&& data[0] == ServerValue::Scalar(Scalar::BulkString(channel)) ==> pushed.channel
                    == channel@
                &&& data[1] == ServerValue::Scalar(Scalar::BulkString(message)) ==> pushed.message
                    == message@
                &&& !(data[0] matches ServerValue::Scalar(scalar) && scalar is BulkString)
                    ==> pushed.channel.len() == 0
                &&& !(data[1] matches ServerValue::Scalar(scalar) && scalar is BulkString)
                    ==> pushed.message.len() == 0
            }
        },
        kind == PushKind::PMessage && data.len() >= 3 ==> {
            &&& pushed_message(kind, data) matches Some(pushed) && {
                &&& pushed.pattern is Some
                &&& data[0] == ServerValue::Scalar(Scalar::BulkString(pattern))
                    ==> pushed.pattern.unwrap() == pattern@
                &&& data[1] == ServerValue::Scalar(Scalar::BulkString(channel)) ==> pushed.channel
                    == channel@
                &&& data[2] == ServerValue::Scalar(Scalar::BulkString(message)) ==> pushed.message
                    == message@
                &&& !(data[0] matches ServerValue::Scalar(scalar) && scalar is BulkString)
                    ==> pushed.pattern.unwrap().len() == 0
                &&& !(data[1] matches ServerValue::Scalar(scalar) && scalar is BulkString)
                    ==> pushed.channel.len() == 0
                &&& !(data[2] matches ServerValue::Scalar(scalar) && scalar is BulkString)
                    ==> pushed.message.len() == 0
            }
        },
        pushed_message(kind, data) is None <==> ({
            ||| kind == PushKind::Other
            ||| data.len() < 2
            ||| kind == PushKind::PMessage && data.len() < 3
        }),
{
}

/// A sharded message reads as the plain message with the same data, and a matched one as the plain
/// message with what follows its pattern.
pub proof fn law_kinds_of_messages_agree(data: Seq<ServerValue>, pattern: ServerValue)
    ensures
        pushed_message(PushKind::SMessage, data) == pushed_message(PushKind::Message, data),
        pushed_message(PushKind::PMessage, seq![pattern] + data) is Some <==> pushed_message(
            PushKind::Message,
            data,
        ) is Some,
        pushed_message(PushKind::Message, data) matches Some(plain) ==> {
            &&& pushed_message(PushKind::PMessage, seq![pattern] + data) matches Some(matched)
                && matched.message == plain.message && matched.channel == plain.channel
        },
        pushed_message(PushKind::Other, data) is None,
{
    assert(data.len() >= 1 ==> (seq![pattern] + data)[1] == data[0]);
    assert(data.len() >= 2 ==> (seq![pattern] + data)[2] == data[1]);
}

/// A message shows the bytes that it holds.
pub proof fn law_message_shows_its_parts(message: PushMessage)
    ensures
        message@.message == message.message@,
        message@.channel == message.channel@,
        message@.pattern is Some <==> message.pattern is Some,
        message.pattern matches Some(pattern) ==> message@.pattern == Some(pattern@),
{
}

} // verus!
