//! Inbound events: the fields of a decoded delivery, and the closed set of
//! events that the service reacts to.
use vstd::prelude::*;
use crate::text::text_eq;

verus! {

/// The message body of a decoded event.
pub struct RawMessage {
    pub id: String,
    pub message_type: String,
    pub text: Option<String>,
}

/// The postback body of a decoded event.
pub struct RawPostback {
    pub data: Option<String>,
}

/// One event of a delivery, as the platform sends it.
pub struct RawEvent {
    pub event_type: String,
    pub reply_token: Option<String>,
    pub user_id: Option<String>,
    pub message: Option<RawMessage>,
    pub postback: Option<RawPostback>,
}

/// An event the service reacts to, with the fields its handler reads.
pub enum InboundEvent {
    /// A text message.
    Text { reply_token: String, text: String },
    /// An image message; `user_id` is the sender, where the source names one.
    Image { reply_token: String, user_id: Option<String>, message_id: String },
    /// A postback, with its callback data where the platform sent some.
    Postback { reply_token: String, data: Option<String> },
    /// Anything else: no reply is sent.
    Ignored,
}

/// A message event with a reply token and a message body of `kind`.
pub open spec fn is_message_of(raw: &RawEvent, kind: Seq<char>) -> bool {
    &&& raw.event_type@ == "message"@
    &&& raw.reply_token is Some
    &&& raw.message matches Some(m) && m.message_type@ == kind
}

/// The event that the router makes of a decoded one: text and image messages
/// and postbacks, each only with a reply token and its body; a text message
/// only with its text.
pub open spec fn classify_spec(raw: &RawEvent) -> InboundEvent {
    if is_message_of(raw, "text"@) && raw.message->Some_0.text is Some {
        InboundEvent::Text {
            reply_token: raw.reply_token->Some_0,
            text: raw.message->Some_0.text->Some_0,
        }
    } else if is_message_of(raw, "image"@) {
        InboundEvent::Image {
            reply_token: raw.reply_token->Some_0,
            user_id: raw.user_id,
            message_id: raw.message->Some_0.id,
        }
    } else if raw.event_type@ == "postback"@ && raw.reply_token is Some && raw.postback is Some {
        InboundEvent::Postback {
            reply_token: raw.reply_token->Some_0,
            data: raw.postback->Some_0.data,
        }
    } else {
        InboundEvent::Ignored
    }
}

fn clone_opt(o: &Option<String>) -> (r: Option<String>)
    ensures
        r == *o,
{
    match o {
        Some(s) => Some(s.clone()),
        None => None,
    }
}

/// Routes a decoded event by its type and, for messages, by the message type.
/// Events without a reply token, message events without a body and text
/// messages without text are ignored.
pub fn classify_event(raw: &RawEvent) -> (r: InboundEvent)
    ensures
        r == classify_spec(raw),
{
    proof {
        reveal_strlit("message");
        reveal_strlit("postback");
        reveal_strlit("text");
        reveal_strlit("image");
        assert("message"@[0] != "postback"@[0]);
        assert("text"@[0] != "image"@[0]);
    }
    let token = match &raw.reply_token {
        Some(t) => t,
        None => return InboundEvent::Ignored,
    };
    if text_eq(raw.event_type.as_str(), "message") {
        match &raw.message {
            Some(m) => {
                if text_eq(m.message_type.as_str(), "text") {
                    match &m.text {
                        Some(t) => InboundEvent::Text { reply_token: token.clone(), text: t.clone() },
                        None => InboundEvent::Ignored,
                    }
                } else if text_eq(m.message_type.as_str(), "image") {
                    InboundEvent::Image {
                        reply_token: token.clone(),
                        user_id: clone_opt(&raw.user_id),
                        message_id: m.id.clone(),
                    }
                } else {
                    InboundEvent::Ignored
                }
            },
            None => InboundEvent::Ignored,
        }
    } else if text_eq(raw.event_type.as_str(), "postback") {
        match &raw.postback {
            Some(p) => InboundEvent::Postback { reply_token: token.clone(), data: clone_opt(&p.data) },
            None => InboundEvent::Ignored,
        }
    } else {
        InboundEvent::Ignored
    }
}

} // verus!
