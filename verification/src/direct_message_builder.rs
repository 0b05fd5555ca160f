use crate::error::MessageBuilderError;
use crate::headers::{
    empty_headers, header_fields_ok, with_created_time, with_expires_time, with_from, with_id,
    with_to, CommonHeaders, HeaderState,
};
use crate::json::{json_object, json_rep, json_string, obj_empty, JsonData};
use vstd::prelude::*;

verus! {

/// The state of a direct-message builder, as the contracts see it.
pub struct DirectState {
    pub headers: HeaderState,
    pub message: Option<Seq<char>>,
}

/// The fixed type URI of a direct (plain text) message.
pub open spec fn basic_message_type() -> Seq<char> {
    "https://didcomm.org/basicmessage/2.0/message"@
}

/// The body of a direct message: an object carrying the text under "content".
pub open spec fn direct_body(content: Seq<char>) -> JsonData {
    JsonData::Obj(obj_empty().insert("content"@, JsonData::Str(content)))
}

/// What a finished direct message looks like for the builder state it came
/// from: the shared headers, the fixed type URI, the one-field body, and no
/// attachments.
pub open spec fn direct_message_ok(s: DirectState, m: didcomm::Message) -> bool {
    &&& header_fields_ok(s.headers, m)
    &&& m.type_@ == basic_message_type()
    &&& (s.message matches Some(c) && json_rep(m.body) == direct_body(c))
    &&& m.attachments is None
}

/// Builder for creating a DIDComm message for direct messages.
#[derive(Debug, Clone)]
pub struct DirectMessageBuilder {
    headers: CommonHeaders,
    message: Option<String>,
}

impl View for DirectMessageBuilder {
    type V = DirectState;

    closed spec fn view(&self) -> DirectState {
        DirectState { headers: self.headers@, message: self.message.deep_view() }
    }
}

impl DirectMessageBuilder {
    /// Creates a new instance of the builder.
    pub fn new() -> (r: Self)
        ensures
            r@ == (DirectState { headers: empty_headers(), message: None }),
    {
        DirectMessageBuilder { headers: CommonHeaders::new(), message: None }
    }

    /// Sets the id header attribute of the message.
    pub fn id(self, id: String) -> (r: Self)
        ensures
            r@ == (DirectState { headers: with_id(self@.headers, id@), ..self@ }),
    {
        let DirectMessageBuilder { headers, message } = self;
        DirectMessageBuilder { headers: headers.set_id(id), message }
    }

    /// Sets the `to` header of the message. Repeated calls accumulate
    /// recipients in call order.
    pub fn to(self, value: String) -> (r: Self)
        ensures
            r@ == (DirectState { headers: with_to(self@.headers, value@), ..self@ }),
    {
        let DirectMessageBuilder { headers, message } = self;
        DirectMessageBuilder { headers: headers.add_to(value), message }
    }

    /// Sets the `from` header of the message.
    pub fn from(self, from: String) -> (r: Self)
        ensures
            r@ == (DirectState { headers: with_from(self@.headers, from@), ..self@ }),
    {
        let DirectMessageBuilder { headers, message } = self;
        DirectMessageBuilder { headers: headers.set_from(from), message }
    }

    /// Sets the `created_time` header of the message.
    /// If `created_time` is `None`, it will be set to the current time.
    /// The value is in seconds since the Unix epoch.
    pub fn created_time(self, created_time: Option<u64>) -> (r: Self)
        ensures
            (match created_time {
                Some(t) => r@ == (DirectState {
                    headers: with_created_time(self@.headers, t),
                    ..self@
                }),
                None => exists|t: u64|
                    r@ == (DirectState {
                        headers: #[trigger] with_created_time(self@.headers, t),
                        ..self@
                    }),
            }),
    {
        let DirectMessageBuilder { headers, message } = self;
        DirectMessageBuilder { headers: headers.set_created_time(created_time), message }
    }

    /// Sets the `expires_time` header of the message.
    /// The value is in seconds since the Unix epoch.
    pub fn expires_time(self, expires_time: u64) -> (r: Self)
        ensures
            r@ == (DirectState { headers: with_expires_time(self@.headers, expires_time), ..self@ }),
    {
        let DirectMessageBuilder { headers, message } = self;
        DirectMessageBuilder { headers: headers.set_expires_time(expires_time), message }
    }

    /// Sets the content of the message.
    pub fn message(self, value: String) -> (r: Self)
        ensures
            r@ == (DirectState { message: Some(value@), ..self@ }),
    {
        let DirectMessageBuilder { headers, message: _ } = self;
        DirectMessageBuilder { headers, message: Some(value) }
    }

    /// Builds the DIDComm message: fails exactly when no content was set, and
    /// otherwise produces the envelope this builder's state describes.
    pub fn build(self) -> (r: Result<didcomm::Message, MessageBuilderError>)
        ensures
            (match r {
                Ok(m) => self@.message is Some && direct_message_ok(self@, m),
                Err(e) => self@.message is None && e == MessageBuilderError::MissingMessage,
            }),
    {
        let DirectMessageBuilder { headers, message } = self;
        let content = match message {
            Some(c) => c,
            None => {
                return Err(MessageBuilderError::MissingMessage);
            },
        };
        let id = headers.resolved_id();
        let mut body_map = serde_json::Map::new();
        body_map.insert("content".to_string(), json_string(content));
        let body = json_object(body_map);
        let b = didcomm::Message::build(
            id,
            "https://didcomm.org/basicmessage/2.0/message".to_string(),
            body,
        );
        let b = headers.merge_into(b);
        Ok(b.finalize())
    }
}

} // verus!
