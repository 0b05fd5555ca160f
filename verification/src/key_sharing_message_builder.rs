use crate::error::MessageBuilderError;
use crate::headers::{
    empty_headers, header_fields_ok, with_created_time, with_expires_time, with_from, with_id,
    with_to, CommonHeaders, HeaderState,
};
use crate::json::{json_array, json_object, json_rep, obj_empty, JsonData};
use crate::key::{key_json, JsonWebKey, JwkData};
use vstd::prelude::*;

verus! {

/// The state of a key-sharing builder, as the contracts see it.
pub struct KeySharingState {
    pub headers: HeaderState,
    pub keys: Seq<JwkData>,
}

/// The fixed type URI of a key-sharing message.
pub open spec fn key_sharing_type() -> Seq<char> {
    "https://didcomm.org/key-sharing/1.0/send-keys"@
}

/// The body of a key-sharing message: an object carrying the key records,
/// in insertion order, under "keys".
pub open spec fn keys_body(ks: Seq<JwkData>) -> JsonData {
    JsonData::Obj(
        obj_empty().insert("keys"@, JsonData::Arr(ks.map_values(|k: JwkData| key_json(k)))),
    )
}

/// What a finished key-sharing message looks like for the builder state it
/// came from: the shared headers, the fixed type URI, the key-list body, and
/// no attachments.
pub open spec fn key_sharing_message_ok(s: KeySharingState, m: didcomm::Message) -> bool {
    &&& header_fields_ok(s.headers, m)
    &&& m.type_@ == key_sharing_type()
    &&& json_rep(m.body) == keys_body(s.keys)
    &&& m.attachments is None
}

/// Builder for creating a DIDComm message for key sharing.
/// Keys are carried as records of the standard JWK exchange format.
#[derive(Debug, Clone)]
pub struct KeySharingMessageBuilder {
    headers: CommonHeaders,
    keys: Vec<JsonWebKey>,
}

impl View for KeySharingMessageBuilder {
    type V = KeySharingState;

    closed spec fn view(&self) -> KeySharingState {
        KeySharingState {
            headers: self.headers@,
            keys: self.keys@.map_values(|k: JsonWebKey| k@),
        }
    }
}

impl KeySharingMessageBuilder {
    /// Creates a new instance of the builder.
    pub fn new() -> (r: Self)
        ensures
            r@ == (KeySharingState { headers: empty_headers(), keys: Seq::empty() }),
    {
        let r = KeySharingMessageBuilder { headers: CommonHeaders::new(), keys: Vec::new() };
        proof {
            assert(r@.keys =~= Seq::<JwkData>::empty());
        }
        r
    }

    /// Sets the id header attribute of the message.
    pub fn id(self, id: String) -> (r: Self)
        ensures
            r@ == (KeySharingState { headers: with_id(self@.headers, id@), ..self@ }),
    {
        let KeySharingMessageBuilder { headers, keys } = self;
        KeySharingMessageBuilder { headers: headers.set_id(id), keys }
    }

    /// Sets the `to` header of the message. Repeated calls accumulate
    /// recipients in call order.
    pub fn to(self, value: String) -> (r: Self)
        ensures
            r@ == (KeySharingState { headers: with_to(self@.headers, value@), ..self@ }),
    {
        let KeySharingMessageBuilder { headers, keys } = self;
        KeySharingMessageBuilder { headers: headers.add_to(value), keys }
    }

    /// Sets the `from` header of the message.
    pub fn from(self, from: String) -> (r: Self)
        ensures
            r@ == (KeySharingState { headers: with_from(self@.headers, from@), ..self@ }),
    {
        let KeySharingMessageBuilder { headers, keys } = self;
        KeySharingMessageBuilder { headers: headers.set_from(from), keys }
    }

    /// Sets the `created_time` header of the message.
    /// If `created_time` is `None`, it will be set to the current time.
    /// The value is in seconds since the Unix epoch.
    pub fn created_time(self, created_time: Option<u64>) -> (r: Self)
        ensures
            (match created_time {
                Some(t) => r@ == (KeySharingState {
                    headers: with_created_time(self@.headers, t),
                    ..self@
                }),
                None => exists|t: u64|
                    r@ == (KeySharingState {
                        headers: #[trigger] with_created_time(self@.headers, t),
                        ..self@
                    }),
            }),
    {
        let KeySharingMessageBuilder { headers, keys } = self;
        KeySharingMessageBuilder { headers: headers.set_created_time(created_time), keys }
    }

    /// Sets the `expires_time` header of the message.
    /// The value is in seconds since the Unix epoch.
    pub fn expires_time(self, expires_time: u64) -> (r: Self)
        ensures
            r@ == (KeySharingState {
                headers: with_expires_time(self@.headers, expires_time),
                ..self@
            }),
    {
        let KeySharingMessageBuilder { headers, keys } = self;
        KeySharingMessageBuilder { headers: headers.set_expires_time(expires_time), keys }
    }

    /// Adds a key to the key set; repeated calls accumulate in call order.
    pub fn add_key(self, value: JsonWebKey) -> (r: Self)
        ensures
            r@ == (KeySharingState { keys: self@.keys.push(value@), ..self@ }),
    {
        let ghost pre = self@;
        let KeySharingMessageBuilder { headers, mut keys } = self;
        keys.push(value);
        let r = KeySharingMessageBuilder { headers, keys };
        proof {
            assert(r@.keys =~= pre.keys.push(value@));
        }
        r
    }

    /// Builds the DIDComm message: fails exactly when no key was added, and
    /// otherwise produces the envelope this builder's state describes.
    pub fn build(self) -> (r: Result<didcomm::Message, MessageBuilderError>)
        ensures
            (match r {
                Ok(m) => self@.keys.len() > 0 && key_sharing_message_ok(self@, m),
                Err(e) => self@.keys.len() == 0 && e == MessageBuilderError::MissingKey,
            }),
    {
        let ghost s = self@;
        let KeySharingMessageBuilder { headers, keys } = self;
        if keys.len() == 0 {
            return Err(MessageBuilderError::MissingKey);
        }
        let id = headers.resolved_id();
        let mut vals: Vec<serde_json::Value> = Vec::new();
        let mut i: usize = 0;
        while i < keys.len()
            invariant
                i <= keys.len(),
                vals@.len() == i,
                forall|j: int| 0 <= j < i ==> json_rep(vals@[j]) == key_json(keys@[j]@),
            decreases keys.len() - i,
        {
            let v = keys[i].to_json();
            vals.push(v);
            i += 1;
        }
        proof {
            assert(vals@.map_values(|e: serde_json::Value| json_rep(e)) =~= s.keys.map_values(
                |k: JwkData| key_json(k),
            ));
        }
        let mut body_map = serde_json::Map::new();
        body_map.insert("keys".to_string(), json_array(vals));
        let body = json_object(body_map);
        let b = didcomm::Message::build(
            id,
            "https://didcomm.org/key-sharing/1.0/send-keys".to_string(),
            body,
        );
        let b = headers.merge_into(b);
        Ok(b.finalize())
    }
}

} // verus!
