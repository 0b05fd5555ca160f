use didcomm_module::{
    DirectMessageBuilder, JsonWebKey, KeySharingMessageBuilder, MediaItemInlined,
    MediaItemsMessageBuilder, MessageBuilderError,
};

fn sample_key() -> JsonWebKey {
    JsonWebKey {
        kty: "EC".to_string(),
        crv: "P-256".to_string(),
        x: "0000".to_string(),
        y: "0001".to_string(),
        d: "0002".to_string(),
        use_: "enc".to_string(),
        kid: "<key fingerprint>".to_string(),
    }
}

fn sample_inlined() -> MediaItemInlined {
    MediaItemInlined {
        id: "234".to_string(),
        media_type: "image/jpg".to_string(),
        filename: None,
        description: None,
        base64: "base64-example".to_string(),
    }
}

#[test]
pub fn to_accumulates_in_call_order() {
    let msg = DirectMessageBuilder::new()
        .id("message-id".to_string())
        .to("a".to_string())
        .to("b".to_string())
        .message("hi".to_string())
        .build()
        .unwrap();
    assert_eq!(msg.to, Some(vec!["a".to_string(), "b".to_string()]));
}

#[test]
pub fn repeated_header_setters_last_call_wins() {
    let once = DirectMessageBuilder::new()
        .id("message-id".to_string())
        .from("did:example:alice".to_string())
        .created_time(Some(1000))
        .expires_time(2000)
        .message("hi".to_string())
        .build()
        .unwrap();
    let twice = DirectMessageBuilder::new()
        .id("message-id".to_string())
        .id("message-id".to_string())
        .from("did:example:alice".to_string())
        .from("did:example:alice".to_string())
        .created_time(Some(1000))
        .created_time(Some(1000))
        .expires_time(2000)
        .expires_time(2000)
        .message("hi".to_string())
        .build()
        .unwrap();
    assert_eq!(
        serde_json::to_value(once).unwrap(),
        serde_json::to_value(twice).unwrap()
    );
}

#[test]
pub fn header_values_carry_over() {
    let msg = DirectMessageBuilder::new()
        .id("message-id".to_string())
        .from("did:example:alice".to_string())
        .created_time(Some(1000))
        .expires_time(2000)
        .message("hi".to_string())
        .build()
        .unwrap();
    assert_eq!(msg.from, Some("did:example:alice".to_string()));
    assert_eq!(msg.created_time, Some(1000));
    assert_eq!(msg.expires_time, Some(2000));
    assert_eq!(msg.typ, "application/didcomm-plain+json".to_string());
}

#[test]
pub fn created_time_defaults_to_clock() {
    let msg = DirectMessageBuilder::new()
        .id("message-id".to_string())
        .created_time(None)
        .message("hi".to_string())
        .build()
        .unwrap();
    assert!(msg.created_time.is_some());
    assert!(msg.created_time.unwrap() > 1_500_000_000);
}

#[test]
pub fn direct_message_default_id_has_uuid_length() {
    let msg = DirectMessageBuilder::new()
        .message("hi".to_string())
        .build()
        .unwrap();
    assert_eq!(msg.id.len(), 36);
}

#[test]
pub fn key_sharing_default_id_has_uuid_length() {
    let msg = KeySharingMessageBuilder::new()
        .add_key(sample_key())
        .build()
        .unwrap();
    assert_eq!(msg.id.len(), 36);
}

#[test]
pub fn media_summary_ids_are_fresh_per_build() {
    let first = MediaItemsMessageBuilder::new()
        .media_item_inlined(sample_inlined())
        .id("message-id".to_string())
        .build()
        .unwrap();
    let second = MediaItemsMessageBuilder::new()
        .media_item_inlined(sample_inlined())
        .id("message-id".to_string())
        .build()
        .unwrap();
    let sid1 = first.body["items"][0]["@id"].as_str().unwrap().to_string();
    let sid2 = second.body["items"][0]["@id"].as_str().unwrap().to_string();
    assert_eq!(sid1.len(), 36);
    assert_ne!(sid1, sid2);
    assert_eq!(first.body["items"][0]["attachment_id"], "234".to_string());
}

#[test]
pub fn error_messages_name_each_failure() {
    assert_eq!(
        MessageBuilderError::MissingBody.message(),
        "Missing body in the message"
    );
    assert_eq!(
        MessageBuilderError::SerializationError.message(),
        "Error during message serialization"
    );
    assert_eq!(
        MessageBuilderError::MissingKey.message(),
        "Missing at least one key in the message"
    );
    assert_eq!(
        MessageBuilderError::MissingMessage.message(),
        "Missing message content"
    );
    assert_eq!(
        MessageBuilderError::MissingMediaItem.message(),
        "Missing media item"
    );
}
