use crate::json::{json_rep, JsonData};
use vstd::prelude::*;

verus! {

#[verifier::external_type_specification]
pub struct ExMessage(didcomm::Message);

#[verifier::external_type_specification]
#[verifier::external_body]
pub struct ExMessageBuilder(didcomm::MessageBuilder);

#[verifier::external_type_specification]
pub struct ExAttachment(didcomm::Attachment);

#[verifier::external_type_specification]
pub struct ExAttachmentData(didcomm::AttachmentData);

#[verifier::external_type_specification]
pub struct ExBase64AttachmentData(didcomm::Base64AttachmentData);

#[verifier::external_type_specification]
pub struct ExJsonAttachmentData(didcomm::JsonAttachmentData);

#[verifier::external_type_specification]
pub struct ExLinksAttachmentData(didcomm::LinksAttachmentData);

/// Everything a `didcomm::MessageBuilder` has accumulated that this library
/// sets: the required identifier, type URI and body, the optional headers, and
/// the attachment list, each mirroring the builder's own field.
pub struct EnvParts {
    pub id: Seq<char>,
    pub type_uri: Seq<char>,
    pub body: JsonData,
    pub to: Option<Seq<Seq<char>>>,
    pub from: Option<Seq<char>>,
    pub created_time: Option<u64>,
    pub expires_time: Option<u64>,
    pub attachments: Option<Seq<didcomm::Attachment>>,
}

/// What a `didcomm::MessageBuilder` holds of the fields this library sets.
pub uninterp spec fn builder_parts(b: didcomm::MessageBuilder) -> EnvParts;

/// The fixed `typ` header every finalized plain envelope carries.
pub open spec fn plaintext_typ() -> Seq<char> {
    "application/didcomm-plain+json"@
}

/// The recipient list once one more recipient is appended.
pub open spec fn to_pushed(to: Option<Seq<Seq<char>>>, value: Seq<char>) -> Option<
    Seq<Seq<char>>,
> {
    match to {
        None => Some(seq![value]),
        Some(s) => Some(s.push(value)),
    }
}

/// The attachment list once one more attachment is appended.
pub open spec fn attachments_pushed(
    atts: Option<Seq<didcomm::Attachment>>,
    a: didcomm::Attachment,
) -> Option<Seq<didcomm::Attachment>> {
    match atts {
        None => Some(seq![a]),
        Some(s) => Some(s.push(a)),
    }
}

/// The attachment list of a finalized message, as a sequence option.
pub open spec fn attachments_view(atts: Option<Vec<didcomm::Attachment>>) -> Option<
    Seq<didcomm::Attachment>,
> {
    match atts {
        None => None,
        Some(v) => Some(v@),
    }
}

/// Relies on didcomm::Message::build: the fresh builder holds exactly the
/// given identifier, type URI and body, and none of the optional fields.
pub assume_specification[ didcomm::Message::build ](
    id: String,
    type_: String,
    body: serde_json::Value,
) -> (b: didcomm::MessageBuilder)
    ensures
        builder_parts(b) == (EnvParts {
            id: id@,
            type_uri: type_@,
            body: json_rep(body),
            to: None,
            from: None,
            created_time: None,
            expires_time: None,
            attachments: None,
        }),
;

/// Relies on didcomm::MessageBuilder::to: the recipient is appended to the
/// builder's recipient list and nothing else changes.
pub assume_specification[ didcomm::MessageBuilder::to ](
    b: didcomm::MessageBuilder,
    to: String,
) -> (r: didcomm::MessageBuilder)
    ensures
        builder_parts(r) == (EnvParts { to: to_pushed(builder_parts(b).to, to@), ..builder_parts(b) }),
;

/// Relies on didcomm::MessageBuilder::from: the sender is set (replacing any
/// earlier one) and nothing else changes.
pub assume_specification[ didcomm::MessageBuilder::from ](
    b: didcomm::MessageBuilder,
    from: String,
) -> (r: didcomm::MessageBuilder)
    ensures
        builder_parts(r) == (EnvParts { from: Some(from@), ..builder_parts(b) }),
;

/// Relies on didcomm::MessageBuilder::created_time: the creation time is set
/// (replacing any earlier one) and nothing else changes.
pub assume_specification[ didcomm::MessageBuilder::created_time ](
    b: didcomm::MessageBuilder,
    created_time: u64,
) -> (r: didcomm::MessageBuilder)
    ensures
        builder_parts(r) == (EnvParts {
            created_time: Some(created_time),
            ..builder_parts(b)
        }),
;

/// Relies on didcomm::MessageBuilder::expires_time: the expiration time is set
/// (replacing any earlier one) and nothing else changes.
pub assume_specification[ didcomm::MessageBuilder::expires_time ](
    b: didcomm::MessageBuilder,
    expires_time: u64,
) -> (r: didcomm::MessageBuilder)
    ensures
        builder_parts(r) == (EnvParts {
            expires_time: Some(expires_time),
            ..builder_parts(b)
        }),
;

/// Relies on didcomm::MessageBuilder::attachment: the attachment is appended
/// to the builder's attachment list and nothing else changes.
pub assume_specification[ didcomm::MessageBuilder::attachment ](
    b: didcomm::MessageBuilder,
    attachment: didcomm::Attachment,
) -> (r: didcomm::MessageBuilder)
    ensures
        builder_parts(r) == (EnvParts {
            attachments: attachments_pushed(builder_parts(b).attachments, attachment),
            ..builder_parts(b)
        }),
;

/// Relies on didcomm::MessageBuilder::finalize: the message carries the
/// builder's fields unchanged, plus the fixed plain `typ` header.
pub assume_specification[ didcomm::MessageBuilder::finalize ](b: didcomm::MessageBuilder) -> (m: didcomm::Message)
    ensures
        m.id@ == builder_parts(b).id,
        m.typ@ == plaintext_typ(),
        m.type_@ == builder_parts(b).type_uri,
        json_rep(m.body) == builder_parts(b).body,
        m.to.deep_view() == builder_parts(b).to,
        m.from.deep_view() == builder_parts(b).from,
        m.created_time == builder_parts(b).created_time,
        m.expires_time == builder_parts(b).expires_time,
        attachments_view(m.attachments) == builder_parts(b).attachments,
;

} // verus!
