use crate::error::MessageBuilderError;
use crate::idgen::fresh_uuid;
use crate::json::{json_object, json_rep, json_string, obj_empty, JsonData};
use vstd::prelude::*;

verus! {

/// The body-summary record a media item contributes to the envelope body: a
/// summary identifier under "@id", the attachment it refers to under
/// "attachment_id", and the cipher parameters, where present, under
/// "ciphering".
pub open spec fn summary_data(
    sid: Seq<char>,
    attachment_id: Seq<char>,
    ciphering: Option<JsonData>,
) -> JsonData {
    JsonData::Obj(
        match ciphering {
            None => obj_empty().insert("@id"@, JsonData::Str(sid)).insert(
                "attachment_id"@,
                JsonData::Str(attachment_id),
            ),
            Some(c) => obj_empty().insert("@id"@, JsonData::Str(sid)).insert(
                "attachment_id"@,
                JsonData::Str(attachment_id),
            ).insert("ciphering"@, c),
        },
    )
}

/// Whether a JSON tree is a body summary for the given attachment id and
/// cipher parameters, under some freshly generated 36-character summary
/// identifier.
pub open spec fn is_summary_for(
    v: JsonData,
    attachment_id: Seq<char>,
    ciphering: Option<JsonData>,
) -> bool {
    exists|sid: Seq<char>|
        #[trigger] summary_data(sid, attachment_id, ciphering) == v && sid.len() == 36
}

/// Represents a media item shared by reference in a DIDComm message.
#[derive(Debug, Clone, PartialEq, Eq)]
pub struct MediaItemReferenced {
    /// Attachment ID.
    pub id: String,
    /// Media type of file
    pub media_type: String,
    /// File name
    pub filename: Option<String>,
    /// File description
    pub description: Option<String>,
    /// Reference
    pub link: String,
    /// The hash of the content encoded in multi-hash format. Used as an integrity check for the attachment.
    pub hash: String,
    /// Encryption information
    pub ciphering: Option<serde_json::Value>,
}

/// The fields of a referenced media item, as the contracts see them.
pub struct ReferencedData {
    pub id: Seq<char>,
    pub media_type: Seq<char>,
    pub filename: Option<Seq<char>>,
    pub description: Option<Seq<char>>,
    pub link: Seq<char>,
    pub hash: Seq<char>,
    pub ciphering: Option<JsonData>,
}

impl View for MediaItemReferenced {
    type V = ReferencedData;

    open spec fn view(&self) -> ReferencedData {
        ReferencedData {
            id: self.id@,
            media_type: self.media_type@,
            filename: self.filename.deep_view(),
            description: self.description.deep_view(),
            link: self.link@,
            hash: self.hash@,
            ciphering: match self.ciphering {
                None => None,
                Some(c) => Some(json_rep(c)),
            },
        }
    }
}

/// What the attachment descriptor of a referenced item holds: the link and
/// hash as its data, the identifier and metadata alongside, and the remaining
/// attachment fields left unset.
pub open spec fn referenced_attachment_ok(d: ReferencedData, a: didcomm::Attachment) -> bool {
    &&& a.id.deep_view() == Some(d.id)
    &&& a.media_type.deep_view() == Some(d.media_type)
    &&& a.filename.deep_view() == d.filename
    &&& a.description.deep_view() == d.description
    &&& (a.data matches didcomm::AttachmentData::Links { value } && value.links.deep_view() == seq![
        d.link,
    ] && value.hash@ == d.hash && value.jws is None)
    &&& a.format is None
    &&& a.lastmod_time is None
    &&& a.byte_count is None
}

impl MediaItemReferenced {
    /// Encodes this item's body summary: a freshly generated random summary
    /// identifier paired with this item's attachment id and cipher parameters.
    pub fn to_body_item(&self) -> (r: Result<serde_json::Value, MessageBuilderError>)
        ensures
            (r matches Ok(v) && is_summary_for(json_rep(v), self@.id, self@.ciphering)),
    {
        let sid = fresh_uuid();
        let ghost sidv = sid@;
        let mut m = serde_json::Map::new();
        m.insert("@id".to_string(), json_string(sid));
        m.insert("attachment_id".to_string(), json_string(self.id.clone()));
        if let Some(c) = &self.ciphering {
            m.insert("ciphering".to_string(), c.clone());
        }
        let v = json_object(m);
        proof {
            assert(summary_data(sidv, self@.id, self@.ciphering) == json_rep(v));
        }
        Ok(v)
    }

    /// Converts this item into the attachment descriptor the envelope carries.
    pub fn into_attachment(self) -> (a: didcomm::Attachment)
        ensures
            referenced_attachment_ok(self@, a),
    {
        let ghost d = self@;
        let a = didcomm::Attachment {
            id: Some(self.id),
            media_type: Some(self.media_type),
            data: didcomm::AttachmentData::Links {
                value: didcomm::LinksAttachmentData {
                    links: vec![self.link],
                    hash: self.hash,
                    jws: None,
                },
            },
            description: self.description,
            filename: self.filename,
            format: None,
            lastmod_time: None,
            byte_count: None,
        };
        proof {
            assert(a.data matches didcomm::AttachmentData::Links { value }
                && value.links.deep_view() =~= seq![d.link]);
        }
        a
    }
}

} // verus!
