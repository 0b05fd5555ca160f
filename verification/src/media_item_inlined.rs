use crate::error::MessageBuilderError;
use crate::idgen::fresh_uuid;
use crate::json::{json_object, json_rep, json_string, JsonData};
use crate::media_item_referenced::{is_summary_for, summary_data};
use vstd::prelude::*;

verus! {

/// Represents a media item with inline content in a DIDComm message.
#[derive(Debug, Clone, PartialEq, Eq)]
pub struct MediaItemInlined {
    /// Attachment ID.
    pub id: String,
    /// Media type of file.
    pub media_type: String,
    /// File name.
    pub filename: Option<String>,
    /// File description.
    pub description: Option<String>,
    /// File contents encoded as base64.
    pub base64: String,
}

/// The fields of an inlined media item, as the contracts see them.
pub struct InlinedData {
    pub id: Seq<char>,
    pub media_type: Seq<char>,
    pub filename: Option<Seq<char>>,
    pub description: Option<Seq<char>>,
    pub base64: Seq<char>,
}

impl View for MediaItemInlined {
    type V = InlinedData;

    open spec fn view(&self) -> InlinedData {
        InlinedData {
            id: self.id@,
            media_type: self.media_type@,
            filename: self.filename.deep_view(),
            description: self.description.deep_view(),
            base64: self.base64@,
        }
    }
}

/// What the attachment descriptor of an inlined item holds: the base64
/// payload as its data, the identifier and metadata alongside, and the
/// remaining attachment fields left unset.
pub open spec fn inlined_attachment_ok(d: InlinedData, a: didcomm::Attachment) -> bool {
    &&& a.id.deep_view() == Some(d.id)
    &&& a.media_type.deep_view() == Some(d.media_type)
    &&& a.filename.deep_view() == d.filename
    &&& a.description.deep_view() == d.description
    &&& (a.data matches didcomm::AttachmentData::Base64 { value } && value.base64@ == d.base64
        && value.jws is None)
    &&& a.format is None
    &&& a.lastmod_time is None
    &&& a.byte_count is None
}

impl MediaItemInlined {
    /// Encodes this item's body summary: a freshly generated random summary
    /// identifier paired with this item's attachment id; an inlined item
    /// never carries cipher parameters there.
    pub fn to_body_item(&self) -> (r: Result<serde_json::Value, MessageBuilderError>)
        ensures
            (r matches Ok(v) && is_summary_for(json_rep(v), self@.id, None)),
    {
        let sid = fresh_uuid();
        let ghost sidv = sid@;
        let mut m = serde_json::Map::new();
        m.insert("@id".to_string(), json_string(sid));
        m.insert("attachment_id".to_string(), json_string(self.id.clone()));
        let v = json_object(m);
        proof {
            assert(summary_data(sidv, self@.id, None) == json_rep(v));
        }
        Ok(v)
    }

    /// Converts this item into the attachment descriptor the envelope carries.
    pub fn into_attachment(self) -> (a: didcomm::Attachment)
        ensures
            inlined_attachment_ok(self@, a),
    {
        didcomm::Attachment {
            id: Some(self.id),
            media_type: Some(self.media_type),
            data: didcomm::AttachmentData::Base64 {
                value: didcomm::Base64AttachmentData { base64: self.base64, jws: None },
            },
            description: self.description,
            filename: self.filename,
            format: None,
            lastmod_time: None,
            byte_count: None,
        }
    }
}

} // verus!
