use crate::envelope::{attachments_pushed, builder_parts, EnvParts};
use crate::error::MessageBuilderError;
use crate::headers::{
    empty_headers, header_fields_ok, with_created_time, with_expires_time, with_from, with_id,
    with_to, CommonHeaders, HeaderState,
};
use crate::json::{json_array, json_object, json_rep, obj_empty, JsonData};
use crate::media_item_inlined::{inlined_attachment_ok, InlinedData, MediaItemInlined};
use crate::media_item_referenced::{is_summary_for, referenced_attachment_ok, MediaItemReferenced, ReferencedData};
use vstd::prelude::*;

verus! {

/// The state of a media-sharing builder, as the contracts see it.
pub struct MediaItemsState {
    pub headers: HeaderState,
    pub inlined: Seq<InlinedData>,
    pub referenced: Seq<ReferencedData>,
}

/// The fixed type URI of a media-sharing message.
pub open spec fn media_sharing_type() -> Seq<char> {
    "https://didcomm.org/media-sharing/1.0/share-media"@
}

/// Whether a sequence of JSON trees is the body-summary list of this builder
/// state: one summary per media item, inlined items first and referenced
/// items after, each in insertion order.
pub open spec fn summaries_ok(s: MediaItemsState, items: Seq<JsonData>) -> bool {
    &&& items.len() == s.inlined.len() + s.referenced.len()
    &&& (forall|i: int|
        0 <= i < s.inlined.len() ==> is_summary_for(#[trigger] items[i], s.inlined[i].id, None))
    &&& (forall|i: int|
        0 <= i < s.referenced.len() ==> is_summary_for(
            #[trigger] items[s.inlined.len() + i],
            s.referenced[i].id,
            s.referenced[i].ciphering,
        ))
}

/// Whether an attachment list is the one this builder state describes: one
/// descriptor per media item, inlined items first and referenced items after,
/// each in insertion order.
pub open spec fn media_attachments_ok(
    s: MediaItemsState,
    atts: Option<Vec<didcomm::Attachment>>,
) -> bool {
    match atts {
        None => false,
        Some(v) => {
            &&& v@.len() == s.inlined.len() + s.referenced.len()
            &&& (forall|i: int|
                0 <= i < s.inlined.len() ==> inlined_attachment_ok(s.inlined[i], #[trigger] v@[i]))
            &&& (forall|i: int|
                0 <= i < s.referenced.len() ==> referenced_attachment_ok(
                    s.referenced[i],
                    #[trigger] v@[s.inlined.len() + i],
                ))
        },
    }
}

/// What a finished media-sharing message looks like for the builder state it
/// came from: the shared headers, the fixed type URI, a body carrying the
/// summary list under "items", and the matching attachment list.
pub open spec fn media_message_ok(s: MediaItemsState, m: didcomm::Message) -> bool {
    &&& header_fields_ok(s.headers, m)
    &&& m.type_@ == media_sharing_type()
    &&& (exists|items: Seq<JsonData>|
        #[trigger] summaries_ok(s, items) && json_rep(m.body) == JsonData::Obj(
            obj_empty().insert("items"@, JsonData::Arr(items)),
        ))
    &&& media_attachments_ok(s, m.attachments)
}

/// Builder for creating a DIDComm message for media items.
#[derive(Debug, Clone)]
pub struct MediaItemsMessageBuilder {
    headers: CommonHeaders,
    media_items_inlined: Vec<MediaItemInlined>,
    media_items_referenced: Vec<MediaItemReferenced>,
}

impl View for MediaItemsMessageBuilder {
    type V = MediaItemsState;

    closed spec fn view(&self) -> MediaItemsState {
        MediaItemsState {
            headers: self.headers@,
            inlined: self.media_items_inlined@.map_values(|x: MediaItemInlined| x@),
            referenced: self.media_items_referenced@.map_values(|x: MediaItemReferenced| x@),
        }
    }
}

impl MediaItemsMessageBuilder {
    /// Creates a new instance of the builder.
    pub fn new() -> (r: Self)
        ensures
            r@ == (MediaItemsState {
                headers: empty_headers(),
                inlined: Seq::empty(),
                referenced: Seq::empty(),
            }),
    {
        let r = MediaItemsMessageBuilder {
            headers: CommonHeaders::new(),
            media_items_inlined: Vec::new(),
            media_items_referenced: Vec::new(),
        };
        proof {
            assert(r@.inlined =~= Seq::<InlinedData>::empty());
            assert(r@.referenced =~= Seq::<ReferencedData>::empty());
        }
        r
    }

    /// Sets the id header attribute of the message.
    pub fn id(self, id: String) -> (r: Self)
        ensures
            r@ == (MediaItemsState { headers: with_id(self@.headers, id@), ..self@ }),
    {
        let MediaItemsMessageBuilder { headers, media_items_inlined, media_items_referenced } =
            self;
        MediaItemsMessageBuilder {
            headers: headers.set_id(id),
            media_items_inlined,
            media_items_referenced,
        }
    }

    /// Sets the `to` header of the message. Repeated calls accumulate
    /// recipients in call order.
    pub fn to(self, value: String) -> (r: Self)
        ensures
            r@ == (MediaItemsState { headers: with_to(self@.headers, value@), ..self@ }),
    {
        let MediaItemsMessageBuilder { headers, media_items_inlined, media_items_referenced } =
            self;
        MediaItemsMessageBuilder {
            headers: headers.add_to(value),
            media_items_inlined,
            media_items_referenced,
        }
    }

    /// Sets the `from` header of the message.
    pub fn from(self, from: String) -> (r: Self)
        ensures
            r@ == (MediaItemsState { headers: with_from(self@.headers, from@), ..self@ }),
    {
        let MediaItemsMessageBuilder { headers, media_items_inlined, media_items_referenced } =
            self;
        MediaItemsMessageBuilder {
            headers: headers.set_from(from),
            media_items_inlined,
            media_items_referenced,
        }
    }

    /// Sets the `created_time` header of the message.
    /// If `created_time` is `None`, it will be set to the current time.
    /// The value is in seconds since the Unix epoch.
    pub fn created_time(self, created_time: Option<u64>) -> (r: Self)
        ensures
            (match created_time {
                Some(t) => r@ == (MediaItemsState {
                    headers: with_created_time(self@.headers, t),
                    ..self@
                }),
                None => exists|t: u64|
                    r@ == (MediaItemsState {
                        headers: #[trigger] with_created_time(self@.headers, t),
                        ..self@
                    }),
            }),
    {
        let MediaItemsMessageBuilder { headers, media_items_inlined, media_items_referenced } =
            self;
        MediaItemsMessageBuilder {
            headers: headers.set_created_time(created_time),
            media_items_inlined,
            media_items_referenced,
        }
    }

    /// Sets the `expires_time` header of the message.
    /// The value is in seconds since the Unix epoch.
    pub fn expires_time(self, expires_time: u64) -> (r: Self)
        ensures
            r@ == (MediaItemsState {
                headers: with_expires_time(self@.headers, expires_time),
                ..self@
            }),
    {
        let MediaItemsMessageBuilder { headers, media_items_inlined, media_items_referenced } =
            self;
        MediaItemsMessageBuilder {
            headers: headers.set_expires_time(expires_time),
            media_items_inlined,
            media_items_referenced,
        }
    }

    /// Adds an inlined media item to include in the message.
    /// Multiple media items can be added.
    pub fn media_item_inlined(self, value: MediaItemInlined) -> (r: Self)
        ensures
            r@ == (MediaItemsState { inlined: self@.inlined.push(value@), ..self@ }),
    {
        let ghost pre = self@;
        let MediaItemsMessageBuilder {
            headers,
            mut media_items_inlined,
            media_items_referenced,
        } = self;
        media_items_inlined.push(value);
        let r = MediaItemsMessageBuilder { headers, media_items_inlined, media_items_referenced };
        proof {
            assert(r@.inlined =~= pre.inlined.push(value@));
        }
        r
    }

    /// Adds a referenced media item to include in the message.
    /// Multiple media items can be added.
    pub fn media_item_referenced(self, value: MediaItemReferenced) -> (r: Self)
        ensures
            r@ == (MediaItemsState { referenced: self@.referenced.push(value@), ..self@ }),
    {
        let ghost pre = self@;
        let MediaItemsMessageBuilder {
            headers,
            media_items_inlined,
            mut media_items_referenced,
        } = self;
        media_items_referenced.push(value);
        let r = MediaItemsMessageBuilder { headers, media_items_inlined, media_items_referenced };
        proof {
            assert(r@.referenced =~= pre.referenced.push(value@));
        }
        r
    }

    /// Builds the DIDComm message: fails exactly when no media item of either
    /// kind was added, and otherwise produces the envelope this builder's
    /// state describes, with inlined items placed before referenced ones in
    /// both the body-summary list and the attachment list.
    pub fn build(self) -> (r: Result<didcomm::Message, MessageBuilderError>)
        ensures
            (match r {
                Ok(m) => (self@.inlined.len() > 0 || self@.referenced.len() > 0)
                    && media_message_ok(self@, m),
                Err(e) => self@.inlined.len() == 0 && self@.referenced.len() == 0 && e
                    == MessageBuilderError::MissingMediaItem,
            }),
    {
        let ghost s = self@;
        let MediaItemsMessageBuilder { headers, media_items_inlined, media_items_referenced } =
            self;
        if media_items_inlined.len() == 0 && media_items_referenced.len() == 0 {
            return Err(MessageBuilderError::MissingMediaItem);
        }
        let id = headers.resolved_id();
        let ni = media_items_inlined.len();
        let nr = media_items_referenced.len();

        let mut vals: Vec<serde_json::Value> = Vec::new();
        let mut i: usize = 0;
        while i < ni
            invariant
                i <= ni,
                ni == media_items_inlined.len(),
                vals@.len() == i,
                forall|j: int|
                    0 <= j < i ==> is_summary_for(
                        json_rep(#[trigger] vals@[j]),
                        media_items_inlined@[j]@.id,
                        None,
                    ),
            decreases ni - i,
        {
            let v = match media_items_inlined[i].to_body_item() {
                Ok(v) => v,
                Err(e) => {
                    return Err(e);
                },
            };
            vals.push(v);
            i += 1;
        }
        let mut k: usize = 0;
        while k < nr
            invariant
                k <= nr,
                ni == media_items_inlined.len(),
                nr == media_items_referenced.len(),
                vals@.len() == ni + k,
                forall|j: int|
                    0 <= j < ni ==> is_summary_for(
                        json_rep(#[trigger] vals@[j]),
                        media_items_inlined@[j]@.id,
                        None,
                    ),
                forall|j: int|
                    0 <= j < k ==> is_summary_for(
                        json_rep(#[trigger] vals@[ni + j]),
                        media_items_referenced@[j]@.id,
                        media_items_referenced@[j]@.ciphering,
                    ),
            decreases nr - k,
        {
            let v = match media_items_referenced[k].to_body_item() {
                Ok(v) => v,
                Err(e) => {
                    return Err(e);
                },
            };
            vals.push(v);
            k += 1;
        }
        let ghost items = vals@.map_values(|e: serde_json::Value| json_rep(e));
        proof {
            assert(summaries_ok(s, items));
        }
        let mut body_map = serde_json::Map::new();
        body_map.insert("items".to_string(), json_array(vals));
        let body = json_object(body_map);

        let b = didcomm::Message::build(
            id,
            "https://didcomm.org/media-sharing/1.0/share-media".to_string(),
            body,
        );
        let mut b = headers.merge_into(b);
        let ghost p1 = builder_parts(b);
        let ghost mut gatts: Seq<didcomm::Attachment> = Seq::empty();

        let mut rest_inlined = media_items_inlined;
        let ghost inl0 = rest_inlined@;
        proof {
            assert(rest_inlined@ =~= inl0.skip(0));
        }
        let mut a: usize = 0;
        while a < ni
            invariant
                a <= ni,
                ni == inl0.len(),
                rest_inlined@ == inl0.skip(a as int),
                gatts.len() == a,
                forall|j: int| 0 <= j < a ==> inlined_attachment_ok(inl0[j]@, #[trigger] gatts[j]),
                builder_parts(b) == (EnvParts {
                    attachments: (if a == 0 {
                        None
                    } else {
                        Some(gatts)
                    }),
                    ..p1
                }),
            decreases ni - a,
        {
            let it = rest_inlined.remove(0);
            proof {
                assert(it == inl0[a as int]);
                assert(rest_inlined@ =~= inl0.skip(a as int + 1));
            }
            let att = it.into_attachment();
            b = b.attachment(att);
            proof {
                gatts = gatts.push(att);
                if a == 0 {
                    assert(attachments_pushed(None, att)->0 =~= gatts);
                }
            }
            a += 1;
        }
        let mut rest_referenced = media_items_referenced;
        let ghost ref0 = rest_referenced@;
        proof {
            assert(rest_referenced@ =~= ref0.skip(0));
        }
        let mut c: usize = 0;
        while c < nr
            invariant
                c <= nr,
                nr == ref0.len(),
                ni == inl0.len(),
                rest_referenced@ == ref0.skip(c as int),
                gatts.len() == ni + c,
                forall|j: int| 0 <= j < ni ==> inlined_attachment_ok(inl0[j]@, #[trigger] gatts[j]),
                forall|j: int|
                    0 <= j < c ==> referenced_attachment_ok(ref0[j]@, #[trigger] gatts[ni + j]),
                builder_parts(b) == (EnvParts {
                    attachments: (if ni + c == 0 {
                        None
                    } else {
                        Some(gatts)
                    }),
                    ..p1
                }),
            decreases nr - c,
        {
            let it = rest_referenced.remove(0);
            proof {
                assert(it == ref0[c as int]);
                assert(rest_referenced@ =~= ref0.skip(c as int + 1));
            }
            let att = it.into_attachment();
            b = b.attachment(att);
            proof {
                gatts = gatts.push(att);
                if ni + c == 0 {
                    assert(attachments_pushed(None, att)->0 =~= gatts);
                }
            }
            c += 1;
        }
        let m = b.finalize();
        proof {
            assert(s.inlined.len() == ni && s.referenced.len() == nr);
            assert(m.attachments matches Some(v) && v@ == gatts);
        }
        Ok(m)
    }
}

} // verus!
