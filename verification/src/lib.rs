mod direct_message_builder;
mod envelope;
mod error;
mod headers;
mod idgen;
mod json;
mod key;
mod key_sharing_message_builder;
mod media_item_inlined;
mod media_item_message_builder;
mod media_item_referenced;

pub use didcomm;
pub use direct_message_builder::DirectMessageBuilder;
pub use error::MessageBuilderError;
pub use key::JsonWebKey;
pub use key_sharing_message_builder::KeySharingMessageBuilder;
pub use media_item_inlined::MediaItemInlined;
pub use media_item_message_builder::MediaItemsMessageBuilder;
pub use media_item_referenced::MediaItemReferenced;
