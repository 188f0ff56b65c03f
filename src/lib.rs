//! Client-side helpers for an IoT device talking to a cloud message hub over a
//! topic-based publish/subscribe transport: topic construction and matching,
//! message-property encoding, shared-access-signature strings, and retry backoff.

pub mod buffer;
pub mod encoding;
pub mod hub_client;
pub mod properties;
pub mod retry;
pub mod return_codes;
pub mod text;

pub use buffer::{
    copy_within_capacity, fit_text, grow_until_fits, write_bytes_within_capacity,
    write_within_capacity,
};
pub use encoding::{decode_component, encode_component};
pub use hub_client::{
    ClientC2DRequest, ClientMethodRequest, HubClient, HubClientBuilder, HubClientOptions, TopicType,
};
pub use properties::MessageProperties;
pub use return_codes::AzReturnCode;
