//! Core of a webhook receiver for a source-control host: signature
//! verification of raw request bodies against a shared secret, structural
//! decoding of event payloads, and kind-driven dispatch to handlers.

pub mod hexstr;
pub mod envelope;
pub mod signature;
pub mod dispatch;
pub mod json;
pub mod pipeline;
pub mod event;
