//! A self-describing tag-length-value encoding for small records.
//!
//! Every value on the wire is a record `tag (1 byte) | length (2 bytes, big-endian) | payload`.
//! Composite records (an entity, an action, a session) carry the records of their fields, in a
//! fixed order, as their payload. Decoding reads fields strictly in that order and checks each
//! tag against the kind the caller asks for.
pub mod codec;
pub mod error;
pub mod laws;
pub mod reader;
pub mod records;
pub mod wire;

pub use codec::{serialize, Field, FieldView, Serialize};
pub use error::Error;
pub use reader::{Deserialize, FieldReader};
pub use records::{Action, ActionKind, Entity, Session};
pub use wire::FieldType;
