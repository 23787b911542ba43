//! Verified core of a Signal messaging client for Node.js: the conversion of
//! received messages, contacts, groups and profiles into the records handed to
//! JavaScript, the outgoing message bodies, the hex codec of group keys, the
//! per-store session registry and the decisions of the receive loop.

pub mod hexcodec;
pub mod records;
pub mod message;
pub mod registry;
pub mod errors;
pub mod session;
pub mod outgoing;
pub mod receive;
pub mod clock;
