//! Keeps a motion, the thread in which it is discussed and the record that
//! is filed for it in step.
//!
//! A motion stands in three places: as a thread on the chat platform, whose
//! first messages hold its fields in fixed slots, as a record with the
//! record service, and as a note in the correlation store of which record
//! belongs to which thread. The commands of this crate decide what is
//! written where and in which order. They never call out themselves: each
//! hands out one [`exchange::Request`] at a time and goes on from the
//! [`exchange::Response`] that its caller brings back.

pub mod create;
pub mod edit;
pub mod exchange;
pub mod failure;
pub mod kind;
pub mod laws;
pub mod motion;
pub mod people;
pub mod signoff;
pub mod text;
pub mod transcript;
pub mod wording;

pub use crate::create::{antrag, create_antrag, information, sonstiges};
pub use crate::edit::edit;
pub use crate::kind::TopType;
pub use crate::signoff::abmelden;
