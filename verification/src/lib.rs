//! Read-side buffering cursor.
//!
//! The heart of the crate is [`internal::buffer::Buffer`]: a fixed-capacity
//! byte arena together with three indices (`pos`, `end`, `initialized`) that
//! track, independently, where the consumer's read cursor sits, how far the
//! arena currently holds valid unread data, and how far it has ever been
//! written.  The [`connector`] module holds the trait scaffolding through
//! which such a buffer is fed from a persistent store.

pub mod connector;
pub mod internal;
