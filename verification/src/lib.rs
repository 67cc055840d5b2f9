//! Compact storage for the values of a sum type: one pool per payload-carrying
//! variant, an offset table in allocation order, and generation-stamped handles
//! that a single `clear` invalidates all at once.
//!
//! [`policy`] holds the integer types for offsets and stamps, [`pool`] and
//! [`table`] the two building blocks of an arena, [`model`] what an arena holds
//! as mathematics and [`laws`] what follows from that. [`mock`] is an arena
//! written out for one sum type, [`samples`] has three more, and [`schema`]
//! lays out the arena of any enum from its declaration.

pub mod laws;
pub mod mock;
pub mod model;
pub mod policy;
pub mod pool;
pub mod samples;
pub mod schema;
pub mod table;
