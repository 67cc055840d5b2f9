//! Arenas for three further sum types, of other shapes than
//! [`Mock`](crate::mock::Mock): more variants with payloads, payloads that
//! borrow, and a generic payload inside a tuple.

pub mod enum_arena;
pub mod node_arena;
pub mod node_v2_arena;
