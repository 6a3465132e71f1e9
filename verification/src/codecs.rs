//! The concrete codec shapes: primitives, containers and wrappers.

pub mod either;
pub mod lazy;
pub mod list;
pub mod primitive;
pub mod range;
pub mod unbounded_map;
pub mod validated;
