//! Builders for syntax-tree nodes that hand each finished node to a
//! continuation: either straight back to the caller, or into the builder
//! that is still waiting for it.
pub mod ast;
pub mod attr;
pub mod expr;
pub mod impl_item;
pub mod invoke;
pub mod mac;
pub mod path;
pub mod tokens;
pub mod trait_ref;
pub mod ty;
