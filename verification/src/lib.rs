//! Node-representation layer of a virtual-DOM rendering engine.
//!
//! This crate defines the tagged node representation (`VNode`), the arena
//! that owns every payload record for one render pass, the key, attribute
//! and listener value types, and the type-erased component wrapper with its
//! memoization comparator. It builds trees; it never walks, compares or
//! mutates them — diffing, mounting and scheduling are external
//! collaborators that only read the records and write the physical-node
//! handle cells through the entry points this crate provides.

pub mod attribute;
pub mod component;
pub mod key;
pub mod listener;
pub mod node;

pub use attribute::Attribute;
pub use component::ErasedProps;
pub use component::VComponent;
pub use key::NodeKey;
pub use listener::Listener;
pub use listener::ListenerHandle;
pub use node::Arena;
pub use node::VElement;
pub use node::VFragment;
pub use node::VNode;
pub use node::VText;
