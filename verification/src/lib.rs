//! Parent-relationship components for an entity hierarchy.
//!
//! Each entity may hold a reference to a single parent entity. The components
//! here are passive value holders; their one behaviour is the remapping
//! protocol: when a set of entities is copied or merged into another universe,
//! every reference that crosses the boundary is translated through an explicit
//! remap table, and a reference the table does not record is left untouched
//! rather than treated as an error. A reserved sentinel identifier lets
//! generic construction machinery manufacture a placeholder instance before
//! real data is known.

pub mod entity;
pub mod parent;
pub mod remap;

pub use entity::EntityId;
pub use entity::PLACEHOLDER_RAW;
pub use parent::Parent;
pub use parent::PreviousParent;
