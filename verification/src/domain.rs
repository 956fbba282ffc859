//! The domain model: value objects, events and the two aggregates.

pub mod aggregates;
pub mod events;
pub mod value_objects;
