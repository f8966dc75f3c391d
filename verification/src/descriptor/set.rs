//! Descriptor set layouts.
pub mod layout;
