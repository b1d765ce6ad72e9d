//! The built-in classes' native members, written against the engine.
//!
//! Each module holds the native functions of one built-in: the host's
//! dispatch loop maps opaque method handles onto these functions.

pub mod display_object;
pub mod event_class;
pub mod menu_item;
pub mod object_class;
pub mod regexp_class;
pub mod security;
