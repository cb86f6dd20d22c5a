//! A task list whose new entries are placed by a cursor among insertion slots,
//! with the list kept as JSON text between sessions.
pub mod factory;
pub mod placement;
pub mod render;
pub mod store;
pub mod task;
