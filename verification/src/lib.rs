pub mod command;
pub mod deadline;
pub mod names;
pub mod render;
pub mod session;
pub mod store;
pub mod text;
pub mod timestamp;
