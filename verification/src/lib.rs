//! A directory browser's core: the sorted listing of one directory, the
//! cursor that moves over it, and the rows drawn for it.

pub mod dir;
pub mod entry;
pub mod error;
pub mod listing;
pub mod nav;
pub mod order;
pub mod path;
pub mod render;
pub mod text;
