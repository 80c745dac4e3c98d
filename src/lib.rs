//! Backend of a small file explorer: the listing policy (which children of a
//! directory are shown and in what order), the error kinds of its commands,
//! and the decision behind the maximize toggle of the window controls.

pub mod entry;
pub mod order;
pub mod error;
pub mod listing;
pub mod window;
