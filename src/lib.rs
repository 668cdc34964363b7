//! Browsing and editing a large table through a scrollable window over paged
//! store queries: the row-window engine, the query compiler, the undo history,
//! the edit session and the key bindings, with the store and the terminal left
//! to the caller.

pub mod grapheme;
pub mod window;
pub mod text;
pub mod protocol;
pub mod query;
pub mod csv;
pub mod history;
pub mod app;
pub mod edit;
pub mod view;
pub mod layout;
pub mod keys;
