//! A verified core for a terminal Bible reader: the bundled KJV text and its
//! lookups, the canonical book table, the translation catalogue, and the
//! browser's navigation state machine.
pub mod text;
pub mod books;
pub mod clock;
pub mod types;
pub mod kjv;
pub mod translations;
pub mod bookmarks;
pub mod browser;
pub mod layout;
pub mod laws;
