//! Notes with a title, a body and a date, the texts they are stored as, and
//! the editing session that a front end drives.
//!
//! The library computes and decides; it never touches the file system. A
//! caller reads, writes and removes the files and hands the texts over.
//!
//! - [`date`] and [`note`] hold the values and the rules that make them
//!   valid.
//! - [`structured`] and [`legacy`] are the two formats of a stored note,
//!   [`codec`] picks one by the name of the file.
//! - [`catalog`] says where a file lies and which names a search shows.
//! - [`noteapp`] is the editing session.
//! - [`json`], [`clock`], [`text`] and [`decimal`] are what the others
//!   stand on.

pub mod catalog;
pub mod clock;
pub mod codec;
pub mod date;
pub mod decimal;
pub mod error;
pub mod json;
pub mod legacy;
pub mod note;
pub mod noteapp;
pub mod structured;
pub mod text;

pub use codec::Codec;
pub use date::Date;
pub use error::NoteError;
pub use note::{Note, NoteView};
pub use noteapp::{NoteApp, SessionView, StoredFile};
