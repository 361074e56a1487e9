//! Resolution and presentation of numbered webcomics: building the archive
//! address, validating a decoded record into a `Comic`, and rendering it as a
//! chat reply.
pub mod comic;
pub mod date;
pub mod render;
pub mod text;
