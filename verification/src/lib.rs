//! Core logic of a link shortener: validation of submitted links and
//! aliases, generation of short codes, and the decisions taken while a
//! link is created, looked up and listed.

pub mod backend;
pub mod codec;
pub mod create;
pub mod text;
pub mod views;
