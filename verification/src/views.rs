//! What the pages decide: the link form and the list of recent links.

pub mod home;
pub mod recent;
