//! Core engine of an add-on manager: it merges the metadata of locally
//! discovered add-on folders with the metadata reported by remote
//! repositories, decides which remote release is relevant for a chosen
//! release channel, decides whether an update exists, and plans the
//! extraction of a downloaded archive into the install root.

pub mod addon;
pub mod install;
pub mod repository;
pub mod strings;
pub mod time;
