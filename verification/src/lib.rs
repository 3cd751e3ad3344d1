//! Core logic of `lon`: git output handling and forge requests, with contracts.

pub mod decode;
pub mod forge;
pub mod git;
pub mod github;
pub mod gitlab;
pub mod header;
pub mod session;
pub mod text;
