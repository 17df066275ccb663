//! Sticker resolution: which image a short name typed in a chat stands for,
//! given the requester, the community the request was made in, and that
//! community's access rules.

pub mod access;
pub mod chat;
pub mod decimal;
pub mod errors;
pub mod registry;
pub mod source;
pub mod sticker;
