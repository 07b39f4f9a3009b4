//! Account session and process coordination: the decisions behind holding
//! several credential identities for one desktop application and switching
//! between them, with the parts that touch the operating system kept behind
//! small, documented boundaries.

pub mod control;
pub mod handshake;
pub mod locate;
pub mod oauth;
pub mod process;
pub mod quota;
pub mod switch;
pub mod text;
pub mod token;
