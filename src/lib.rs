//! Collects the signatures of exported functions over one build session and
//! renders the extension descriptor that a host runtime reads to load them.
pub mod descriptor;
pub mod session;
pub mod signature;
pub mod text;
