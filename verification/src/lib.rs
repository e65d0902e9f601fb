//! Account-directory core for a multiplayer game backend: password-credential
//! issuance (salt + verifier for a zero-knowledge password protocol) and a
//! schema-aware, whitelist-based field-projection query planner, together with
//! the in-memory directory store and the query/mutation facade built on them.

pub mod access;
pub mod account;
pub mod config;
pub mod credential;
pub mod db;
pub mod planner;
pub mod realmcharacters;
pub mod schema;

