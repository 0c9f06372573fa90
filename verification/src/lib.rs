//! The rule engine of a multiplayer text adventure: rooms joined by
//! riddle-gated doorways, users who walk through the doorways they have
//! solved, and the scoring of their answers.

pub mod access;
pub mod accounts;
pub mod activation;
pub mod auth;
pub mod clock;
pub mod db;
pub mod error;
pub mod files;
pub mod handlers;
pub mod ident;
pub mod laws;
pub mod management;
pub mod model;
pub mod passwd;
pub mod random;
pub mod registration;
pub mod rejection;
pub mod resolve;
pub mod responses;
pub mod rooms;
pub mod seqs;
pub mod sessions;
pub mod stats;
pub mod text;
pub mod tokens;
pub mod totp;
pub mod traversal;
pub mod webauthn;
