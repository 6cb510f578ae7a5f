//! A chat service: users, rooms, messages and JSON Web Tokens.
pub mod auth;
pub mod cors;
pub mod db;
pub mod errors;
pub mod jwt;
pub mod message;
pub mod migration;
pub mod room;
pub mod routes;
pub mod text;
pub mod time;
pub mod user;
