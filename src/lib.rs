//! Core of a small HTTP items service: configuration, item payloads, the
//! decisions each endpoint makes, the route table and password hashing.
//! The HTTP listener and the database live around this library and hand it
//! plain values.

pub mod config;
pub mod db;
pub mod handlers;
pub mod hash_utils;
pub mod models;
pub mod routes;

