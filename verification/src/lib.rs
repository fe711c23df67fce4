//! Core logic of a small personal file cloud server: per-user storage paths,
//! directory listings, the session repository, authentication decisions and
//! the configuration it starts from.

pub mod path;
pub mod id;
pub mod storage;
pub mod model;
pub mod database;
pub mod util;
pub mod jwt;
pub mod api;
pub mod auth;
pub mod routes;
pub mod env;
