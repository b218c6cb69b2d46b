//! Authentication and authorization core of a multi-user note and file
//! store: the request security context, the password credential lifecycle
//! and the access model for memo groups and files.

pub mod check_security_middleware;
pub mod config;
pub mod db;
pub mod errors;
pub mod models;
pub mod password;
pub mod permissions;
pub mod routes;
pub mod text;
