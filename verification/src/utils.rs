//! Token, password and database-pool helpers.

pub mod db;
pub mod jwt;
pub mod password;
