//! Accounts, credentials and session tokens of a small web service.
//!
//! Emails, passwords and profile fields are validated on the way in and held
//! in types that only validation can make. Passwords are stored as Argon2
//! hashes. A login exchanges an email and a password for a signed token that
//! is good for a day, and answers a wrong password as it answers an unknown
//! email. A guard lets a request through to a protected route only
//! with such a token.
//!
//! Nothing here reads the network, the database or the environment: callers
//! hand in what they found there and carry out what comes back.

pub mod app_config;
pub mod app_data;
pub mod app_error;
pub mod jwt;
pub mod jwt_coding;
pub mod password;
pub mod profiles;
pub mod request_error;
pub mod text;
pub mod user_service;
pub mod users;
