use vstd::prelude::*;

verus! {

/// What starting the server returns.
pub type AppResult<T> = Result<T, AppError>;

/// Why the server could not be put together.
#[derive(Debug)]
pub enum AppError {
    /// The application data was built without a database pool.
    MissingDatabasePool,
    /// The application data was built without a signing secret.
    MissingJwtSecret,
    /// Any other failure, by its message.
    Other(String),
}

} // verus!
