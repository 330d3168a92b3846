use crate::app_error::{AppError, AppResult};
use vstd::prelude::*;

verus! {

/// What every request handler is given: the pool of database connections,
/// of whatever type `P` the store uses, and the secret that tokens are signed
/// with. The secret is set once and only read afterwards.
pub struct AppData<P> {
    pub pool: P,
    pub jwt_secret: String,
}

impl<P> AppData<P> {
    /// A builder with nothing set.
    pub fn builder() -> (builder: AppDataBuilder<P>)
        ensures
            builder.pool() is None,
            builder.jwt_secret() is None,
    {
        AppDataBuilder { pool: None, jwt_secret: None }
    }
}

/// Collects the parts of an `AppData`.
pub struct AppDataBuilder<P> {
    pool: Option<P>,
    jwt_secret: Option<String>,
}

impl<P> AppDataBuilder<P> {
    /// The pool that was set, if any.
    pub closed spec fn pool(self) -> Option<P> {
        self.pool
    }

    /// The secret that was set, if any.
    pub closed spec fn jwt_secret(self) -> Option<String> {
        self.jwt_secret
    }

    /// The application data, if both parts were set; otherwise the error that
    /// names the missing part, the pool first.
    pub fn build(self) -> (r: AppResult<AppData<P>>)
        ensures
            match (self.pool(), self.jwt_secret()) {
                (Some(pool), Some(secret)) => r matches Ok(data) && data.pool == pool
                    && data.jwt_secret == secret,
                (None, _) => r matches Err(AppError::MissingDatabasePool),
                (Some(_), None) => r matches Err(AppError::MissingJwtSecret),
            },
    {
        let pool = match self.pool {
            Some(pool) => pool,
            None => {
                return Err(AppError::MissingDatabasePool);
            },
        };
        let jwt_secret = match self.jwt_secret {
            Some(secret) => secret,
            None => {
                return Err(AppError::MissingJwtSecret);
            },
        };
        Ok(AppData { pool, jwt_secret })
    }

    /// Sets the pool, replacing an earlier one.
    pub fn with_pool(self, pool: P) -> (builder: Self)
        ensures
            builder.pool() == Some(pool),
            builder.jwt_secret() == self.jwt_secret(),
    {
        AppDataBuilder { pool: Some(pool), jwt_secret: self.jwt_secret }
    }

    /// Sets the signing secret, replacing an earlier one.
    pub fn with_jwt_secret(self, secret: String) -> (builder: Self)
        ensures
            builder.pool() == self.pool(),
            builder.jwt_secret() == Some(secret),
    {
        AppDataBuilder { pool: self.pool, jwt_secret: Some(secret) }
    }
}

} // verus!
