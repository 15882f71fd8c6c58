use vstd::prelude::*;

verus! {

/// Why a dependency could not be resolved from a request context.
#[derive(Clone, Copy, Debug, PartialEq, Eq, Structural)]
pub enum ContextError {
    /// The process-wide configuration is not available.
    ConfigError,
    /// The dependency needs the inbound request and there is none.
    RequestError,
    Other,
}

/// Why the process-wide configuration could not be loaded.
#[derive(Clone, Copy, Debug, PartialEq, Eq, Structural)]
pub enum ConfigError {
    ParseError,
}

/// Failures of the user store.
#[derive(Clone, Copy, Debug, PartialEq, Eq, Structural)]
pub enum UserRepositoryError {
    QueryError,
    RowValueError,
    LockError,
    NotFoundError,
}

/// Failures of the user management store.
#[derive(Clone, Copy, Debug, PartialEq, Eq, Structural)]
pub enum UserManagerRepositoryError {
    QueryError,
    RowValueError,
    LockError,
    NotFoundError,
}

/// Failures of adding a short URL.
#[derive(Clone, Copy, Debug, PartialEq, Eq, Structural)]
pub enum AddUrlServiceError {
    DbError,
}

/// Failures of deleting a short URL.
#[derive(Clone, Copy, Debug, PartialEq, Eq, Structural)]
pub enum DeleteUrlServiceError {
    DbError,
}

/// Failures of editing a short URL.
#[derive(Clone, Copy, Debug, PartialEq, Eq, Structural)]
pub enum EditUrlServiceError {
    DbError,
}

/// Failures of looking up where a short URL leads.
#[derive(Clone, Copy, Debug, PartialEq, Eq, Structural)]
pub enum FetchUrlServiceError {
    DbError,
    NotFound,
}

/// Failures of adding a user.
#[derive(Clone, Copy, Debug, PartialEq, Eq, Structural)]
pub enum AddUserServiceError {
    SubmitFailed,
    PasswordHashError,
    PasswordSerializeError,
}

/// Failures of changing a user's password.
#[derive(Clone, Copy, Debug, PartialEq, Eq, Structural)]
pub enum EditPasswordServiceError {
    UserNotFound,
    DbError,
    PasswordHashError,
    PasswordSerializeError,
}

/// Failures of editing a user.
#[derive(Clone, Copy, Debug, PartialEq, Eq, Structural)]
pub enum EditUserServiceError {
    SubmitFailed,
    UserNotFound,
}

impl ContextError {
    /// The message shown for this error.
    pub fn message(&self) -> (r: &'static str)
        ensures
            *self == ContextError::ConfigError ==> r@ == "Config error"@,
            *self == ContextError::RequestError ==> r@ == "Request error"@,
            *self == ContextError::Other ==> r@ == "Other error"@,
    {
        match self {
            ContextError::ConfigError => "Config error",
            ContextError::RequestError => "Request error",
            ContextError::Other => "Other error",
        }
    }
}

impl ConfigError {
    /// The message shown for this error.
    pub fn message(&self) -> (r: &'static str)
        ensures
            *self == ConfigError::ParseError ==> r@ == "Config did not parse"@,
    {
        match self {
            ConfigError::ParseError => "Config did not parse",
        }
    }
}

impl UserRepositoryError {
    /// The message shown for this error.
    pub fn message(&self) -> (r: &'static str)
        ensures
            *self == UserRepositoryError::QueryError ==> r@ == "Query error"@,
            *self == UserRepositoryError::RowValueError ==> r@ == "Row Value error"@,
            *self == UserRepositoryError::LockError ==> r@ == "Lock error"@,
            *self == UserRepositoryError::NotFoundError ==> r@ == "Not found error"@,
    {
        match self {
            UserRepositoryError::QueryError => "Query error",
            UserRepositoryError::RowValueError => "Row Value error",
            UserRepositoryError::LockError => "Lock error",
            UserRepositoryError::NotFoundError => "Not found error",
        }
    }
}

impl UserManagerRepositoryError {
    /// The message shown for this error.
    pub fn message(&self) -> (r: &'static str)
        ensures
            *self == UserManagerRepositoryError::QueryError ==> r@ == "Query error"@,
            *self == UserManagerRepositoryError::RowValueError ==> r@ == "Row Value error"@,
            *self == UserManagerRepositoryError::LockError ==> r@ == "Lock error"@,
            *self == UserManagerRepositoryError::NotFoundError ==> r@ == "Not found error"@,
    {
        match self {
            UserManagerRepositoryError::QueryError => "Query error",
            UserManagerRepositoryError::RowValueError => "Row Value error",
            UserManagerRepositoryError::LockError => "Lock error",
            UserManagerRepositoryError::NotFoundError => "Not found error",
        }
    }
}

impl AddUrlServiceError {
    /// The message shown for this error.
    pub fn message(&self) -> (r: &'static str)
        ensures
            *self == AddUrlServiceError::DbError ==> r@ == "Database error"@,
    {
        match self {
            AddUrlServiceError::DbError => "Database error",
        }
    }
}

impl DeleteUrlServiceError {
    /// The message shown for this error.
    pub fn message(&self) -> (r: &'static str)
        ensures
            *self == DeleteUrlServiceError::DbError ==> r@ == "Database error"@,
    {
        match self {
            DeleteUrlServiceError::DbError => "Database error",
        }
    }
}

impl EditUrlServiceError {
    /// The message shown for this error.
    pub fn message(&self) -> (r: &'static str)
        ensures
            *self == EditUrlServiceError::DbError ==> r@ == "Database error"@,
    {
        match self {
            EditUrlServiceError::DbError => "Database error",
        }
    }
}

impl FetchUrlServiceError {
    /// The message shown for this error.
    pub fn message(&self) -> (r: &'static str)
        ensures
            *self == FetchUrlServiceError::DbError ==> r@ == "Db error"@,
            *self == FetchUrlServiceError::NotFound ==> r@ == "Not Found"@,
    {
        match self {
            FetchUrlServiceError::DbError => "Db error",
            FetchUrlServiceError::NotFound => "Not Found",
        }
    }
}

impl AddUserServiceError {
    /// The message shown for this error.
    pub fn message(&self) -> (r: &'static str)
        ensures
            *self == AddUserServiceError::SubmitFailed ==> r@ == "User already exists"@,
            *self == AddUserServiceError::PasswordHashError ==> r@ == "Password Hash Error"@,
            *self == AddUserServiceError::PasswordSerializeError ==> r@ == "Password Serialize Error"@,
    {
        match self {
            AddUserServiceError::SubmitFailed => "User already exists",
            AddUserServiceError::PasswordHashError => "Password Hash Error",
            AddUserServiceError::PasswordSerializeError => "Password Serialize Error",
        }
    }
}

impl EditPasswordServiceError {
    /// The message shown for this error.
    pub fn message(&self) -> (r: &'static str)
        ensures
            *self == EditPasswordServiceError::UserNotFound ==> r@ == "User not found"@,
            *self == EditPasswordServiceError::DbError ==> r@ == "Database error"@,
            *self == EditPasswordServiceError::PasswordHashError ==> r@ == "Password Hash Error"@,
            *self == EditPasswordServiceError::PasswordSerializeError ==> r@ == "Password Serialize Error"@,
    {
        match self {
            EditPasswordServiceError::UserNotFound => "User not found",
            EditPasswordServiceError::DbError => "Database error",
            EditPasswordServiceError::PasswordHashError => "Password Hash Error",
            EditPasswordServiceError::PasswordSerializeError => "Password Serialize Error",
        }
    }
}

impl EditUserServiceError {
    /// The message shown for this error.
    pub fn message(&self) -> (r: &'static str)
        ensures
            *self == EditUserServiceError::SubmitFailed ==> r@ == "User already exists"@,
            *self == EditUserServiceError::UserNotFound ==> r@ == "User not found"@,
    {
        match self {
            EditUserServiceError::SubmitFailed => "User already exists",
            EditUserServiceError::UserNotFound => "User not found",
        }
    }
}

} // verus!
