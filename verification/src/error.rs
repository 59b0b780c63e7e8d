use vstd::prelude::*;

verus! {

/// What can go wrong in the application.
#[derive(Debug)]
pub enum AppError {
    /// A failure inside the application, with its description.
    Internal(String),
}

/// A result whose error is an `AppError`.
pub type AppResult<T> = Result<T, AppError>;

} // verus!
