//! The envelope of every answer of the API.

use std::collections::HashMap;
use vstd::prelude::*;

verus! {

/// An answer: either data, or an error with the fields that were refused.
#[derive(Debug)]
pub struct ApiResponse<T> {
    pub success: bool,
    pub data: Option<T>,
    pub error: Option<String>,
    pub validation_errors: Option<HashMap<String, Vec<String>>>,
}

impl<T> ApiResponse<T> {
    /// The answer that carries `data`.
    pub fn success(data: T) -> (response: Self)
        ensures
            response.success,
            response.data == Some(data),
            response.error is None,
            response.validation_errors is None,
    {
        Self { success: true, data: Some(data), error: None, validation_errors: None }
    }

    /// The answer that carries the error `message` and, where some were
    /// found, the errors of single fields.
    pub fn error(message: &str, validation_errors: Option<HashMap<String, Vec<String>>>) -> (response:
        Self)
        ensures
            !response.success,
            response.data is None,
            response.error matches Some(text) && text@ == message@,
            response.validation_errors == validation_errors,
    {
        Self { success: false, data: None, error: Some(message.to_owned()), validation_errors }
    }
}

} // verus!
