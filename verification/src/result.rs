//! The result type that every engine and controller operation returns.

use std::collections::HashMap;
use vstd::prelude::*;

verus! {

/// What went wrong in an operation: a stable code, a message for people, and
/// free-form details.
#[derive(Debug, Clone)]
pub struct AlgorithmError {
    pub code: String,
    pub message: String,
    pub details: HashMap<String, String>,
}

/// The mathematical content of an [`AlgorithmError`].
pub struct AlgorithmErrorView {
    pub code: Seq<char>,
    pub message: Seq<char>,
    pub details: Map<String, String>,
}

impl View for AlgorithmError {
    type V = AlgorithmErrorView;

    open spec fn view(&self) -> AlgorithmErrorView {
        AlgorithmErrorView { code: self.code@, message: self.message@, details: self.details@ }
    }
}

/// Outcome of an operation: a success flag, the payload of a success and the
/// error of a failure.
#[derive(Debug, Clone)]
pub struct AlgorithmResult<T> {
    pub success: bool,
    pub data: Option<T>,
    pub error: Option<AlgorithmError>,
}

/// The mathematical content of an [`AlgorithmResult`], its payload taken by
/// its view.
pub struct AlgorithmResultView<V> {
    pub success: bool,
    pub data: Option<V>,
    pub error: Option<AlgorithmErrorView>,
}

impl<T: View> View for AlgorithmResult<T> {
    type V = AlgorithmResultView<T::V>;

    open spec fn view(&self) -> AlgorithmResultView<T::V> {
        AlgorithmResultView {
            success: self.success,
            data: match self.data {
                Some(d) => Some(d@),
                None => None,
            },
            error: match self.error {
                Some(e) => Some(e@),
                None => None,
            },
        }
    }
}

/// The view of a success that carries `data`.
pub open spec fn success_view<V>(data: V) -> AlgorithmResultView<V> {
    AlgorithmResultView { success: true, data: Some(data), error: None }
}

/// The view of a failure with the given code and message and no details.
pub open spec fn error_view<V>(code: Seq<char>, message: Seq<char>) -> AlgorithmResultView<V> {
    AlgorithmResultView {
        success: false,
        data: None,
        error: Some(AlgorithmErrorView { code, message, details: Map::empty() }),
    }
}

impl<T> AlgorithmResult<T> {
    /// A successful result that carries `data`.
    pub fn success(data: T) -> (r: Self)
        ensures
            r.success,
            r.data == Some(data),
            r.error.is_none(),
    {
        AlgorithmResult { success: true, data: Some(data), error: None }
    }

    /// A failed result with the given code and message and no details.
    pub fn error(code: &str, message: &str) -> (r: Self)
        ensures
            !r.success,
            r.data.is_none(),
            r.error.is_some(),
            r.error.unwrap()@ == (AlgorithmErrorView {
                code: code@,
                message: message@,
                details: Map::empty(),
            }),
    {
        AlgorithmResult {
            success: false,
            data: None,
            error: Some(
                AlgorithmError {
                    code: code.to_string(),
                    message: message.to_string(),
                    details: HashMap::new(),
                },
            ),
        }
    }
}

} // verus!
