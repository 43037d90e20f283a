use vstd::prelude::*;

use crate::text::join2;

verus! {

/// Why a command could not be carried out.
#[derive(Debug, PartialEq, Eq)]
pub enum AppError {
    /// No registered command has this name.
    CommandNotFound(String),
    /// The parameters, or what they name, are not usable.
    InvalidParams(String),
    /// The browser binding failed; the text is its own report.
    Browser(String),
}

/// Mathematical picture of an [`AppError`].
pub enum ErrorModel {
    CommandNotFound(Seq<char>),
    InvalidParams(Seq<char>),
    Browser(Seq<char>),
}

impl View for AppError {
    type V = ErrorModel;

    open spec fn view(&self) -> ErrorModel {
        match self {
            AppError::CommandNotFound(s) => ErrorModel::CommandNotFound(s@),
            AppError::InvalidParams(s) => ErrorModel::InvalidParams(s@),
            AppError::Browser(s) => ErrorModel::Browser(s@),
        }
    }
}

/// The text by which an error reports itself.
pub open spec fn error_text(e: ErrorModel) -> Seq<char> {
    match e {
        ErrorModel::CommandNotFound(s) => "command not found: "@ + s,
        ErrorModel::InvalidParams(s) => "invalid params: "@ + s,
        ErrorModel::Browser(s) => "browser error: "@ + s,
    }
}

impl AppError {
    /// The text by which the error reports itself.
    pub fn message(&self) -> (s: String)
        ensures
            s@ == error_text(self@),
    {
        match self {
            AppError::CommandNotFound(m) => join2("command not found: ", m.as_str()),
            AppError::InvalidParams(m) => join2("invalid params: ", m.as_str()),
            AppError::Browser(m) => join2("browser error: ", m.as_str()),
        }
    }

    /// A copy of the error.
    pub fn duplicate(&self) -> (e: AppError)
        ensures
            e@ == self@,
    {
        match self {
            AppError::CommandNotFound(m) => AppError::CommandNotFound(m.clone()),
            AppError::InvalidParams(m) => AppError::InvalidParams(m.clone()),
            AppError::Browser(m) => AppError::Browser(m.clone()),
        }
    }
}

} // verus!
