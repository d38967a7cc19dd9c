use vstd::prelude::*;

use crate::text::join;

verus! {

/// What went wrong, by kind, with the cause written out.
#[derive(Debug, PartialEq, Eq)]
pub enum AppError {
    IOError(String),
    SerializationError(String),
    ConfigError(String),
    OllamaError(String),
    QdrantError(String),
    VectorDBError(String),
    TUIError(String),
    UnexpectedError(String),
}

/// The words that introduce each kind of error in a report.
pub open spec fn error_kind_prefix(e: AppError) -> Seq<char> {
    match e {
        AppError::IOError(_) => "I/O error: "@,
        AppError::SerializationError(_) => "Serialization error: "@,
        AppError::ConfigError(_) => "Configuration error: "@,
        AppError::OllamaError(_) => "Ollama API error: "@,
        AppError::QdrantError(_) => "Qdrant client error: "@,
        AppError::VectorDBError(_) => "Vector database error: "@,
        AppError::TUIError(_) => "TUI error: "@,
        AppError::UnexpectedError(_) => "Unexpected error: "@,
    }
}

/// The cause carried by an error.
pub open spec fn error_cause(e: AppError) -> Seq<char> {
    match e {
        AppError::IOError(m) => m@,
        AppError::SerializationError(m) => m@,
        AppError::ConfigError(m) => m@,
        AppError::OllamaError(m) => m@,
        AppError::QdrantError(m) => m@,
        AppError::VectorDBError(m) => m@,
        AppError::TUIError(m) => m@,
        AppError::UnexpectedError(m) => m@,
    }
}

/// The full report of an error: its kind, then its cause.
pub open spec fn error_message(e: AppError) -> Seq<char> {
    error_kind_prefix(e) + error_cause(e)
}

impl AppError {
    /// Writes the error out for a person to read.
    pub fn message(&self) -> (r: String)
        ensures
            r@ == error_message(*self),
    {
        match self {
            AppError::IOError(m) => join("I/O error: ", m.as_str()),
            AppError::SerializationError(m) => join("Serialization error: ", m.as_str()),
            AppError::ConfigError(m) => join("Configuration error: ", m.as_str()),
            AppError::OllamaError(m) => join("Ollama API error: ", m.as_str()),
            AppError::QdrantError(m) => join("Qdrant client error: ", m.as_str()),
            AppError::VectorDBError(m) => join("Vector database error: ", m.as_str()),
            AppError::TUIError(m) => join("TUI error: ", m.as_str()),
            AppError::UnexpectedError(m) => join("Unexpected error: ", m.as_str()),
        }
    }
}

} // verus!
