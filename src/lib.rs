//! Notes assistant core: scanning a notes tree, planning what goes to the
//! vector store, assembling retrieval-augmented prompts, running the indexing
//! batch and the interactive session, all as verified state and decisions.
//! The network calls and the terminal are driven from outside the library.

pub mod config;
pub mod error;
pub mod indexing;
pub mod rag;
pub mod scanner;
pub mod session;
pub mod text;
pub mod vectors;
