//! Decoding of page-content instructions into typed operations.
pub mod value;
pub mod operation;
pub mod text;
pub mod decode;
pub mod stream;
pub mod content;
pub mod laws;
pub mod document;
