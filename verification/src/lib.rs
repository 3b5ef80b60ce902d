//! Core logic of an HTTP-to-RPC notes gateway: request validation, the
//! re-chunking of uploaded files into bounded frames, the framing of upload
//! and download streams, and the mapping of failures to response categories.

pub mod error;
pub mod text;
pub mod decimal;
pub mod query;
pub mod chunk;
pub mod multipart;
pub mod upload;
pub mod download;
pub mod rpc;
pub mod types;
pub mod config;
pub mod session;
