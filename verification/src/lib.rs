//! The checked half of a calling convention over the CUDA runtime API.
//!
//! Every entry point of the runtime answers with a status code and leaves its
//! result in storage that the caller lent it. This crate decides what such an
//! answer is worth: the stored value when the status says success, and
//! otherwise an error that carries the status, with nothing of the storage
//! handed on.

pub mod result;
