//! Request translation for a filesystem that mirrors the directory tree of a
//! remote metadata service: the attribute record exchanged with the service,
//! the classification of its answers, the resolution of inode handles to
//! paths, and the handling of each kernel request as a sequence of steps.

pub mod client;
pub mod codec;
pub mod gateway;
pub mod handler;
pub mod laws;
pub mod text;
