//! The package container: header, compressed manifest and payload.

pub mod builder;
pub mod header;
pub mod payload;
pub mod reader;
pub mod writer;
