//! Verified core of a Windows driver packaging pipeline.
//!
//! The library derives every path of a driver package from a package name and
//! a driver model, decides each step of the packaging workflow (rename, copy,
//! stamp, catalog, certificate handling, signing, INF verification) as a pure
//! state machine over provider responses, and scans INF-style templates for a
//! sample-class declaration.  All I/O is performed by a thin driver around the
//! library: the library only says which action comes next and how to interpret
//! what came back.

pub mod bytestr;
pub mod commands;
pub mod encoding;
pub mod error;
pub mod inx;
pub mod model;
pub mod pipeline;
pub mod replay;
pub mod task;
pub mod wdf;
