//! A memory-safe wrapper around a native graph-layout-and-rendering engine.
//!
//! The library keeps the verifiable part of the wrapper: configuration of the
//! layout engine and output format, conversion of strings into the
//! nul-terminated representation the native engine expects, the bookkeeping of
//! the output pipe, and the decision logic of a render call (which native call
//! to make next, which resources to release on each exit path, which error to
//! report). The native calls themselves, which are foreign and unsafe, are
//! made by an unverified shell that drives the session state machine defined
//! here.

pub mod context;
pub mod enums;
pub mod error;
pub mod marshal;
pub mod pipe;
pub mod session;

pub use context::GVC;
pub use error::GenericError;
