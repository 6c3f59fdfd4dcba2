//! Skeleton of a compile-time attribute that derives error-context plumbing
//! for structs and enums.
//!
//! The library holds the decision logic of one macro invocation: parsing the
//! attribute arguments into a [`args::Config`] and dispatching on the kind of
//! the annotated item.  Reading and emitting token streams is left to an
//! unverified shell around the library.

pub mod args;
pub mod dispatch;
