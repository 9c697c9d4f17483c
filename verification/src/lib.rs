//! A safety layer over a host scripting runtime's reference-counted values.
//!
//! The host runtime hands out opaque, tagged value records and growable
//! arrays of such records through a C-compatible function table.  This
//! library makes construction, conversion, and destruction of those values
//! memory-safe: a [`value::ByondValue`] owns exactly one record, a
//! [`list::ByondValueList`] owns one growable array of records, and every
//! fallible operation surfaces the runtime's failures as a typed
//! [`error::Error`] produced by the error translator.
//!
//! The raw foreign calls themselves (uninitialized-slot initialization,
//! teardown, the last-error side channel read) cannot be verified and live
//! with the embedding program; this crate holds the verified core: the
//! value and list models, their invariants, the list/value conversion
//! protocol, and the error translation rules.

pub mod error;
pub mod list;
pub mod value;
