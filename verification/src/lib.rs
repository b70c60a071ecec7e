//! Hierarchical email-filter configurations: variable substitution across a
//! tree of raw filter rules, and lowering of the raw tree into a clean,
//! fully-owned forest of filters.
//!
//! A deserialized document is a [`FiltersFile`]: an optional variable table
//! and a forest of [`FilterRaw`] nodes. [`FiltersFile::get_filters`] replaces
//! every `{name}` placeholder in every predicate's rule text — one
//! coordinated multi-pattern pass per string — and then cooks the raw forest
//! into the public [`Filter`] shape, preserving order, names and nesting.
//! The properties of the pipeline are stated and proved in [`laws`].

pub mod filter;
pub mod laws;
pub mod matcher;
pub mod subst;

pub use filter::Filter;
pub use filter::FilterInner;
pub use filter::FilterRaw;
pub use filter::Predicate;
pub use subst::ConfigError;
pub use subst::FiltersFile;
