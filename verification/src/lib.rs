//! Process-wide structured-logging configuration with a runtime-mutable
//! message prefix.
//!
//! The crate has four parts: a shared prefix cell that any part of the host
//! may rewrite at runtime ([`prefix::PrefixCell`]), the per-field formatting
//! rule that prepends the current prefix to the primary message field
//! ([`fields`]), the severity/filter-expression computation ([`filter`],
//! [`settings`]), and the one-shot assembly that installs the global
//! subscriber ([`plugin`]).

pub mod errors;
pub mod fields;
pub mod filter;
pub mod plugin;
pub mod prefix;
pub mod settings;

pub use errors::LogError;
pub use fields::{render_field, render_fields};
pub use filter::{build_filter, default_filter_expr, FilterSource};
pub use plugin::{InstallGuard, LogPlugin};
pub use prefix::PrefixCell;
pub use settings::{Level, LogSettings};
