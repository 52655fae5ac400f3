//! The configuration consumed once at subscriber-build time: a filter
//! pattern, a minimum severity, and the only long-lived host-side handle to
//! the shared prefix cell.

use crate::prefix::PrefixCell;
use std::sync::Arc;
use vstd::prelude::*;

verus! {

/// The minimum severity of the events that pass the default filter, ordered
/// `Trace < Debug < Info < Warn < Error`.
#[derive(Clone, Copy, Debug, PartialEq, Eq, Structural)]
pub enum Level {
    Trace,
    Debug,
    Info,
    Warn,
    Error,
}

impl Level {
    /// The rank of this severity in the `Trace < Debug < Info < Warn <
    /// Error` order.
    pub open spec fn severity(self) -> nat {
        match self {
            Level::Trace => 0,
            Level::Debug => 1,
            Level::Info => 2,
            Level::Warn => 3,
            Level::Error => 4,
        }
    }

    /// The name under which this severity appears in a filter expression.
    pub open spec fn spec_name(self) -> Seq<char> {
        match self {
            Level::Trace => "TRACE"@,
            Level::Debug => "DEBUG"@,
            Level::Info => "INFO"@,
            Level::Warn => "WARN"@,
            Level::Error => "ERROR"@,
        }
    }

    /// Returns the severity's name, as it appears in a filter expression.
    pub fn name(self) -> (r: &'static str)
        ensures
            r@ == self.spec_name(),
    {
        match self {
            Level::Trace => "TRACE",
            Level::Debug => "DEBUG",
            Level::Info => "INFO",
            Level::Warn => "WARN",
            Level::Error => "ERROR",
        }
    }

    /// Decides whether this severity is at most `other` in the
    /// `Trace < Debug < Info < Warn < Error` order.
    pub fn at_most(self, other: Level) -> (r: bool)
        ensures
            r == (self.severity() <= other.severity()),
    {
        let s: u8 = match self {
            Level::Trace => 0,
            Level::Debug => 1,
            Level::Info => 2,
            Level::Warn => 3,
            Level::Error => 4,
        };
        let o: u8 = match other {
            Level::Trace => 0,
            Level::Debug => 1,
            Level::Info => 2,
            Level::Warn => 3,
            Level::Error => 4,
        };
        s <= o
    }
}

/// The settings consumed at subscriber-build time, supplied by the host or
/// defaulted if absent.
pub struct LogSettings {
    /// Per-target filter directives, in the combinator syntax of the
    /// filtering engine (comma-separated `target=level` clauses).
    pub filter: String,
    /// Events below this severity are filtered out by the computed default
    /// filter expression; the `filter` directives refine it further.
    pub level: Level,
    /// The shared prefix cell: host code writes it through
    /// [`LogSettings::set_dynamic_prefix`], the installed formatter reads it
    /// on every event.
    pub dynamic_prefix: Arc<PrefixCell>,
}

impl Default for LogSettings {
    /// The default settings: minimum severity `Info`, a filter that
    /// suppresses noisy graphics-library output, and an empty prefix.
    fn default() -> (r: Self)
        ensures
            r.filter@ == "wgpu=error"@,
            r.level == Level::Info,
    {
        LogSettings {
            filter: "wgpu=error".to_owned(),
            level: Level::Info,
            dynamic_prefix: Arc::new(PrefixCell::new()),
        }
    }
}

impl LogSettings {
    /// Replaces the prefix prepended to every subsequent primary log
    /// message: `msg` plus a separating space, or the empty prefix when
    /// `msg` is empty.
    pub fn set_dynamic_prefix(&self, msg: String) {
        let _stored = self.dynamic_prefix.set(msg);
    }
}

} // verus!
