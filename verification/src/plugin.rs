//! Assembly of the process-wide log sink: composes the filter and the
//! prefix-aware field formatter into one subscriber and installs it
//! globally, exactly once per process.

use crate::errors::LogError;
use crate::filter::{build_filter, default_filter_expr, some_filter_usable};
use crate::prefix::PrefixCell;
use crate::settings::LogSettings;
use std::sync::Arc;
use tracing_subscriber::field::MakeExt;
use tracing_subscriber::layer::SubscriberExt;
use vstd::prelude::*;
use vstd::string::StringExecFns;

verus! {

/// The one-shot installation state of the process: `uninstalled` until one
/// successful install, then `installed` for good, with no rollback.
pub struct InstallGuard {
    installed: bool,
}

impl InstallGuard {
    /// Whether a global subscriber has been installed through this guard.
    pub closed spec fn is_installed(&self) -> bool {
        self.installed
    }

    /// A fresh guard: nothing installed yet.
    pub fn new() -> (r: Self)
        ensures
            !r.is_installed(),
    {
        InstallGuard { installed: false }
    }

    /// Returns whether a global subscriber has been installed through this
    /// guard.
    pub fn installed(&self) -> (r: bool)
        ensures
            r == self.is_installed(),
    {
        self.installed
    }
}

/// Relies on `tracing_subscriber`'s `Registry`, `EnvFilter` layering and
/// field formatting, and on `tracing::subscriber::set_global_default`:
/// assembles a registry carrying `filter` and a field formatter that renders
/// each field through [`PrefixCell::render_field_now`] with consecutive
/// fields separated by `delimiter`, and installs it as the process-wide
/// subscriber. Returns whether the install took effect; it does not when
/// some global subscriber was set before, in which case the earlier one
/// stays in force.
#[verifier::external_body]
fn set_global_subscriber(
    filter: tracing_subscriber::EnvFilter,
    prefix: &Arc<PrefixCell>,
    delimiter: &'static str,
) -> bool {
    let cell = prefix.clone();
    let formatter = tracing_subscriber::fmt::format::debug_fn(move |writer, field, value| {
        write!(writer, "{}", cell.render_field_now(field.name(), &format!("{:?}", value)))
    }).delimited(delimiter);
    let fmt_layer = tracing_subscriber::fmt::Layer::default().fmt_fields(formatter);
    let subscriber = tracing_subscriber::registry::Registry::default().with(filter).with(
        fmt_layer,
    );
    tracing::subscriber::set_global_default(subscriber).is_ok()
}

/// Records the outcome of the global install on the guard: a success moves
/// it to `installed`; a refusal (some subscriber was set before) leaves it
/// `uninstalled` and is reported as [`LogError::AlreadyInstalled`].
fn finish_install(guard: &mut InstallGuard, took_effect: bool) -> (r: Result<(), LogError>)
    requires
        !old(guard).is_installed(),
    ensures
        took_effect ==> r == Ok::<(), LogError>(()) && final(guard).is_installed(),
        !took_effect ==> r == Err::<(), LogError>(LogError::AlreadyInstalled)
            && !final(guard).is_installed(),
{
    if took_effect {
        guard.installed = true;
        Ok(())
    } else {
        Err(LogError::AlreadyInstalled)
    }
}

/// Adds prefix-aware structured logging to a host application.
#[derive(Default)]
pub struct LogPlugin;

impl LogPlugin {
    /// Builds and installs the process-wide log sink, once.
    ///
    /// The filter is built by [`build_filter`] from `override_expr` when
    /// that is present and usable, else from the computed default expression
    /// `"<severity-name>,<directives>"`; when neither is usable, nothing is
    /// installed and the call fails with [`LogError::InvalidFilter`]. A
    /// second install attempt, through a guard already `installed` or
    /// against a process that already carries a global subscriber, fails
    /// with [`LogError::AlreadyInstalled`] and leaves the first sink in
    /// force.
    pub fn build(
        &self,
        guard: &mut InstallGuard,
        settings: &LogSettings,
        override_expr: Option<&str>,
    ) -> (r: Result<(), LogError>)
        ensures
            old(guard).is_installed() ==> r == Err::<(), LogError>(LogError::AlreadyInstalled)
                && *final(guard) == *old(guard),
            !old(guard).is_installed() && !some_filter_usable(
                override_expr,
                crate::filter::spec_default_filter_expr(settings.level, settings.filter@),
            ) ==> r == Err::<(), LogError>(LogError::InvalidFilter)
                && !final(guard).is_installed(),
            r is Ok ==> !old(guard).is_installed() && some_filter_usable(
                override_expr,
                crate::filter::spec_default_filter_expr(settings.level, settings.filter@),
            ) && final(guard).is_installed(),
            r == Err::<(), LogError>(LogError::AlreadyInstalled) && !old(guard).is_installed()
                ==> !final(guard).is_installed(),
            r == Err::<(), LogError>(LogError::InvalidFilter) ==> !old(guard).is_installed()
                && !some_filter_usable(
                override_expr,
                crate::filter::spec_default_filter_expr(settings.level, settings.filter@),
            ),
    {
        if guard.installed() {
            return Err(LogError::AlreadyInstalled);
        }
        let default_expr = default_filter_expr(settings.level, settings.filter.as_str());
        match build_filter(override_expr, default_expr.as_str()) {
            Err(e) => Err(e),
            Ok((filter, _source)) => {
                let took_effect = set_global_subscriber(filter, &settings.dynamic_prefix, ", ");
                finish_install(guard, took_effect)
            },
        }
    }
}

} // verus!
