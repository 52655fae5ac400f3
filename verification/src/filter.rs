//! Computing and building the severity filter of the assembled subscriber.
//!
//! The default filter expression combines the minimum severity with the
//! settings' per-target directives as `"<severity>,<directives>"`. An
//! externally supplied override expression takes precedence when it is
//! present and usable; an absent or unusable override falls back to the
//! computed default; a default that is not usable either is a fatal
//! configuration error.
//!
//! Only all-ASCII expressions are handed to the filtering engine: its
//! directive parser indexes the expression by byte offsets computed from
//! trimmed character positions, which can fall inside a multibyte character
//! and panic otherwise. A non-ASCII expression is therefore treated as
//! unusable rather than passed on.

use crate::errors::LogError;
use crate::settings::Level;
use vstd::prelude::*;
use vstd::string::StringExecFns;
use vstd::utf8::is_ascii_chars;

verus! {

/// Whether the filtering engine accepts `s` as a filter expression. The
/// parse is a function of the text alone.
pub uninterp spec fn env_filter_accepts(s: Seq<char>) -> bool;

/// Whether `s` may be handed to the filtering engine and is accepted by it:
/// all-ASCII (see the module note on the engine's byte-offset slicing) and
/// parsed without error.
pub open spec fn expr_usable(s: Seq<char>) -> bool {
    is_ascii_chars(s) && env_filter_accepts(s)
}

#[verifier::external_type_specification]
#[verifier::external_body]
/// The filtering engine's compiled filter, `tracing_subscriber::EnvFilter`;
/// opaque here, built only through [`parse_filter`].
pub struct ExEnvFilter(tracing_subscriber::EnvFilter);

/// Relies on `tracing_subscriber::EnvFilter::try_new`: it parses the
/// comma-separated directives of `expr` and returns `Ok` exactly when every
/// non-empty directive parses, deciding on the text alone. Only all-ASCII
/// expressions are admitted, on which every byte index is a character
/// boundary: the engine's directive parser slices the untrimmed directive at
/// offsets counted in the trimmed one, and can panic on a non-ASCII
/// expression.
#[verifier::external_body]
fn parse_filter(expr: &str) -> (r: Option<tracing_subscriber::EnvFilter>)
    requires
        vstd::string::is_ascii(expr),
    ensures
        r is Some <==> env_filter_accepts(expr@),
{
    tracing_subscriber::EnvFilter::try_new(expr).ok()
}

/// The default filter expression computed from the settings:
/// `"<severity-name>,<directives>"`.
pub open spec fn spec_default_filter_expr(level: Level, directives: Seq<char>) -> Seq<char> {
    level.spec_name() + ","@ + directives
}

/// Computes the default filter expression `"<severity-name>,<directives>"`.
pub fn default_filter_expr(level: Level, directives: &str) -> (r: String)
    ensures
        r@ == spec_default_filter_expr(level, directives@),
{
    let r = level.name().to_owned().concat(",").concat(directives);
    proof {
        assert(r@ =~= level.spec_name() + ","@ + directives@);
    }
    r
}

/// Which of the two candidate expressions the built filter came from.
#[derive(Clone, Copy, Debug, PartialEq, Eq, Structural)]
pub enum FilterSource {
    /// The externally supplied override expression.
    Override,
    /// The computed default expression.
    ComputedDefault,
}

/// Whether the override expression is present and usable.
pub open spec fn override_usable(override_expr: Option<&str>) -> bool {
    match override_expr {
        Some(o) => expr_usable(o@),
        None => false,
    }
}

/// Whether some usable filter can be built from the override and the
/// computed default expression.
pub open spec fn some_filter_usable(override_expr: Option<&str>, default_expr: Seq<char>) -> bool {
    override_usable(override_expr) || expr_usable(default_expr)
}

/// Builds the subscriber's filter: from the override expression when it is
/// present and usable, else from the computed default expression, and fails
/// with [`LogError::InvalidFilter`] exactly when neither is usable. An
/// expression that is not all-ASCII is never handed to the engine and
/// counts as unusable.
pub fn build_filter(override_expr: Option<&str>, default_expr: &str) -> (r: Result<
    (tracing_subscriber::EnvFilter, FilterSource),
    LogError,
>)
    ensures
        r is Ok <==> some_filter_usable(override_expr, default_expr@),
        r matches Ok(p) ==> (p.1 == FilterSource::Override <==> override_usable(override_expr)),
        r is Err ==> r == Err::<(tracing_subscriber::EnvFilter, FilterSource), LogError>(
            LogError::InvalidFilter,
        ),
{
    if let Some(o) = override_expr {
        if o.is_ascii() {
            if let Some(f) = parse_filter(o) {
                return Ok((f, FilterSource::Override));
            }
        }
    }
    if default_expr.is_ascii() {
        match parse_filter(default_expr) {
            Some(f) => Ok((f, FilterSource::ComputedDefault)),
            None => Err(LogError::InvalidFilter),
        }
    } else {
        Err(LogError::InvalidFilter)
    }
}

} // verus!
