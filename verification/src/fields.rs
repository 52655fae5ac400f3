//! The per-field formatting rule consulted by the logging backend for every
//! field of every event.
//!
//! The reserved primary message field is rendered as the current prefix
//! followed directly by the value (the stored prefix carries its own trailing
//! space, or is empty); every other field is rendered as `name=value`; fields
//! of one event are separated by `", "`.

use crate::prefix::{committed_value, is_wf_prefix, PrefixCell};
use vstd::prelude::*;
use vstd::string::StringExecFns;

verus! {

/// The reserved name of the primary message field of an event.
pub open spec fn message_field_name() -> Seq<char> {
    "message"@
}

/// The text produced for one field: `prefix + value` for the primary message
/// field, `name + "=" + value` for any other field. `value` is the field
/// value's already-formatted text.
pub open spec fn rendered_field(prefix: Seq<char>, name: Seq<char>, value: Seq<char>) -> Seq<
    char,
> {
    if name == message_field_name() {
        prefix + value
    } else {
        name + "="@ + value
    }
}

/// A prefix set to the empty string renders every field exactly as the
/// unset default does: committing an empty write leaves rendering identical
/// to never having written at all.
pub proof fn lemma_empty_prefix_equals_unset(
    writes: Seq<Seq<char>>,
    name: Seq<char>,
    value: Seq<char>,
)
    ensures
        rendered_field(committed_value(writes.push(Seq::empty())), name, value)
            == rendered_field(committed_value(Seq::empty()), name, value),
{
    assert(writes.push(Seq::<char>::empty()).last() =~= Seq::<char>::empty());
    assert(committed_value(writes.push(Seq::empty())) =~= Seq::<char>::empty());
}

/// Renders one field under the given prefix snapshot; the executable side of
/// [`rendered_field`].
pub fn render_field(prefix: &str, name: &str, value: &str) -> (r: String)
    ensures
        r@ == rendered_field(prefix@, name@, value@),
{
    let is_message = name.to_owned() == String::from_str("message");
    if is_message {
        prefix.to_owned().concat(value)
    } else {
        let r = name.to_owned().concat("=").concat(value);
        proof {
            assert(r@ =~= name@ + "="@ + value@);
        }
        r
    }
}

/// The views of a list of (name, value) field pairs.
pub open spec fn field_views(fields: Seq<(String, String)>) -> Seq<(Seq<char>, Seq<char>)> {
    fields.map_values(|p: (String, String)| (p.0@, p.1@))
}

/// The text produced for a whole event's field list: each field rendered by
/// [`rendered_field`], consecutive fields separated by `", "`.
pub open spec fn rendered_fields(
    prefix: Seq<char>,
    fields: Seq<(Seq<char>, Seq<char>)>,
) -> Seq<char>
    decreases fields.len(),
{
    if fields.len() == 0 {
        Seq::empty()
    } else if fields.len() == 1 {
        rendered_field(prefix, fields[0].0, fields[0].1)
    } else {
        rendered_fields(prefix, fields.drop_last()) + ", "@ + rendered_field(
            prefix,
            fields.last().0,
            fields.last().1,
        )
    }
}

/// Renders an event's field list under the given prefix snapshot, separating
/// consecutive fields with `", "`.
pub fn render_fields(prefix: &str, fields: &Vec<(String, String)>) -> (r: String)
    ensures
        r@ == rendered_fields(prefix@, field_views(fields@)),
{
    let ghost all = field_views(fields@);
    let mut r = String::new();
    let mut i: usize = 0;
    while i < fields.len()
        invariant
            0 <= i <= fields.len(),
            all == field_views(fields@),
            all.len() == fields@.len(),
            r@ == rendered_fields(prefix@, all.take(i as int)),
        decreases fields.len() - i,
    {
        if i > 0 {
            r.append(", ");
        }
        let one = render_field(prefix, fields[i].0.as_str(), fields[i].1.as_str());
        r.append(one.as_str());
        proof {
            assert(all.take(i + 1).drop_last() =~= all.take(i as int));
            assert(all.take(i + 1).last() == all[i as int]);
            assert(all[i as int] == (fields@[i as int].0@, fields@[i as int].1@));
            if i == 0 {
                assert(r@ =~= rendered_fields(prefix@, all.take(i + 1)));
            }
        }
        i = i + 1;
    }
    proof {
        assert(all.take(fields@.len() as int) =~= all);
    }
    r
}

impl PrefixCell {
    /// Renders one field under the prefix current at this instant: some
    /// well-formed committed value.
    pub fn render_field_now(&self, name: &str, value: &str) -> (r: String)
        ensures
            exists|p: Seq<char>|
                is_wf_prefix(p) && r@ == rendered_field(p, name@, value@),
    {
        let prefix = self.get();
        let r = render_field(prefix.as_str(), name, value);
        proof {
            assert(is_wf_prefix(prefix@) && r@ == rendered_field(prefix@, name@, value@));
        }
        r
    }
}

} // verus!
