//! The shared prefix cell: a concurrently readable, exclusively writable
//! string holder read by the field formatter on every log event and
//! rewritable at any time by host code.
//!
//! A committed value is always *well formed*: either empty, or some
//! non-empty text followed by exactly one trailing space, so that the
//! formatter can prepend it to the message with no further separator.

use vstd::prelude::*;
use vstd::rwlock::{RwLock, RwLockPredicate};
use vstd::string::StringExecFns;

verus! {

/// The value that a write of `s` commits to the cell: `s` itself when it is
/// empty, otherwise `s` followed by a single separating space.
pub open spec fn prefix_value(s: Seq<char>) -> Seq<char> {
    if s.len() == 0 {
        s
    } else {
        s.push(' ')
    }
}

/// A well-formed stored prefix: empty, or carrying its own trailing space.
pub open spec fn is_wf_prefix(s: Seq<char>) -> bool {
    s.len() == 0 || s.last() == ' '
}

/// Every committed value is well formed.
pub proof fn lemma_prefix_value_wf(s: Seq<char>)
    ensures
        is_wf_prefix(prefix_value(s)),
{
}

/// The cell's value after a sequence of committed writes, in commit order:
/// the initial value is empty, and the last write wins.
pub open spec fn committed_value(writes: Seq<Seq<char>>) -> Seq<char> {
    if writes.len() == 0 {
        Seq::empty()
    } else {
        prefix_value(writes.last())
    }
}

/// A read that follows a committed write of `s` returns `s` plus a trailing
/// space when `s` is non-empty, and the empty string when `s` is empty.
pub proof fn lemma_read_after_write(writes: Seq<Seq<char>>, s: Seq<char>)
    ensures
        s.len() > 0 ==> committed_value(writes.push(s)) == s.push(' '),
        s.len() == 0 ==> committed_value(writes.push(s)) == Seq::<char>::empty(),
{
    assert(writes.push(s).last() == s);
    if s.len() == 0 {
        assert(committed_value(writes.push(s)) =~= Seq::<char>::empty());
    }
}

/// Writing the same value twice in sequence leaves the cell exactly as one
/// write of it does.
pub proof fn lemma_repeated_write(writes: Seq<Seq<char>>, s: Seq<char>)
    ensures
        committed_value(writes.push(s).push(s)) == committed_value(writes.push(s)),
{
    assert(writes.push(s).last() == s);
    assert(writes.push(s).push(s).last() == s);
}

/// Whatever the order in which racing writers committed, a read returns one
/// committed value whole: never an interleaving of two of them.
pub proof fn lemma_read_is_one_of_the_writes(writes: Seq<Seq<char>>)
    requires
        writes.len() > 0,
    ensures
        exists|i: int|
            0 <= i < writes.len() && committed_value(writes) == prefix_value(writes[i]),
{
    assert(committed_value(writes) == prefix_value(writes[writes.len() - 1]));
}

/// Appends the separating space to a non-empty value; the executable side of
/// [`prefix_value`].
pub fn prefix_string(msg: String) -> (r: String)
    ensures
        r@ == prefix_value(msg@),
{
    let mut m = msg;
    if !m.as_str().is_empty() {
        let ghost before = m@;
        m.append(" ");
        proof {
            reveal_strlit(" ");
            assert(m@ =~= before.push(' '));
        }
    }
    m
}

/// The lock invariant of a [`PrefixCell`]: only well-formed prefixes are
/// ever stored.
pub struct WfPrefix;

impl RwLockPredicate<String> for WfPrefix {
    open spec fn inv(self, v: String) -> bool {
        is_wf_prefix(v@)
    }
}

/// A shared, lock-protected prefix holder.
///
/// Any number of readers may hold the value at once; writers exclude each
/// other and readers for the duration of the swap. A reader always sees a
/// fully formed committed value, never a torn one, and no access can observe
/// a half-finished write: the lock is released only in verified code, which
/// cannot panic while holding it.
pub struct PrefixCell {
    lock: RwLock<String, WfPrefix>,
}

impl PrefixCell {
    #[verifier::type_invariant]
    spec fn wf(self) -> bool {
        self.lock.pred() == WfPrefix
    }

    /// A fresh cell holding the empty prefix.
    pub fn new() -> (r: Self) {
        PrefixCell { lock: RwLock::new(String::new(), Ghost(WfPrefix)) }
    }

    /// Commits `prefix_value(msg)` as the cell's current value and returns a
    /// copy of exactly what was stored.
    pub fn set(&self, msg: String) -> (stored: String)
        ensures
            stored@ == prefix_value(msg@),
    {
        proof {
            use_type_invariant(self);
        }
        let p = prefix_string(msg);
        let (_prev, handle) = self.lock.acquire_write();
        handle.release_write(p.clone());
        p
    }

    /// Returns a snapshot of the current value: some committed, well-formed
    /// prefix.
    pub fn get(&self) -> (r: String)
        ensures
            is_wf_prefix(r@),
    {
        proof {
            use_type_invariant(self);
        }
        let handle = self.lock.acquire_read();
        let r = handle.borrow().clone();
        handle.release_read();
        r
    }
}

} // verus!
