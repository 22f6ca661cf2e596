//! Latest-value channel: a single-slot, overwrite-on-publish slot.
//!
//! A publish stores the value as current, replacing any previous one; a read
//! returns the most recently published value, or the configured fallback if
//! nothing has been published yet. Neither blocks and neither fails; values
//! published between two reads are simply never observed.

use vstd::prelude::*;

verus! {

/// What a publish does to the slot: the new value becomes current,
/// whatever was there before.
pub open spec fn publish_model(cur: Option<Seq<char>>, v: Seq<char>) -> Option<Seq<char>> {
    Some(v)
}

/// What a read returns for a given slot state: the current value if one was
/// ever published, else the fallback.
pub open spec fn read_model(fallback: Seq<char>, cur: Option<Seq<char>>) -> Seq<char> {
    match cur {
        Some(v) => v,
        None => fallback,
    }
}

/// The slot state after a whole sequence of publishes, applied in order.
pub open spec fn publishes_model(cur: Option<Seq<char>>, vs: Seq<Seq<char>>) -> Option<Seq<char>>
    decreases vs.len(),
{
    if vs.len() == 0 {
        cur
    } else {
        publish_model(publishes_model(cur, vs.drop_last()), vs.last())
    }
}

/// A single-slot channel holding the latest published value for one source.
pub struct Channel {
    fallback: String,
    current: Option<String>,
}

impl Channel {
    /// The configured fallback text.
    pub closed spec fn fallback_spec(&self) -> Seq<char> {
        self.fallback@
    }

    /// The current slot state: `None` until the first publish.
    pub closed spec fn current_spec(&self) -> Option<Seq<char>> {
        match self.current {
            Some(ref s) => Some(s@),
            None => None,
        }
    }

    /// What a read of this channel returns.
    pub open spec fn read_spec(&self) -> Seq<char> {
        read_model(self.fallback_spec(), self.current_spec())
    }

    /// A fresh channel: nothing published yet, so reads see the fallback.
    pub fn new(fallback: String) -> (c: Channel)
        ensures
            c.fallback_spec() == fallback@,
            c.current_spec() is None,
    {
        Channel { fallback, current: None }
    }

    /// Store `value` as current, replacing any previous value; never fails.
    pub fn publish(&mut self, value: String)
        ensures
            final(self).current_spec() == publish_model(old(self).current_spec(), value@),
            final(self).fallback_spec() == old(self).fallback_spec(),
    {
        self.current = Some(value);
    }

    /// Return the most recently published value, or the fallback if nothing
    /// has been published yet; never blocks, never consumes the value.
    pub fn read(&self) -> (r: String)
        ensures
            r@ == self.read_spec(),
    {
        match &self.current {
            Some(v) => v.clone(),
            None => self.fallback.clone(),
        }
    }
}

/// A source whose adapter keeps failing publishes its fallback on every
/// poll: after any non-empty sequence of publishes that all carry the
/// fallback text, a read returns exactly that fallback.
pub proof fn lemma_failing_source_reads_fallback(
    fallback: Seq<char>,
    cur: Option<Seq<char>>,
    vs: Seq<Seq<char>>,
)
    requires
        vs.len() > 0,
        forall|i: int| 0 <= i < vs.len() ==> vs[i] == fallback,
    ensures
        read_model(fallback, publishes_model(cur, vs)) == fallback,
{
}

/// For every sequence of publishes, a read afterwards returns the most
/// recently published value, or the fallback if there was no publish at all
/// and none had happened before.
pub proof fn lemma_read_after_publishes(
    fallback: Seq<char>,
    cur: Option<Seq<char>>,
    vs: Seq<Seq<char>>,
)
    ensures
        vs.len() > 0 ==> read_model(fallback, publishes_model(cur, vs)) == vs.last(),
        vs.len() == 0 ==> read_model(fallback, publishes_model(cur, vs)) == read_model(
            fallback,
            cur,
        ),
{
}

} // verus!
