//! The single-slot "latest value" channel: a one-element mailbox that always
//! holds the most recently published value and supports change detection.
//!
//! This is the sole ordering primitive the staleness-gated pipeline depends
//! on: a reader always observes the most recently published value, and the
//! slot answers whether a newer value has been published since it was last
//! read.  There is no queueing; only the most recent value is retained.

use vstd::prelude::*;

use crate::render::PikchrCode;

verus! {

/// A value a slot can carry: it has text content, and the slot can compare
/// and duplicate values by that content.
pub trait SlotValue: Sized {
    /// The content by which values are compared.
    spec fn content(&self) -> Seq<char>;

    /// Whether two values have the same content.
    fn same_content(&self, other: &Self) -> (r: bool)
        ensures
            r == (self.content() == other.content()),
    ;

    /// A copy with the same content.
    fn duplicate(&self) -> (r: Self)
        ensures
            r.content() == self.content(),
    ;
}

impl SlotValue for String {
    open spec fn content(&self) -> Seq<char> {
        self@
    }

    fn same_content(&self, other: &Self) -> (r: bool) {
        self.eq(other)
    }

    fn duplicate(&self) -> (r: Self) {
        self.clone()
    }
}

impl SlotValue for PikchrCode {
    open spec fn content(&self) -> Seq<char> {
        self@
    }

    fn same_content(&self, other: &Self) -> (r: bool) {
        self.as_inner().eq(other.as_inner())
    }

    fn duplicate(&self) -> (r: Self) {
        PikchrCode::new(self.as_inner().as_str())
    }
}

/// The latest-value slot.  `version` counts distinct published values;
/// `seen` records the version current at the last read.
pub struct Slot<T: SlotValue> {
    value: T,
    version: u64,
    seen: u64,
}

impl<T: SlotValue> Slot<T> {
    /// The content of the currently held value.
    pub closed spec fn content(&self) -> Seq<char> {
        self.value.content()
    }

    /// The version of the currently held value.
    pub closed spec fn version_spec(&self) -> u64 {
        self.version
    }

    /// The version that was current at the last read.
    pub closed spec fn seen_spec(&self) -> u64 {
        self.seen
    }

    /// A fresh slot holding `initial`, already marked as observed.
    pub fn new(initial: T) -> (r: Self)
        ensures
            r.content() == initial.content(),
            r.version_spec() == 0,
            r.seen_spec() == 0,
    {
        Slot { value: initial, version: 0, seen: 0 }
    }

    /// Overwrites the slot with `v`.  Publishing a value whose content equals
    /// what the slot already holds does not count as a change: the version is
    /// left alone, so `has_changed` still reports unchanged.
    pub fn publish(&mut self, v: T)
        requires
            old(self).version_spec() < u64::MAX,
        ensures
            publish_transition(*old(self), *final(self), v.content()),
    {
        if !v.same_content(&self.value) {
            self.version = self.version + 1;
        }
        self.value = v;
    }

    /// Reads the current value and marks it observed.
    pub fn read_and_mark(&mut self) -> (r: T)
        ensures
            r.content() == old(self).content(),
            final(self).content() == old(self).content(),
            final(self).version_spec() == old(self).version_spec(),
            final(self).seen_spec() == final(self).version_spec(),
    {
        self.seen = self.version;
        self.value.duplicate()
    }

    /// Whether a new value has been published since the last read.
    pub fn has_changed(&self) -> (r: bool)
        ensures
            r == (self.version_spec() != self.seen_spec()),
    {
        self.version != self.seen
    }

    /// The current version, usable as an observation token.
    pub fn version(&self) -> (r: u64)
        ensures
            r == self.version_spec(),
    {
        self.version
    }
}

/// How one `publish` call with a value of content `c` changes a slot.
pub open spec fn publish_transition<T: SlotValue>(pre: Slot<T>, post: Slot<T>, c: Seq<
    char,
>) -> bool {
    &&& post.content() == c
    &&& post.seen_spec() == pre.seen_spec()
    &&& (if c == pre.content() {
        post.version_spec() == pre.version_spec()
    } else {
        post.version_spec() == pre.version_spec() + 1
    })
}

/// A reader always observes the most recently published value, never an
/// older one: after two publishes in a row, the slot holds the content of
/// the second.
pub proof fn lemma_reader_sees_latest<T: SlotValue>(
    s0: Slot<T>,
    s1: Slot<T>,
    s2: Slot<T>,
    c1: Seq<char>,
    c2: Seq<char>,
)
    requires
        publish_transition(s0, s1, c1),
        publish_transition(s1, s2, c2),
    ensures
        s2.content() == c2,
{
}

/// Publishing the same content twice in a row without an intervening change
/// does not trigger a new run: after a slot has been read, a publish whose
/// content equals what the slot holds leaves the "changed since last read"
/// answer at unchanged.
pub proof fn lemma_same_publish_reports_unchanged<T: SlotValue>(
    pre: Slot<T>,
    post: Slot<T>,
    c: Seq<char>,
)
    requires
        pre.seen_spec() == pre.version_spec(),
        publish_transition(pre, post, c),
        c == pre.content(),
    ensures
        post.version_spec() == post.seen_spec(),
{
}

} // verus!
