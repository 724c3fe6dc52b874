//! Merging the three change subscriptions into one sequence of snapshots.
//!
//! The driver races the subscriptions and hands each notification that wins
//! to [`AppearanceStream::next_snapshot`], one at a time; a subscription that
//! ends or fails is handed over as `None`.
use vstd::prelude::*;
use crate::appearance::{Appearance, Change};

verus! {

/// The snapshots emitted from `initial` after `changes` arrived in order: the
/// first is `initial`, and each further one applies the next change to its
/// predecessor.
pub open spec fn snapshots(initial: Appearance, changes: Seq<Change>) -> Seq<Appearance>
    decreases changes.len(),
{
    if changes.len() == 0 {
        seq![initial]
    } else {
        let prev = snapshots(initial, changes.drop_last());
        prev.push(prev.last().applied(changes.last()))
    }
}

/// `a` and `b` agree on every field but at most one.
pub open spec fn differ_in_at_most_one_field(a: Appearance, b: Appearance) -> bool {
    ||| (a.color_scheme == b.color_scheme && a.contrast == b.contrast)
    ||| (a.accent_color == b.accent_color && a.contrast == b.contrast)
    ||| (a.accent_color == b.accent_color && a.color_scheme == b.color_scheme)
}

/// The state of the merged sequence: the snapshot emitted last, and whether
/// the sequence has ended.
pub struct AppearanceStream {
    current: Appearance,
    ended: bool,
    initial: Ghost<Appearance>,
    changes: Ghost<Seq<Change>>,
}

impl AppearanceStream {
    /// The snapshot the sequence started with.
    pub closed spec fn initial(&self) -> Appearance {
        self.initial@
    }

    /// The changes applied so far, in arrival order.
    pub closed spec fn changes(&self) -> Seq<Change> {
        self.changes@
    }

    /// Whether the sequence has ended.
    pub closed spec fn ended(&self) -> bool {
        self.ended
    }

    /// The snapshot emitted last.
    pub closed spec fn current(&self) -> Appearance {
        self.current
    }

    /// The snapshot emitted last is the one that the changes so far lead to.
    pub closed spec fn wf(&self) -> bool {
        self.current == snapshots(self.initial@, self.changes@).last()
    }

    /// Starts the sequence and hands back its first element, `initial` itself.
    pub fn start(initial: Appearance) -> (r: (AppearanceStream, Appearance))
        ensures
            r.0.wf(),
            r.0.initial() == initial,
            r.0.changes() == Seq::<Change>::empty(),
            !r.0.ended(),
            r.0.current() == initial,
            r.1 == initial,
            r.1 == snapshots(initial, Seq::<Change>::empty()).last(),
    {
        let s = AppearanceStream {
            current: initial,
            ended: false,
            initial: Ghost(initial),
            changes: Ghost(Seq::empty()),
        };
        (s, initial)
    }

    /// The snapshot emitted last.
    pub fn current_snapshot(&self) -> (r: Appearance)
        ensures
            r == self.current(),
    {
        self.current
    }

    /// Whether the sequence has ended.
    pub fn is_ended(&self) -> (r: bool)
        ensures
            r == self.ended(),
    {
        self.ended
    }

    /// Takes the next event of the race. A change yields exactly one new
    /// snapshot, which replaces the changed field of the last one and carries
    /// the other two over. `None`, a subscription that ended or failed, ends
    /// the sequence; once ended it yields nothing more.
    pub fn next_snapshot(&mut self, event: Option<Change>) -> (r: Option<Appearance>)
        requires
            old(self).wf(),
        ensures
            final(self).wf(),
            final(self).initial() == old(self).initial(),
            old(self).ended() ==> r is None && *final(self) == *old(self),
            !old(self).ended() ==> match event {
                None => {
                    &&& r is None
                    &&& final(self).ended()
                    &&& final(self).changes() == old(self).changes()
                    &&& final(self).current() == old(self).current()
                },
                Some(c) => {
                    &&& r == Some(old(self).current().applied(c))
                    &&& !final(self).ended()
                    &&& final(self).changes() == old(self).changes().push(c)
                    &&& final(self).current() == r->0
                    &&& r->0 == snapshots(final(self).initial(), final(self).changes()).last()
                },
            },
    {
        if self.ended {
            return None;
        }
        match event {
            None => {
                self.ended = true;
                None
            },
            Some(c) => {
                let next = self.current.with_change(c);
                proof {
                    let cs = self.changes@.push(c);
                    assert(cs.drop_last() =~= self.changes@);
                }
                self.current = next;
                self.changes = Ghost(self.changes@.push(c));
                Some(next)
            },
        }
    }
}

/// Every sequence of snapshots starts with the initial one.
pub proof fn lemma_first_snapshot_is_initial(initial: Appearance, changes: Seq<Change>)
    ensures
        snapshots(initial, changes).len() == changes.len() + 1,
        snapshots(initial, changes)[0] == initial,
    decreases changes.len(),
{
    if changes.len() > 0 {
        lemma_first_snapshot_is_initial(initial, changes.drop_last());
    }
}

/// Each snapshot past the first is its predecessor with the matching change
/// applied.
pub proof fn lemma_snapshot_follows_change(initial: Appearance, changes: Seq<Change>, n: int)
    requires
        0 <= n < changes.len(),
    ensures
        snapshots(initial, changes).len() == changes.len() + 1,
        snapshots(initial, changes)[n + 1] == snapshots(initial, changes)[n].applied(changes[n]),
    decreases changes.len(),
{
    lemma_first_snapshot_is_initial(initial, changes);
    lemma_first_snapshot_is_initial(initial, changes.drop_last());
    if n < changes.len() - 1 {
        lemma_snapshot_follows_change(initial, changes.drop_last(), n);
    }
}

/// Any two neighbouring snapshots differ in at most one field; the fields
/// that the change did not name are carried over.
pub proof fn lemma_neighbours_differ_in_one_field(initial: Appearance, changes: Seq<Change>, n: int)
    requires
        0 <= n < changes.len(),
    ensures
        differ_in_at_most_one_field(snapshots(initial, changes)[n], snapshots(initial, changes)[n + 1]),
{
    lemma_snapshot_follows_change(initial, changes, n);
}

} // verus!
