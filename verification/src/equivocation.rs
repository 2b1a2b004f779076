//! Memory of who sealed what in which slot, kept for a window of recent slots, and
//! the detection of an author who seals two blocks for one slot.

use crate::bytes::{bytes_copy, bytes_equal};
use crate::digest::Slot;
use vstd::prelude::*;

verus! {

/// One block seen: its author, its slot and its hash.
#[derive(Clone, Debug, PartialEq, Eq)]
pub struct Sighting {
    pub author: Vec<u8>,
    pub slot: Slot,
    pub hash: Vec<u8>,
}

/// A sighting as mathematical values.
pub struct SightingView {
    pub author: Seq<u8>,
    pub slot: Slot,
    pub hash: Seq<u8>,
}

impl View for Sighting {
    type V = SightingView;

    open spec fn view(&self) -> SightingView {
        SightingView { author: self.author@, slot: self.slot, hash: self.hash@ }
    }
}

/// Two blocks that one author sealed for one slot.
#[derive(Clone, Debug, PartialEq, Eq)]
pub struct Equivocation {
    pub author: Vec<u8>,
    pub slot: Slot,
    /// The hash that was seen first.
    pub first_hash: Vec<u8>,
    /// The hash whose sighting brought the conflict to light.
    pub second_hash: Vec<u8>,
}

/// Whether `slot` lies within the `retention` slots that end at `slot_now`, or ahead
/// of them.
pub open spec fn in_window(slot: Slot, slot_now: Slot, retention: u64) -> bool {
    slot + retention >= slot_now
}

/// The sightings of `seen` that are within the window, in their order.
pub open spec fn retained(seen: Seq<SightingView>, slot_now: Slot, retention: u64) -> Seq<
    SightingView,
>
    decreases seen.len(),
{
    if seen.len() == 0 {
        Seq::empty()
    } else {
        let before = retained(seen.drop_last(), slot_now, retention);
        if in_window(seen.last().slot, slot_now, retention) {
            before.push(seen.last())
        } else {
            before
        }
    }
}

/// The hash of the earliest sighting in `seen` of another block by `author` for
/// `slot`: one with a hash that differs from `hash`.
pub open spec fn earlier_block(seen: Seq<SightingView>, author: Seq<u8>, slot: Slot, hash: Seq<u8>)
    -> Option<Seq<u8>>
    decreases seen.len(),
{
    if seen.len() == 0 {
        None
    } else if seen[0].author == author && seen[0].slot == slot && seen[0].hash != hash {
        Some(seen[0].hash)
    } else {
        earlier_block(seen.drop_first(), author, slot, hash)
    }
}

/// What the tracker remembers after it was shown a block at local slot `slot_now`:
/// the sightings still within the window, and after them the new one, unless it is
/// outside the window or was seen before.
pub open spec fn remembered(
    seen: Seq<SightingView>,
    retention: u64,
    sighting: SightingView,
    slot_now: Slot,
) -> Seq<SightingView> {
    let kept = retained(seen, slot_now, retention);
    if in_window(sighting.slot, slot_now, retention) && !kept.contains(sighting) {
        kept.push(sighting)
    } else {
        kept
    }
}

/// The hash with which the new sighting conflicts, if any: that of the earliest
/// other block by its author for its slot that is still within the window.
pub open spec fn conflicting(
    seen: Seq<SightingView>,
    retention: u64,
    sighting: SightingView,
    slot_now: Slot,
) -> Option<Seq<u8>> {
    if in_window(sighting.slot, slot_now, retention) {
        earlier_block(
            retained(seen, slot_now, retention),
            sighting.author,
            sighting.slot,
            sighting.hash,
        )
    } else {
        None
    }
}

/// The views of a sequence of sightings.
pub open spec fn views(seen: Seq<Sighting>) -> Seq<SightingView> {
    seen.map_values(|s: Sighting| s@)
}

/// The memory of the blocks seen in recent slots.
pub struct EquivocationTracker {
    retention: u64,
    seen: Vec<Sighting>,
}

impl EquivocationTracker {
    /// No block is remembered twice.
    #[verifier::type_invariant]
    spec fn distinct(self) -> bool {
        views(self.seen@).no_duplicates()
    }

    /// The number of slots behind the local clock for which sightings are kept.
    pub closed spec fn retention_slots(&self) -> u64 {
        self.retention
    }

    /// The sightings kept, oldest first.
    pub closed spec fn sightings(&self) -> Seq<SightingView> {
        views(self.seen@)
    }

    /// An empty tracker that keeps sightings for `retention` slots.
    pub fn new(retention: u64) -> (tracker: Self)
        ensures
            tracker.retention_slots() == retention,
            tracker.sightings() == Seq::<SightingView>::empty(),
            tracker.sightings().no_duplicates(),
    {
        let tracker = EquivocationTracker { retention, seen: Vec::new() };
        assert(views(tracker.seen@) =~= Seq::<SightingView>::empty());
        tracker
    }

    /// Computes [`Self::retention_slots`].
    pub fn retention(&self) -> (retention: u64)
        ensures
            retention == self.retention_slots(),
    {
        self.retention
    }

    /// The number of sightings kept.
    pub fn len(&self) -> (len: usize)
        ensures
            len == self.sightings().len(),
    {
        self.seen.len()
    }

    /// Shows the tracker the block `hash` that `author` sealed for `slot`, at local
    /// slot `slot_now`.
    ///
    /// Sightings that have left the window are dropped first. The result names the
    /// conflict where the author is known to have sealed another block for the slot:
    /// it holds the hash seen first and `hash`. The block is then remembered, once:
    /// a repeated sighting changes nothing and, alone, gives no conflict.
    pub fn observe(&mut self, author: &Vec<u8>, slot: Slot, hash: &Vec<u8>, slot_now: Slot) -> (found:
        Option<Equivocation>)
        ensures
            final(self).retention_slots() == old(self).retention_slots(),
            final(self).sightings().no_duplicates(),
            forall|k: int|
                0 <= k < final(self).sightings().len() ==> in_window(
                    #[trigger] final(self).sightings()[k].slot,
                    slot_now,
                    old(self).retention_slots(),
                ),
            final(self).sightings() == remembered(
                old(self).sightings(),
                old(self).retention_slots(),
                SightingView { author: author@, slot, hash: hash@ },
                slot_now,
            ),
            match conflicting(
                old(self).sightings(),
                old(self).retention_slots(),
                SightingView { author: author@, slot, hash: hash@ },
                slot_now,
            ) {
                Some(first) => found matches Some(e) && e.author@ == author@ && e.slot == slot
                    && e.first_hash@ == first && e.second_hash@ == hash@,
                None => found is None,
            },
    {
        proof {
            use_type_invariant(&*self);
            lemma_remembered_distinct(
                views(self.seen@),
                self.retention,
                SightingView { author: author@, slot, hash: hash@ },
                slot_now,
            );
            lemma_remembered_in_window(
                views(self.seen@),
                self.retention,
                SightingView { author: author@, slot, hash: hash@ },
                slot_now,
            );
        }
        let ghost before = views(self.seen@);
        let ghost sighting = SightingView { author: author@, slot, hash: hash@ };
        let retention = self.retention;
        let mut kept: Vec<Sighting> = Vec::new();
        let mut i: usize = 0;
        assert(before.take(0) =~= Seq::<SightingView>::empty());
        assert(views(kept@) =~= Seq::<SightingView>::empty());
        while i < self.seen.len()
            invariant
                i <= self.seen.len(),
                before == views(self.seen@),
                views(kept@) == retained(before.take(i as int), slot_now, retention),
            decreases self.seen.len() - i,
        {
            let entry = &self.seen[i];
            proof {
                let next = before.take(i + 1);
                assert(next.drop_last() =~= before.take(i as int));
                assert(next.last() == entry@);
            }
            if within(entry.slot, slot_now, retention) {
                let ghost was = views(kept@);
                kept.push(
                    Sighting {
                        author: bytes_copy(&entry.author),
                        slot: entry.slot,
                        hash: bytes_copy(&entry.hash),
                    },
                );
                assert(views(kept@) =~= was.push(entry@));
            }
            i += 1;
        }
        assert(before.take(i as int) =~= before);
        let mut found: Option<Equivocation> = None;
        if within(slot, slot_now, retention) {
            let mut known = false;
            let mut j: usize = 0;
            assert(views(kept@).skip(0) =~= views(kept@));
            assert(views(kept@).take(0) =~= Seq::<SightingView>::empty());
            while j < kept.len()
                invariant
                    j <= kept.len(),
                    sighting == (SightingView { author: author@, slot, hash: hash@ }),
                    known == views(kept@).take(j as int).contains(sighting),
                    match found {
                        Some(e) => earlier_block(views(kept@), author@, slot, hash@) == Some(
                            e.first_hash@,
                        ) && e.author@ == author@ && e.slot == slot && e.second_hash@ == hash@,
                        None => earlier_block(views(kept@), author@, slot, hash@)
                            == earlier_block(views(kept@).skip(j as int), author@, slot, hash@),
                    },
                decreases kept.len() - j,
            {
                let entry = &kept[j];
                let ghost all = views(kept@);
                proof {
                    assert(all.skip(j as int)[0] == entry@);
                    assert(all.skip(j as int).drop_first() =~= all.skip(j + 1));
                    assert(all.take(j + 1) =~= all.take(j as int).push(entry@));
                    lemma_contains_push(all.take(j as int), entry@, sighting);
                }
                if entry.slot == slot && bytes_equal(&entry.author, author) {
                    if bytes_equal(&entry.hash, hash) {
                        known = true;
                    } else if found.is_none() {
                        found =
                        Some(
                            Equivocation {
                                author: bytes_copy(author),
                                slot,
                                first_hash: bytes_copy(&entry.hash),
                                second_hash: bytes_copy(hash),
                            },
                        );
                    }
                }
                j += 1;
            }
            proof {
                assert(views(kept@).take(j as int) =~= views(kept@));
                assert(views(kept@).skip(j as int) =~= Seq::<SightingView>::empty());
            }
            if !known {
                let ghost was = views(kept@);
                kept.push(
                    Sighting { author: bytes_copy(author), slot, hash: bytes_copy(hash) },
                );
                assert(views(kept@) =~= was.push(sighting));
            }
        }
        self.seen = kept;
        found
    }
}

/// Whether `slot` is within the window; computes [`in_window`].
fn within(slot: Slot, slot_now: Slot, retention: u64) -> (yes: bool)
    ensures
        yes == in_window(slot, slot_now, retention),
{
    slot >= slot_now || slot_now - slot <= retention
}

/// A sequence with one more entry contains what it contained before, and that entry.
proof fn lemma_contains_push(s: Seq<SightingView>, last: SightingView, x: SightingView)
    ensures
        s.push(last).contains(x) == (s.contains(x) || last == x),
{
    let t = s.push(last);
    if s.contains(x) {
        let i = choose|i: int| 0 <= i < s.len() && s[i] == x;
        assert(t[i] == x);
    }
    if last == x {
        assert(t[s.len() as int] == x);
    }
    if t.contains(x) {
        let i = choose|i: int| 0 <= i < t.len() && t[i] == x;
        if i < s.len() {
            assert(s[i] == x);
        }
    }
}

/// What is retained was there before, and is within the window.
pub proof fn lemma_retained_subset(seen: Seq<SightingView>, slot_now: Slot, retention: u64)
    ensures
        forall|x: SightingView| #[trigger]
            retained(seen, slot_now, retention).contains(x) ==> seen.contains(x) && in_window(
                x.slot,
                slot_now,
                retention,
            ),
    decreases seen.len(),
{
    if seen.len() > 0 {
        let front = seen.drop_last();
        lemma_retained_subset(front, slot_now, retention);
        assert forall|x: SightingView| #[trigger]
            retained(seen, slot_now, retention).contains(x) implies seen.contains(x) && in_window(
            x.slot,
            slot_now,
            retention,
        ) by {
            lemma_contains_push(retained(front, slot_now, retention), seen.last(), x);
            if retained(front, slot_now, retention).contains(x) {
                let i = choose|i: int| 0 <= i < front.len() && front[i] == x;
                assert(seen[i] == x);
            } else {
                assert(seen[seen.len() - 1] == x);
            }
        }
    }
}

/// Dropping what left the window leaves no block twice where none was twice before.
pub proof fn lemma_retained_distinct(seen: Seq<SightingView>, slot_now: Slot, retention: u64)
    requires
        seen.no_duplicates(),
    ensures
        retained(seen, slot_now, retention).no_duplicates(),
    decreases seen.len(),
{
    if seen.len() > 0 {
        let front = seen.drop_last();
        lemma_retained_distinct(front, slot_now, retention);
        lemma_retained_subset(front, slot_now, retention);
        let kept = retained(front, slot_now, retention);
        if kept.contains(seen.last()) {
            let i = choose|i: int| 0 <= i < front.len() && front[i] == seen.last();
            assert(seen[i] == seen[seen.len() - 1]);
        }
    }
}

/// The tracker never remembers a block twice.
pub proof fn lemma_remembered_distinct(
    seen: Seq<SightingView>,
    retention: u64,
    sighting: SightingView,
    slot_now: Slot,
)
    requires
        seen.no_duplicates(),
    ensures
        remembered(seen, retention, sighting, slot_now).no_duplicates(),
{
    lemma_retained_distinct(seen, slot_now, retention);
}

/// Whatever the tracker remembers after a sighting lies within the window: its
/// memory is bounded by the window.
pub proof fn lemma_remembered_in_window(
    seen: Seq<SightingView>,
    retention: u64,
    sighting: SightingView,
    slot_now: Slot,
)
    ensures
        forall|k: int|
            0 <= k < remembered(seen, retention, sighting, slot_now).len() ==> in_window(
                #[trigger] remembered(seen, retention, sighting, slot_now)[k].slot,
                slot_now,
                retention,
            ),
{
    lemma_retained_subset(seen, slot_now, retention);
    let kept = retained(seen, slot_now, retention);
    let all = remembered(seen, retention, sighting, slot_now);
    assert forall|k: int| 0 <= k < all.len() implies in_window(
        #[trigger] all[k].slot,
        slot_now,
        retention,
    ) by {
        if k < kept.len() {
            assert(kept.contains(kept[k]));
        }
    }
}

/// Among sightings that hold no block by `author` for `slot`, nothing conflicts.
pub proof fn lemma_no_earlier_block(
    seen: Seq<SightingView>,
    author: Seq<u8>,
    slot: Slot,
    hash: Seq<u8>,
)
    requires
        forall|i: int|
            0 <= i < seen.len() ==> !(#[trigger] seen[i].author == author && seen[i].slot == slot
                && seen[i].hash != hash),
    ensures
        earlier_block(seen, author, slot, hash) is None,
    decreases seen.len(),
{
    if seen.len() > 0 {
        let rest = seen.drop_first();
        assert forall|i: int| 0 <= i < rest.len() implies !(#[trigger] rest[i].author == author
            && rest[i].slot == slot && rest[i].hash != hash) by {
            assert(rest[i] == seen[i + 1]);
        }
        lemma_no_earlier_block(rest, author, slot, hash);
    }
}

/// After sightings that hold no other block by `author` for `slot`, a sighting of
/// such a block is the earliest one.
pub proof fn lemma_earlier_block_last(
    seen: Seq<SightingView>,
    first: SightingView,
    hash: Seq<u8>,
)
    requires
        forall|i: int|
            0 <= i < seen.len() ==> !(#[trigger] seen[i].author == first.author && seen[i].slot
                == first.slot && seen[i].hash != hash),
        first.hash != hash,
    ensures
        earlier_block(seen.push(first), first.author, first.slot, hash) == Some(first.hash),
    decreases seen.len(),
{
    let all = seen.push(first);
    if seen.len() > 0 {
        let rest = seen.drop_first();
        assert forall|i: int| 0 <= i < rest.len() implies !(#[trigger] rest[i].author
            == first.author && rest[i].slot == first.slot && rest[i].hash != hash) by {
            assert(rest[i] == seen[i + 1]);
        }
        lemma_earlier_block_last(rest, first, hash);
        assert(all.drop_first() =~= rest.push(first));
        assert(all[0] == seen[0]);
    } else {
        assert(all[0] == first);
        assert(all.drop_first() =~= Seq::<SightingView>::empty());
    }
}

/// The second of two different blocks that one author seals for one slot is flagged,
/// with the hash of the first; a block shown twice is not flagged and is remembered
/// once.
///
/// This holds for a tracker that knew no block by the author for the slot, as long
/// as the slot stays within the window.
pub proof fn lemma_second_block_is_flagged(
    seen: Seq<SightingView>,
    retention: u64,
    author: Seq<u8>,
    slot: Slot,
    first_hash: Seq<u8>,
    second_hash: Seq<u8>,
    first_now: Slot,
    second_now: Slot,
)
    requires
        in_window(slot, first_now, retention),
        in_window(slot, second_now, retention),
        forall|i: int|
            0 <= i < seen.len() ==> !(#[trigger] seen[i].author == author && seen[i].slot == slot),
    ensures
        ({
            let first = SightingView { author, slot, hash: first_hash };
            let second = SightingView { author, slot, hash: second_hash };
            let after = remembered(seen, retention, first, first_now);
            &&& conflicting(seen, retention, first, first_now) is None
            &&& second_hash != first_hash ==> conflicting(after, retention, second, second_now)
                == Some(first_hash)
            &&& second_hash == first_hash ==> conflicting(after, retention, second, second_now)
                is None
            &&& second_hash == first_hash ==> remembered(after, retention, second, second_now)
                == retained(after, second_now, retention)
        }),
{
    let first = SightingView { author, slot, hash: first_hash };
    let second = SightingView { author, slot, hash: second_hash };
    let kept = retained(seen, first_now, retention);
    lemma_retained_subset(seen, first_now, retention);
    assert forall|i: int| 0 <= i < kept.len() implies !(#[trigger] kept[i].author == author
        && kept[i].slot == slot) by {
        assert(kept.contains(kept[i]));
        let j = choose|j: int| 0 <= j < seen.len() && seen[j] == kept[i];
        assert(seen[j].author == kept[i].author);
    }
    lemma_no_earlier_block(kept, author, slot, first_hash);
    if kept.contains(first) {
        let j = choose|j: int| 0 <= j < kept.len() && kept[j] == first;
        assert(kept[j].author == author);
    }
    let after = kept.push(first);
    assert(after == remembered(seen, retention, first, first_now));
    assert(after.drop_last() =~= kept);
    let again = retained(kept, second_now, retention);
    lemma_retained_subset(kept, second_now, retention);
    assert(retained(after, second_now, retention) == again.push(first));
    assert forall|i: int| 0 <= i < again.len() implies !(#[trigger] again[i].author == author
        && again[i].slot == slot && again[i].hash != second_hash) by {
        assert(again.contains(again[i]));
        let j = choose|j: int| 0 <= j < kept.len() && kept[j] == again[i];
        assert(kept[j].author == again[i].author);
    }
    if second_hash != first_hash {
        lemma_earlier_block_last(again, first, second_hash);
    } else {
        assert forall|i: int| 0 <= i < again.push(first).len() implies !(#[trigger] again.push(
            first,
        )[i].author == author && again.push(first)[i].slot == slot && again.push(first)[i].hash
            != second_hash) by {
            if i < again.len() {
                assert(again.push(first)[i] == again[i]);
            }
        }
        lemma_no_earlier_block(again.push(first), author, slot, second_hash);
        assert(again.push(first)[again.len() as int] == second);
    }
}

} // verus!
