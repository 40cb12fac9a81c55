use vstd::prelude::*;

verus! {

/// Whether a device came or went.
#[derive(Clone, Copy, Debug, PartialEq, Eq, Structural)]
pub enum EdgeDirection {
    Added,
    Removed,
}

/// Counts the attached devices that count as external keyboards, and
/// reports a change of presence only when that count crosses zero.
#[derive(Clone, Copy, Debug)]
pub struct EdgeCounter {
    count: u64,
    switch_on: bool,
}

/// The count after one event. Only matching devices are counted; a removal
/// at zero is one whose addition was missed, and is ignored; the count
/// stops at the largest `u64`.
pub open spec fn next_count(c: nat, is_match: bool, d: EdgeDirection) -> nat {
    if !is_match {
        c
    } else {
        match d {
            EdgeDirection::Added => if c < u64::MAX { c + 1 } else { c },
            EdgeDirection::Removed => if c == 0 { 0 } else { (c - 1) as nat },
        }
    }
}

/// What is emitted when the count goes from `before` to `after`: `true`
/// on 0 to 1, `false` on 1 to 0, nothing otherwise.
pub open spec fn emission(before: int, after: int) -> Option<bool> {
    if before == 0 && after == 1 {
        Some(true)
    } else if before == 1 && after == 0 {
        Some(false)
    } else {
        None
    }
}

/// The count after a sequence of matching events, starting from zero.
pub open spec fn count_after(evs: Seq<EdgeDirection>) -> nat
    decreases evs.len(),
{
    if evs.len() == 0 {
        0
    } else {
        next_count(count_after(evs.drop_last()), true, evs.last())
    }
}

/// What a fresh counter emits on each of a sequence of matching events.
pub open spec fn emissions(evs: Seq<EdgeDirection>) -> Seq<Option<bool>>
    decreases evs.len(),
{
    if evs.len() == 0 {
        Seq::empty()
    } else {
        emissions(evs.drop_last()).push(
            emission(count_after(evs.drop_last()) as int, count_after(evs) as int),
        )
    }
}

/// Additions minus removals in a sequence of events.
pub open spec fn net_count(evs: Seq<EdgeDirection>) -> int
    decreases evs.len(),
{
    if evs.len() == 0 {
        0
    } else {
        net_count(evs.drop_last()) + match evs.last() {
            EdgeDirection::Added => 1int,
            EdgeDirection::Removed => -1int,
        }
    }
}

impl EdgeCounter {
    /// The number of matching devices counted.
    pub closed spec fn spec_count(&self) -> nat {
        self.count as nat
    }

    /// The switch value last reported.
    pub closed spec fn spec_switch_on(&self) -> bool {
        self.switch_on
    }

    /// The switch value agrees with the count.
    pub closed spec fn wf(&self) -> bool {
        self.switch_on == (self.count > 0)
    }

    /// No matching device, switch off.
    pub fn new() -> (r: EdgeCounter)
        ensures
            r.wf(),
            r.spec_count() == 0,
            !r.spec_switch_on(),
    {
        EdgeCounter { count: 0, switch_on: false }
    }

    pub fn count(&self) -> (r: u64)
        ensures
            r == self.spec_count(),
    {
        self.count
    }

    pub fn switch_on(&self) -> (r: bool)
        requires
            self.wf(),
        ensures
            r == self.spec_switch_on(),
            r == (self.spec_count() > 0),
    {
        self.switch_on
    }

    /// Takes one device event; `is_match` tells whether the device counts as
    /// an external keyboard. Returns the new switch value when the count
    /// crosses zero, and nothing otherwise.
    pub fn on_event(&mut self, is_match: bool, direction: EdgeDirection) -> (r: Option<bool>)
        requires
            old(self).wf(),
        ensures
            final(self).wf(),
            final(self).spec_count() == next_count(old(self).spec_count(), is_match, direction),
            final(self).spec_switch_on() == (final(self).spec_count() > 0),
            r == emission(old(self).spec_count() as int, final(self).spec_count() as int),
    {
        if is_match {
            match direction {
                EdgeDirection::Added => {
                    if self.count < u64::MAX {
                        self.count = self.count + 1;
                    }
                },
                EdgeDirection::Removed => {
                    if self.count > 0 {
                        self.count = self.count - 1;
                    }
                },
            }
        }
        let on = self.count > 0;
        if on != self.switch_on {
            self.switch_on = on;
            Some(on)
        } else {
            None
        }
    }
}

/// No emission while a matching device stays attached: the count moving
/// between positive values, 1 to 2 or 2 to 1 among them, emits nothing.
pub proof fn no_emission_between_positive_counts(before: int, after: int)
    requires
        before >= 1,
        after >= 1,
    ensures
        emission(before, after) is None,
{
}

/// On a sequence of matching events whose running count never goes below
/// zero, a fresh counter emits `true` exactly where the count goes from 0
/// to 1, `false` exactly where it goes from 1 to 0, and nothing elsewhere.
pub proof fn emissions_exactly_at_zero_crossings(evs: Seq<EdgeDirection>)
    requires
        forall|k: int| 0 <= k <= evs.len() ==> 0 <= #[trigger] net_count(evs.take(k)) <= u64::MAX,
    ensures
        emissions(evs).len() == evs.len(),
        forall|i: int| 0 <= i < evs.len() ==> #[trigger] emissions(evs)[i]
            == emission(net_count(evs.take(i)), net_count(evs.take(i + 1))),
    decreases evs.len(),
{
    assert(evs.take(evs.len() as int) =~= evs);
    if evs.len() > 0 {
        let prev = evs.drop_last();
        assert forall|k: int| 0 <= k <= prev.len() implies 0 <= #[trigger] net_count(prev.take(k)) <= u64::MAX by {
            assert(prev.take(k) =~= evs.take(k));
        }
        emissions_exactly_at_zero_crossings(prev);
        counts_agree(evs);
        counts_agree(prev);
        assert(prev.take(prev.len() as int) =~= prev);
        assert forall|i: int| 0 <= i < evs.len() implies #[trigger] emissions(evs)[i]
            == emission(net_count(evs.take(i)), net_count(evs.take(i + 1))) by {
            if i < prev.len() {
                assert(prev.take(i) =~= evs.take(i));
                assert(prev.take(i + 1) =~= evs.take(i + 1));
            } else {
                assert(evs.take(i) =~= prev);
                assert(evs.take(i + 1) =~= evs);
            }
        }
    }
}

/// While the running count stays within range, the counter's count is the
/// number of additions minus removals.
proof fn counts_agree(evs: Seq<EdgeDirection>)
    requires
        forall|k: int| 0 <= k <= evs.len() ==> 0 <= #[trigger] net_count(evs.take(k)) <= u64::MAX,
    ensures
        count_after(evs) == net_count(evs),
    decreases evs.len(),
{
    assert(evs.take(evs.len() as int) =~= evs);
    if evs.len() > 0 {
        let prev = evs.drop_last();
        assert forall|k: int| 0 <= k <= prev.len() implies 0 <= #[trigger] net_count(prev.take(k)) <= u64::MAX by {
            assert(prev.take(k) =~= evs.take(k));
        }
        assert(evs.take(prev.len() as int) =~= prev);
        counts_agree(prev);
    }
}

} // verus!
