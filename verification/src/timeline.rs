//! What the timeline shows: which stays and rows a tab draws, which stays fill
//! a housing's row and in what order, which of them fall in the visible
//! window, and whether a housing is over capacity on some visible day.
use crate::date::{Date, MAX_DAY, MIN_DAY};
use crate::journal::stays_in_housing;
use crate::model::{ids_contain, includes_person, occupancy_of, Housing, Id, Person, Plan, Stay, Subject};
use vstd::prelude::*;

verus! {

/// `sorted` with `s` inserted after the last element (counting from the end)
/// that arrives no later than `s`.
pub open spec fn insert_by_arrival(sorted: Seq<Stay>, s: Stay) -> Seq<Stay>
    decreases sorted.len(),
{
    if sorted.len() == 0 {
        seq![s]
    } else if sorted.last().arrival@ <= s.arrival@ {
        sorted.push(s)
    } else {
        insert_by_arrival(sorted.drop_last(), s).push(sorted.last())
    }
}

/// `ss` stably sorted by arrival: stays arriving the same day keep their order.
pub open spec fn sorted_by_arrival(ss: Seq<Stay>) -> Seq<Stay>
    decreases ss.len(),
{
    if ss.len() == 0 {
        ss
    } else {
        insert_by_arrival(sorted_by_arrival(ss.drop_last()), ss.last())
    }
}

/// True if a stay overlaps the window `[view_start, view_end)`.
pub open spec fn visible_in(stay: Stay, view_start: Date, view_end: Date) -> bool {
    !(stay.departure@ <= view_start@ || stay.arrival@ >= view_end@)
}

/// Inserting at position `j` is what `insert_by_arrival` does when every
/// element from `j` on arrives later and the one before `j` does not.
proof fn lemma_insert_at(sorted: Seq<Stay>, s: Stay, j: int)
    requires
        0 <= j <= sorted.len(),
        forall|t: int| j <= t < sorted.len() ==> (#[trigger] sorted[t]).arrival@ > s.arrival@,
        j == 0 || sorted[j - 1].arrival@ <= s.arrival@,
    ensures
        insert_by_arrival(sorted, s) == sorted.take(j).push(s) + sorted.skip(j),
    decreases sorted.len(),
{
    if j == sorted.len() {
        assert(sorted.skip(j) =~= Seq::<Stay>::empty());
        assert(sorted.take(j) =~= sorted);
        if sorted.len() == 0 {
            assert(insert_by_arrival(sorted, s) =~= sorted.take(j).push(s) + sorted.skip(j));
        } else {
            assert(insert_by_arrival(sorted, s) =~= sorted.take(j).push(s) + sorted.skip(j));
        }
    } else {
        let d = sorted.drop_last();
        assert(sorted[sorted.len() - 1].arrival@ > s.arrival@);
        assert forall|t: int| j <= t < d.len() implies (#[trigger] d[t]).arrival@ > s.arrival@ by {
            assert(d[t] == sorted[t]);
        }
        if j > 0 {
            assert(d[j - 1] == sorted[j - 1]);
        }
        lemma_insert_at(d, s, j);
        assert(insert_by_arrival(sorted, s) =~= sorted.take(j).push(s) + sorted.skip(j));
    }
}

impl Plan {
    /// The stays of a housing's row, in the order the timeline draws them:
    /// stably sorted by arrival.
    pub fn row_stays(&self, housing: Id) -> (r: Vec<Stay>)
        ensures
            r@ == sorted_by_arrival(stays_in_housing(self.stays@, housing)),
    {
        let mut row: Vec<Stay> = Vec::new();
        let ghost mut seen: Seq<Stay> = Seq::empty();
        let mut i: usize = 0;
        while i < self.stays.len()
            invariant
                i <= self.stays.len(),
                seen == stays_in_housing(self.stays@.take(i as int), housing),
                row@ == sorted_by_arrival(seen),
            decreases self.stays.len() - i,
        {
            proof {
                assert(self.stays@.take(i + 1).drop_last() =~= self.stays@.take(i as int));
            }
            let s = self.stays[i];
            if s.housing == housing {
                let mut j: usize = row.len();
                while j > 0 && s.arrival.is_before(row[j - 1].arrival)
                    invariant
                        j <= row.len(),
                        forall|t: int| j <= t < row@.len() ==> (#[trigger] row@[t]).arrival@ > s.arrival@,
                    decreases j,
                {
                    j -= 1;
                }
                proof {
                    lemma_insert_at(row@, s, j as int);
                    assert(seen.push(s).drop_last() =~= seen);
                }
                let ghost before = row@;
                row.insert(j, s);
                proof {
                    assert(row@ =~= before.take(j as int).push(s) + before.skip(j as int));
                    seen = seen.push(s);
                }
            }
            i += 1;
        }
        proof {
            assert(self.stays@.take(i as int) =~= self.stays@);
        }
        row
    }
}

/// True if a stay overlaps the window `[view_start, view_end)`; stays outside it
/// are not drawn.
pub fn stay_visible(stay: &Stay, view_start: Date, view_end: Date) -> (r: bool)
    ensures
        r == visible_in(*stay, view_start, view_end),
{
    !(!view_start.is_before(stay.departure) || !stay.arrival.is_before(view_end))
}

/// True if on some day of the `days_visible`-day window starting at
/// `view_start` more people occupy `housing` than it holds (its name is then
/// drawn in red).
pub fn over_capacity(plan: &Plan, housing: &Housing, view_start: Date, days_visible: i64) -> (r: bool)
    requires
        view_start@ + days_visible <= MAX_DAY + 1,
    ensures
        r == exists|d: Date|
            view_start@ <= d@ < view_start@ + days_visible && occupancy_of(plan.stays@, plan.persons@, housing.id, d)
                > housing.capacity,
{
    let mut k: i64 = 0;
    while k < days_visible
        invariant
            0 <= k,
            k <= days_visible || days_visible < 0,
            view_start@ + days_visible <= MAX_DAY + 1,
            forall|d: Date|
                view_start@ <= d@ < view_start@ + k ==> occupancy_of(plan.stays@, plan.persons@, housing.id, d)
                    <= housing.capacity,
        decreases days_visible - k,
    {
        let day = view_start.checked_add_days(k).unwrap();
        if plan.occupancy_exceeds(housing.id, day, housing.capacity) {
            return true;
        }
        proof {
            assert forall|d: Date|
                view_start@ <= d@ < view_start@ + k + 1 implies occupancy_of(plan.stays@, plan.persons@, housing.id, d)
                    <= housing.capacity by {
                if d@ == view_start@ + k {
                    Date::lemma_view_injective(d, day);
                }
            }
        }
        k += 1;
    }
    false
}

/// The ids, in plan order, of the stays booked for `subject` itself.
pub open spec fn stay_ids_of(ss: Seq<Stay>, subject: Subject) -> Seq<Id>
    decreases ss.len(),
{
    if ss.len() == 0 {
        Seq::empty()
    } else {
        let earlier = stay_ids_of(ss.drop_last(), subject);
        if ss.last().subject == subject {
            earlier.push(ss.last().id)
        } else {
            earlier
        }
    }
}

/// The ids, in plan order, of the stays that put person `pid` in a housing,
/// booked for the person or for the person's group.
pub open spec fn stay_ids_including(ps: Seq<Person>, ss: Seq<Stay>, pid: Id) -> Seq<Id>
    decreases ss.len(),
{
    if ss.len() == 0 {
        Seq::empty()
    } else {
        let earlier = stay_ids_including(ps, ss.drop_last(), pid);
        if includes_person(ps, ss.last(), pid) {
            earlier.push(ss.last().id)
        } else {
            earlier
        }
    }
}

/// True if some stay in housing `hid` has its id among `ids`.
pub open spec fn holds_one_of(ss: Seq<Stay>, hid: Id, ids: Seq<Id>) -> bool {
    exists|i: int| 0 <= i < ss.len() && ss[i].housing == hid && ids.contains(#[trigger] ss[i].id)
}

/// The ids, in plan order, of the housings that hold one of the stays `ids`:
/// the rows a tab showing just those stays draws.
pub open spec fn housings_holding(hs: Seq<Housing>, ss: Seq<Stay>, ids: Seq<Id>) -> Seq<Id>
    decreases hs.len(),
{
    if hs.len() == 0 {
        Seq::empty()
    } else {
        let earlier = housings_holding(hs.drop_last(), ss, ids);
        if holds_one_of(ss, hs.last().id, ids) {
            earlier.push(hs.last().id)
        } else {
            earlier
        }
    }
}

impl Plan {
    /// The ids of the stays booked for `subject` itself, in plan order (the
    /// stays a group's tab shows).
    pub fn stays_of_subject(&self, subject: Subject) -> (r: Vec<Id>)
        ensures
            r@ == stay_ids_of(self.stays@, subject),
    {
        let mut out: Vec<Id> = Vec::new();
        let mut i: usize = 0;
        while i < self.stays.len()
            invariant
                i <= self.stays@.len(),
                out@ == stay_ids_of(self.stays@.take(i as int), subject),
            decreases self.stays@.len() - i,
        {
            proof {
                assert(self.stays@.take(i + 1).drop_last() =~= self.stays@.take(i as int));
            }
            if self.stays[i].subject == subject {
                out.push(self.stays[i].id);
            }
            i += 1;
        }
        proof {
            assert(self.stays@.take(i as int) =~= self.stays@);
        }
        out
    }

    /// The ids of the stays that put person `pid` in a housing, own stays and
    /// the stays of the person's group alike, in plan order (the stays a
    /// person's tab shows).
    pub fn stays_including_person(&self, pid: Id) -> (r: Vec<Id>)
        ensures
            r@ == stay_ids_including(self.persons@, self.stays@, pid),
    {
        let mut out: Vec<Id> = Vec::new();
        let mut i: usize = 0;
        while i < self.stays.len()
            invariant
                i <= self.stays@.len(),
                out@ == stay_ids_including(self.persons@, self.stays@.take(i as int), pid),
            decreases self.stays@.len() - i,
        {
            proof {
                assert(self.stays@.take(i + 1).drop_last() =~= self.stays@.take(i as int));
            }
            if self.stay_includes_person(&self.stays[i], pid) {
                out.push(self.stays[i].id);
            }
            i += 1;
        }
        proof {
            assert(self.stays@.take(i as int) =~= self.stays@);
        }
        out
    }

    /// True if some stay in housing `hid` has its id among `ids`.
    fn holds_one_of(&self, hid: Id, ids: &Vec<Id>) -> (r: bool)
        ensures
            r == holds_one_of(self.stays@, hid, ids@),
    {
        let mut i: usize = 0;
        while i < self.stays.len()
            invariant
                i <= self.stays@.len(),
                forall|j: int| 0 <= j < i ==> !(self.stays@[j].housing == hid && ids@.contains(#[trigger] self.stays@[j].id)),
            decreases self.stays@.len() - i,
        {
            if self.stays[i].housing == hid && ids_contain(ids, self.stays[i].id) {
                return true;
            }
            i += 1;
        }
        false
    }

    /// The ids of the housings holding one of the stays `ids`, in plan order:
    /// the rows of a tab that shows just those stays.
    pub fn housings_holding(&self, ids: &Vec<Id>) -> (r: Vec<Id>)
        ensures
            r@ == housings_holding(self.housings@, self.stays@, ids@),
    {
        let mut out: Vec<Id> = Vec::new();
        let mut i: usize = 0;
        while i < self.housings.len()
            invariant
                i <= self.housings@.len(),
                out@ == housings_holding(self.housings@.take(i as int), self.stays@, ids@),
            decreases self.housings@.len() - i,
        {
            proof {
                assert(self.housings@.take(i + 1).drop_last() =~= self.housings@.take(i as int));
            }
            if self.holds_one_of(self.housings[i].id, ids) {
                out.push(self.housings[i].id);
            }
            i += 1;
        }
        proof {
            assert(self.housings@.take(i as int) =~= self.housings@);
        }
        out
    }
}

/// True if the two stays share a night: each arrives before the other departs.
pub open spec fn overlaps(a: Stay, b: Stay) -> bool {
    a.arrival@ < b.departure@ && b.arrival@ < a.departure@
}

/// Lane `lane` is free for `row[k]`: no earlier stay of the row placed in that
/// lane overlaps it.
pub open spec fn lane_free(row: Seq<Stay>, lanes: Seq<usize>, k: int, lane: int) -> bool {
    forall|j: int| 0 <= j < k && lanes[j] == lane ==> !overlaps(#[trigger] row[j], row[k])
}

/// `lanes` stacks the stays of `row` first-fit: one lane per stay, each stay in
/// the lowest lane free for it when the stays are placed in row order.
pub open spec fn first_fit(row: Seq<Stay>, lanes: Seq<usize>) -> bool {
    &&& lanes.len() == row.len()
    &&& forall|k: int| 0 <= k < row.len() ==> lane_free(row, lanes, k, #[trigger] lanes[k] as int)
    &&& forall|k: int, l: int| 0 <= k < row.len() && 0 <= l < lanes[k] ==> !#[trigger] lane_free(row, lanes, k, l)
}

/// True if no stay of `row` before position `k` placed in `lane` overlaps `row[k]`.
fn is_lane_free(row: &Vec<Stay>, lanes: &Vec<usize>, k: usize, lane: usize) -> (r: bool)
    requires
        k < row@.len(),
        k <= lanes@.len(),
    ensures
        r == lane_free(row@, lanes@, k as int, lane as int),
{
    let mut j: usize = 0;
    while j < k
        invariant
            j <= k < row@.len(),
            k <= lanes@.len(),
            forall|i: int| 0 <= i < j && lanes@[i] == lane ==> !overlaps(#[trigger] row@[i], row@[k as int]),
        decreases k - j,
    {
        if lanes[j] == lane && row[j].arrival.is_before(row[k].departure) && row[k].arrival.is_before(
            row[j].departure,
        ) {
            assert(overlaps(row@[j as int], row@[k as int]));
            return false;
        }
        j += 1;
    }
    true
}

/// The sub-lane of each stay of a housing's row (in the row's order), so that
/// overlapping stays are stacked and no bar hides another: each stay takes the
/// lowest lane in which no earlier stay overlaps it.
pub fn row_lanes(row: &Vec<Stay>) -> (r: Vec<usize>)
    ensures
        first_fit(row@, r@),
        forall|k: int| 0 <= k < r@.len() ==> r@[k] <= k,
{
    let mut lanes: Vec<usize> = Vec::new();
    let mut k: usize = 0;
    while k < row.len()
        invariant
            k <= row@.len(),
            lanes@.len() == k,
            forall|i: int| 0 <= i < k ==> lanes@[i] <= i,
            forall|i: int| 0 <= i < k ==> lane_free(row@, lanes@, i, #[trigger] lanes@[i] as int),
            forall|i: int, l: int| 0 <= i < k && 0 <= l < lanes@[i] ==> !#[trigger] lane_free(row@, lanes@, i, l),
        decreases row@.len() - k,
    {
        let mut lane: usize = 0;
        while !is_lane_free(row, &lanes, k, lane)
            invariant
                k < row@.len(),
                lanes@.len() == k,
                lane <= k,
                forall|i: int| 0 <= i < k ==> lanes@[i] <= i,
                forall|l: int| 0 <= l < lane ==> !#[trigger] lane_free(row@, lanes@, k as int, l),
            decreases k - lane,
        {
            assert(lane_free(row@, lanes@, k as int, k as int));
            lane += 1;
        }
        let ghost before = lanes@;
        lanes.push(lane);
        proof {
            assert forall|i: int, l: int| 0 <= i <= k && #[trigger] lane_free(row@, lanes@, i, l) implies lane_free(row@, before, i, l) by {
                assert forall|j: int| 0 <= j < i && before[j] == l implies !overlaps(#[trigger] row@[j], row@[i]) by {
                    assert(lanes@[j] == before[j]);
                }
            }
            assert forall|i: int, l: int| 0 <= i <= k && #[trigger] lane_free(row@, before, i, l) implies lane_free(row@, lanes@, i, l) by {
                assert forall|j: int| 0 <= j < i && lanes@[j] == l implies !overlaps(#[trigger] row@[j], row@[i]) by {
                    assert(lanes@[j] == before[j]);
                }
            }
        }
        k += 1;
    }
    lanes
}

impl Plan {
    /// Where the timeline starts for this plan: two days before its earliest
    /// arrival, or `today` when it has no stay.
    pub fn view_start(&self, today: Date) -> (r: Date)
        requires
            forall|i: int| 0 <= i < self.stays@.len() ==> MIN_DAY + 2 <= (#[trigger] self.stays@[i]).arrival@,
        ensures
            self.stays@.len() == 0 ==> r == today,
            self.stays@.len() > 0 ==> (exists|i: int| 0 <= i < self.stays@.len() && r@ + 2 == self.stays@[i].arrival@)
                && (forall|i: int| 0 <= i < self.stays@.len() ==> r@ + 2 <= (#[trigger] self.stays@[i]).arrival@),
    {
        match self.earliest_arrival() {
            Some(first) => {
                proof {
                    let i = choose|i: int| 0 <= i < self.stays@.len() && self.stays@[i].arrival == first;
                    assert(MIN_DAY + 2 <= self.stays@[i].arrival@);
                }
                match first.checked_add_days(-2) {
                    Some(d) => d,
                    None => first,
                }
            },
            None => today,
        }
    }
}

} // verus!
