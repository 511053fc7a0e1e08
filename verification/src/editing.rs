//! The edits the planner's editors make to a plan: creating entities with
//! default names, deleting them together with what depends on them, and
//! keeping a stay's dates in order.
use crate::date::{Date, MAX_DAY};
use crate::journal::{decimal, decimal_text, without_group, without_housing, without_person, without_stay};
use crate::model::{
    ids_contain, person_index, Group, Housing, Id, Person, Plan, PlanModel, Stay, Subject, GROUP_PALETTE,
};
use vstd::prelude::*;
use vstd::string::StringExecFns;

verus! {

/// `ss` without the stays in housing `hid`, in order.
pub open spec fn stays_outside_housing(ss: Seq<Stay>, hid: Id) -> Seq<Stay>
    decreases ss.len(),
{
    if ss.len() == 0 {
        ss
    } else {
        let rest = stays_outside_housing(ss.drop_last(), hid);
        if ss.last().housing != hid {
            rest.push(ss.last())
        } else {
            rest
        }
    }
}

/// `ss` without the stays booked for `subject`, in order.
pub open spec fn stays_not_of(ss: Seq<Stay>, subject: Subject) -> Seq<Stay>
    decreases ss.len(),
{
    if ss.len() == 0 {
        ss
    } else {
        let rest = stays_not_of(ss.drop_last(), subject);
        if ss.last().subject != subject {
            rest.push(ss.last())
        } else {
            rest
        }
    }
}

/// `ps` with every member of group `gid` left without a group.
pub open spec fn detach_members(ps: Seq<Person>, gid: Id) -> Seq<Person> {
    ps.map_values(|p: Person| if p.group == Some(gid) { Person { group: None, ..p } } else { p })
}

/// A default name: `prefix`, a space and `n` in decimal.
pub open spec fn numbered_name(prefix: Seq<char>, n: nat) -> Seq<char> {
    prefix + " "@ + decimal_text(n)
}

/// `prefix`, a space and `n` in decimal.
fn numbered(prefix: &str, n: u64) -> (r: String)
    ensures
        r@ == numbered_name(prefix@, n as nat),
{
    let mut s = String::from_str(prefix);
    s.append(" ");
    let t = decimal(n);
    s.append(t.as_str());
    s
}

impl Plan {
    /// Create a housing named after its position ("Housing 3"), for two people.
    pub fn add_housing(&mut self) -> (r: Id)
        requires
            old(self)@.next_id < u64::MAX,
            old(self)@.housings.len() < u64::MAX,
        ensures
            r == old(self)@.next_id,
            final(self)@ == (PlanModel {
                next_id: (r + 1) as u64,
                housings: final(self)@.housings,
                ..old(self)@
            }),
            final(self)@.housings.drop_last() == old(self)@.housings,
            final(self)@.housings.last().id == r,
            final(self)@.housings.last().name@ == numbered_name("Housing"@, old(self)@.housings.len() + 1),
            final(self)@.housings.last().capacity == 2,
            final(self)@.housings.last().notes@ == Seq::<char>::empty(),
    {
        let id = self.new_id();
        let name = numbered("Housing", self.housings.len() as u64 + 1);
        self.housings.push(Housing { id, name, capacity: 2, notes: String::new() });
        assert(self.housings@.drop_last() =~= old(self).housings@);
        id
    }

    /// Create a group named after its position ("Group 3"), colored by cycling
    /// through the palette.
    pub fn add_group(&mut self) -> (r: Id)
        requires
            old(self)@.next_id < u64::MAX,
            old(self)@.groups.len() < u64::MAX,
        ensures
            r == old(self)@.next_id,
            final(self)@ == (PlanModel {
                next_id: (r + 1) as u64,
                groups: final(self)@.groups,
                ..old(self)@
            }),
            final(self)@.groups.drop_last() == old(self)@.groups,
            final(self)@.groups.last().id == r,
            final(self)@.groups.last().name@ == numbered_name("Group"@, old(self)@.groups.len() + 1),
            final(self)@.groups.last().color == GROUP_PALETTE[(old(self)@.groups.len() % 8) as int],
    {
        let id = self.new_id();
        let color = GROUP_PALETTE[self.groups.len() % 8];
        let name = numbered("Group", self.groups.len() as u64 + 1);
        self.groups.push(Group { id, name, color });
        assert(self.groups@.drop_last() =~= old(self).groups@);
        id
    }

    /// Create a person named after their position ("Person 3"), in `group`.
    pub fn add_person(&mut self, group: Option<Id>) -> (r: Id)
        requires
            old(self)@.next_id < u64::MAX,
            old(self)@.persons.len() < u64::MAX,
        ensures
            r == old(self)@.next_id,
            final(self)@ == (PlanModel {
                next_id: (r + 1) as u64,
                persons: final(self)@.persons,
                ..old(self)@
            }),
            final(self)@.persons.drop_last() == old(self)@.persons,
            final(self)@.persons.last().id == r,
            final(self)@.persons.last().name@ == numbered_name("Person"@, old(self)@.persons.len() + 1),
            final(self)@.persons.last().group == group,
    {
        let id = self.new_id();
        let name = numbered("Person", self.persons.len() as u64 + 1);
        self.persons.push(Person { id, name, group });
        assert(self.persons@.drop_last() =~= old(self).persons@);
        id
    }

    /// Book `subject` into `housing` for the week starting at `arrival`.
    pub fn add_stay(&mut self, subject: Subject, housing: Id, arrival: Date) -> (r: Id)
        requires
            old(self)@.next_id < u64::MAX,
            arrival@ + 7 <= MAX_DAY,
        ensures
            r == old(self)@.next_id,
            final(self)@ == (PlanModel {
                next_id: (r + 1) as u64,
                stays: final(self)@.stays,
                ..old(self)@
            }),
            final(self)@.stays.drop_last() == old(self)@.stays,
            final(self)@.stays.last().id == r,
            final(self)@.stays.last().subject == subject,
            final(self)@.stays.last().housing == housing,
            final(self)@.stays.last().arrival == arrival,
            final(self)@.stays.last().departure@ == arrival@ + 7,
    {
        let id = self.new_id();
        let departure = match arrival.checked_add_days(7) {
            Some(d) => d,
            None => arrival,
        };
        self.stays.push(Stay { id, subject, housing, arrival, departure });
        assert(self.stays@.drop_last() =~= old(self).stays@);
        id
    }

    /// Delete a housing together with every stay in it.
    pub fn delete_housing(&mut self, hid: Id)
        ensures
            final(self)@ == (PlanModel {
                housings: without_housing(old(self)@.housings, hid),
                stays: stays_outside_housing(old(self)@.stays, hid),
                ..old(self)@
            }),
    {
        let mut kept: Vec<Housing> = Vec::new();
        let mut i: usize = 0;
        while i < self.housings.len()
            invariant
                i <= self.housings.len(),
                self@ == old(self)@,
                kept@ == without_housing(self.housings@.take(i as int), hid),
            decreases self.housings.len() - i,
        {
            proof {
                assert(self.housings@.take(i + 1).drop_last() =~= self.housings@.take(i as int));
            }
            if self.housings[i].id != hid {
                kept.push(self.housings[i].clone());
            }
            i += 1;
        }
        proof {
            assert(self.housings@.take(i as int) =~= self.housings@);
        }
        let mut stays: Vec<Stay> = Vec::new();
        let mut j: usize = 0;
        while j < self.stays.len()
            invariant
                j <= self.stays.len(),
                self@ == old(self)@,
                stays@ == stays_outside_housing(self.stays@.take(j as int), hid),
            decreases self.stays.len() - j,
        {
            proof {
                assert(self.stays@.take(j + 1).drop_last() =~= self.stays@.take(j as int));
            }
            if self.stays[j].housing != hid {
                stays.push(self.stays[j]);
            }
            j += 1;
        }
        proof {
            assert(self.stays@.take(j as int) =~= self.stays@);
        }
        self.housings = kept;
        self.stays = stays;
    }

    /// Delete a group: its members are left without a group, and its stays go.
    pub fn delete_group(&mut self, gid: Id)
        ensures
            final(self)@ == (PlanModel {
                groups: without_group(old(self)@.groups, gid),
                persons: detach_members(old(self)@.persons, gid),
                stays: stays_not_of(old(self)@.stays, Subject::Group(gid)),
                ..old(self)@
            }),
    {
        let mut kept: Vec<Group> = Vec::new();
        let mut i: usize = 0;
        while i < self.groups.len()
            invariant
                i <= self.groups.len(),
                self@ == old(self)@,
                kept@ == without_group(self.groups@.take(i as int), gid),
            decreases self.groups.len() - i,
        {
            proof {
                assert(self.groups@.take(i + 1).drop_last() =~= self.groups@.take(i as int));
            }
            if self.groups[i].id != gid {
                kept.push(self.groups[i].clone());
            }
            i += 1;
        }
        proof {
            assert(self.groups@.take(i as int) =~= self.groups@);
        }
        let mut persons: Vec<Person> = Vec::new();
        let mut k: usize = 0;
        while k < self.persons.len()
            invariant
                k <= self.persons.len(),
                self@ == old(self)@,
                persons@ == detach_members(self.persons@.take(k as int), gid),
            decreases self.persons.len() - k,
        {
            let mut p = self.persons[k].clone();
            if p.group == Some(gid) {
                p.group = None;
            }
            persons.push(p);
            proof {
                assert(persons@ =~= detach_members(self.persons@.take(k + 1), gid));
            }
            k += 1;
        }
        proof {
            assert(self.persons@.take(k as int) =~= self.persons@);
        }
        let mut stays: Vec<Stay> = Vec::new();
        let mut j: usize = 0;
        while j < self.stays.len()
            invariant
                j <= self.stays.len(),
                self@ == old(self)@,
                stays@ == stays_not_of(self.stays@.take(j as int), Subject::Group(gid)),
            decreases self.stays.len() - j,
        {
            proof {
                assert(self.stays@.take(j + 1).drop_last() =~= self.stays@.take(j as int));
            }
            if self.stays[j].subject != Subject::Group(gid) {
                stays.push(self.stays[j]);
            }
            j += 1;
        }
        proof {
            assert(self.stays@.take(j as int) =~= self.stays@);
        }
        self.groups = kept;
        self.persons = persons;
        self.stays = stays;
    }

    /// Delete a person together with their own stays.
    pub fn delete_person(&mut self, pid: Id)
        ensures
            final(self)@ == (PlanModel {
                persons: without_person(old(self)@.persons, pid),
                stays: stays_not_of(old(self)@.stays, Subject::Person(pid)),
                ..old(self)@
            }),
    {
        let mut kept: Vec<Person> = Vec::new();
        let mut i: usize = 0;
        while i < self.persons.len()
            invariant
                i <= self.persons.len(),
                self@ == old(self)@,
                kept@ == without_person(self.persons@.take(i as int), pid),
            decreases self.persons.len() - i,
        {
            proof {
                assert(self.persons@.take(i + 1).drop_last() =~= self.persons@.take(i as int));
            }
            if self.persons[i].id != pid {
                kept.push(self.persons[i].clone());
            }
            i += 1;
        }
        proof {
            assert(self.persons@.take(i as int) =~= self.persons@);
        }
        let mut stays: Vec<Stay> = Vec::new();
        let mut j: usize = 0;
        while j < self.stays.len()
            invariant
                j <= self.stays.len(),
                self@ == old(self)@,
                stays@ == stays_not_of(self.stays@.take(j as int), Subject::Person(pid)),
            decreases self.stays.len() - j,
        {
            proof {
                assert(self.stays@.take(j + 1).drop_last() =~= self.stays@.take(j as int));
            }
            if self.stays[j].subject != Subject::Person(pid) {
                stays.push(self.stays[j]);
            }
            j += 1;
        }
        proof {
            assert(self.stays@.take(j as int) =~= self.stays@);
        }
        self.persons = kept;
        self.stays = stays;
    }

    /// Delete the stays with id `id`.
    pub fn delete_stay(&mut self, id: Id)
        ensures
            final(self)@ == (PlanModel { stays: without_stay(old(self)@.stays, id), ..old(self)@ }),
    {
        let mut stays: Vec<Stay> = Vec::new();
        let mut j: usize = 0;
        while j < self.stays.len()
            invariant
                j <= self.stays.len(),
                self@ == old(self)@,
                stays@ == without_stay(self.stays@.take(j as int), id),
            decreases self.stays.len() - j,
        {
            proof {
                assert(self.stays@.take(j + 1).drop_last() =~= self.stays@.take(j as int));
            }
            if self.stays[j].id != id {
                stays.push(self.stays[j]);
            }
            j += 1;
        }
        proof {
            assert(self.stays@.take(j as int) =~= self.stays@);
        }
        self.stays = stays;
    }

    /// Put the first person with id `pid` in group `group` (or in none).
    pub fn set_person_group(&mut self, pid: Id, group: Option<Id>)
        ensures
            final(self)@ == (PlanModel {
                persons: crate::journal::with_person_group(old(self)@.persons, pid, group),
                ..old(self)@
            }),
    {
        if let Some(k) = person_index(&self.persons, pid) {
            let mut p = self.persons[k].clone();
            p.group = group;
            self.persons.set(k, p);
        }
    }
}

impl Stay {
    /// Keep the departure no earlier than the arrival (an edited departure
    /// before the arrival snaps to it).
    pub fn keep_dates_ordered(&mut self)
        ensures
            final(self).departure == if old(self).departure@ < old(self).arrival@ {
                old(self).arrival
            } else {
                old(self).departure
            },
            final(self).arrival == old(self).arrival,
            final(self).id == old(self).id,
            final(self).subject == old(self).subject,
            final(self).housing == old(self).housing,
    {
        if self.departure.is_before(self.arrival) {
            self.departure = self.arrival;
        }
    }
}

/// `s` with its departure snapped to its arrival where it came earlier.
pub open spec fn dates_ordered(s: Stay) -> Stay {
    if s.departure@ < s.arrival@ {
        Stay { departure: s.arrival, ..s }
    } else {
        s
    }
}

/// `ss` with the dates of the stays whose id is in `ids` put in order, the
/// other stays as they were.
pub open spec fn dates_ordered_for(ss: Seq<Stay>, ids: Seq<Id>) -> Seq<Stay> {
    Seq::new(ss.len(), |k: int| if ids.contains(ss[k].id) { dates_ordered(ss[k]) } else { ss[k] })
}

impl Plan {
    /// After a stay editor has run: keep the dates of the stays it shows (those
    /// with an id in `ids`) in order, an edited departure before the arrival
    /// snapping to it. Every such stay then departs no earlier than it arrives;
    /// every other stay, and the rest of the plan, is left as it was.
    pub fn keep_dates_ordered_for(&mut self, ids: &Vec<Id>)
        ensures
            final(self)@ == (PlanModel { stays: dates_ordered_for(old(self)@.stays, ids@), ..old(self)@ }),
            forall|k: int|
                0 <= k < final(self)@.stays.len() && ids@.contains(#[trigger] final(self)@.stays[k].id)
                    ==> final(self)@.stays[k].arrival@ <= final(self)@.stays[k].departure@,
    {
        let mut i: usize = 0;
        while i < self.stays.len()
            invariant
                i <= self.stays@.len(),
                self.stays@.len() == old(self)@.stays.len(),
                self@ == (PlanModel { stays: self@.stays, ..old(self)@ }),
                forall|k: int| 0 <= k < i ==> self.stays@[k] == dates_ordered_for(old(self)@.stays, ids@)[k],
                forall|k: int| i <= k < self.stays@.len() ==> self.stays@[k] == old(self)@.stays[k],
            decreases self.stays@.len() - i,
        {
            if ids_contain(ids, self.stays[i].id) {
                let mut s = self.stays[i];
                s.keep_dates_ordered();
                self.stays.set(i, s);
            }
            i += 1;
        }
        proof {
            assert(self.stays@ =~= dates_ordered_for(old(self)@.stays, ids@));
        }
    }
}

/// Ensure `sel` points at an existing id: clear it if the target is gone, then
/// default to the first available id.
pub fn ensure_selection(sel: &mut Option<Id>, ids: &[Id])
    ensures
        *final(sel) == if *old(sel) matches Some(id) && ids@.contains(id) {
            *old(sel)
        } else if ids@.len() > 0 {
            Some(ids@[0])
        } else {
            None
        },
{
    if let Some(id) = *sel {
        let mut found = false;
        let mut i: usize = 0;
        while i < ids.len()
            invariant
                i <= ids.len(),
                found == exists|j: int| 0 <= j < i && ids@[j] == id,
            decreases ids.len() - i,
        {
            if ids[i] == id {
                found = true;
            }
            i += 1;
        }
        if !found {
            *sel = None;
        }
    }
    if sel.is_none() {
        *sel = if ids.len() > 0 {
            Some(ids[0])
        } else {
            None
        };
    }
}

/// First person, else first group: the default subject for a new stay.
pub open spec fn first_subject(m: PlanModel) -> Option<Subject> {
    if m.persons.len() > 0 {
        Some(Subject::Person(m.persons[0].id))
    } else if m.groups.len() > 0 {
        Some(Subject::Group(m.groups[0].id))
    } else {
        None
    }
}

/// First person, else first group — used as the default subject for a new stay.
pub fn default_subject(plan: &Plan) -> (r: Option<Subject>)
    ensures
        r == first_subject(plan@),
{
    if plan.persons.len() > 0 {
        Some(Subject::Person(plan.persons[0].id))
    } else if plan.groups.len() > 0 {
        Some(Subject::Group(plan.groups[0].id))
    } else {
        None
    }
}

} // verus!
