//! Change-journal engine: diffing two plan states into journal entries, the
//! in-memory inverse operations that back session undo, and localized rendering
//! of entries for the Changelog tab.
use crate::date::Date;
use crate::model::{
    find_group, find_housing, find_person, find_stay, group_index, group_pos, housing_index, housing_pos,
    lemma_group_pos, lemma_housing_pos, lemma_person_pos, lemma_stay_pos, person_index, person_pos,
    stay_index, stay_pos, Group, Housing, Id, LogKind, LogKindView, Person, Plan, PlanModel, Stay,
    Subject,
};
use crate::i18n::{tr, translation, Lang};
use crate::model::LogEntry;
use crate::seqs::{
    first_index, is_first_match, lemma_contains_push, lemma_contains_split_last, lemma_first_index_is,
    lemma_first_index_none,
};
use vstd::prelude::*;
use vstd::string::StringExecFns;

verus! {

/// How to revert a single change. Carries cloned previous values; not persisted.
pub enum InverseOp {
    InsertHousing { housing: Housing, stays: Vec<Stay> },
    RemoveHousing { id: Id },
    SetHousingName { id: Id, name: String },
    SetHousingCapacity { id: Id, capacity: u32 },
    SetHousingNotes { id: Id, notes: String },
    InsertGroup { group: Group, members: Vec<Id>, stays: Vec<Stay> },
    RemoveGroup { id: Id },
    SetGroupName { id: Id, name: String },
    SetGroupColor { id: Id, color: [u8; 3] },
    InsertPerson { person: Person, stays: Vec<Stay> },
    RemovePerson { id: Id },
    SetPersonName { id: Id, name: String },
    SetPersonGroup { id: Id, group: Option<Id> },
    InsertStay { stay: Stay },
    RemoveStay { id: Id },
    SetStayHousing { id: Id, housing: Id },
    SetStaySubject { id: Id, subject: Subject },
    SetStayDates { id: Id, arrival: Date, departure: Date },
}

/// The mathematical content of an [`InverseOp`]: its lists taken by their views.
pub enum InverseOpView {
    InsertHousing { housing: Housing, stays: Seq<Stay> },
    RemoveHousing { id: Id },
    SetHousingName { id: Id, name: String },
    SetHousingCapacity { id: Id, capacity: u32 },
    SetHousingNotes { id: Id, notes: String },
    InsertGroup { group: Group, members: Seq<Id>, stays: Seq<Stay> },
    RemoveGroup { id: Id },
    SetGroupName { id: Id, name: String },
    SetGroupColor { id: Id, color: [u8; 3] },
    InsertPerson { person: Person, stays: Seq<Stay> },
    RemovePerson { id: Id },
    SetPersonName { id: Id, name: String },
    SetPersonGroup { id: Id, group: Option<Id> },
    InsertStay { stay: Stay },
    RemoveStay { id: Id },
    SetStayHousing { id: Id, housing: Id },
    SetStaySubject { id: Id, subject: Subject },
    SetStayDates { id: Id, arrival: Date, departure: Date },
}

impl View for InverseOp {
    type V = InverseOpView;

    open spec fn view(&self) -> InverseOpView {
        match self {
            InverseOp::InsertHousing { housing, stays } => InverseOpView::InsertHousing {
                housing: *housing,
                stays: stays@,
            },
            InverseOp::RemoveHousing { id } => InverseOpView::RemoveHousing { id: *id },
            InverseOp::SetHousingName { id, name } => InverseOpView::SetHousingName { id: *id, name: *name },
            InverseOp::SetHousingCapacity { id, capacity } => InverseOpView::SetHousingCapacity {
                id: *id,
                capacity: *capacity,
            },
            InverseOp::SetHousingNotes { id, notes } => InverseOpView::SetHousingNotes { id: *id, notes: *notes },
            InverseOp::InsertGroup { group, members, stays } => InverseOpView::InsertGroup {
                group: *group,
                members: members@,
                stays: stays@,
            },
            InverseOp::RemoveGroup { id } => InverseOpView::RemoveGroup { id: *id },
            InverseOp::SetGroupName { id, name } => InverseOpView::SetGroupName { id: *id, name: *name },
            InverseOp::SetGroupColor { id, color } => InverseOpView::SetGroupColor { id: *id, color: *color },
            InverseOp::InsertPerson { person, stays } => InverseOpView::InsertPerson {
                person: *person,
                stays: stays@,
            },
            InverseOp::RemovePerson { id } => InverseOpView::RemovePerson { id: *id },
            InverseOp::SetPersonName { id, name } => InverseOpView::SetPersonName { id: *id, name: *name },
            InverseOp::SetPersonGroup { id, group } => InverseOpView::SetPersonGroup { id: *id, group: *group },
            InverseOp::InsertStay { stay } => InverseOpView::InsertStay { stay: *stay },
            InverseOp::RemoveStay { id } => InverseOpView::RemoveStay { id: *id },
            InverseOp::SetStayHousing { id, housing } => InverseOpView::SetStayHousing {
                id: *id,
                housing: *housing,
            },
            InverseOp::SetStaySubject { id, subject } => InverseOpView::SetStaySubject {
                id: *id,
                subject: *subject,
            },
            InverseOp::SetStayDates { id, arrival, departure } => InverseOpView::SetStayDates {
                id: *id,
                arrival: *arrival,
                departure: *departure,
            },
        }
    }
}

/// One detected change: the persisted [`LogKind`] (for the journal + display)
/// plus the in-memory [`InverseOp`] that reverts it (session undo only).
pub struct Change {
    pub kind: LogKind,
    pub inverse: InverseOp,
}

/// The mathematical content of a [`Change`].
pub struct ChangeView {
    pub kind: LogKindView,
    pub inverse: InverseOpView,
}

impl View for Change {
    type V = ChangeView;

    open spec fn view(&self) -> ChangeView {
        ChangeView { kind: self.kind@, inverse: self.inverse@ }
    }
}

/// The views of a list of changes.
pub open spec fn change_views(cs: Seq<Change>) -> Seq<ChangeView> {
    cs.map_values(|c: Change| c@)
}

// --- What reverting does to a plan ---

/// `hs` without the housings with id `id`, in order.
pub open spec fn without_housing(hs: Seq<Housing>, id: Id) -> Seq<Housing>
    decreases hs.len(),
{
    if hs.len() == 0 {
        hs
    } else {
        let rest = without_housing(hs.drop_last(), id);
        if hs.last().id != id {
            rest.push(hs.last())
        } else {
            rest
        }
    }
}

/// `gs` without the groups with id `id`, in order.
pub open spec fn without_group(gs: Seq<Group>, id: Id) -> Seq<Group>
    decreases gs.len(),
{
    if gs.len() == 0 {
        gs
    } else {
        let rest = without_group(gs.drop_last(), id);
        if gs.last().id != id {
            rest.push(gs.last())
        } else {
            rest
        }
    }
}

/// `ps` without the persons with id `id`, in order.
pub open spec fn without_person(ps: Seq<Person>, id: Id) -> Seq<Person>
    decreases ps.len(),
{
    if ps.len() == 0 {
        ps
    } else {
        let rest = without_person(ps.drop_last(), id);
        if ps.last().id != id {
            rest.push(ps.last())
        } else {
            rest
        }
    }
}

/// `ss` without the stays with id `id`, in order.
pub open spec fn without_stay(ss: Seq<Stay>, id: Id) -> Seq<Stay>
    decreases ss.len(),
{
    if ss.len() == 0 {
        ss
    } else {
        let rest = without_stay(ss.drop_last(), id);
        if ss.last().id != id {
            rest.push(ss.last())
        } else {
            rest
        }
    }
}

/// `ps` with the first person whose id is `id` moved to group `group`.
pub open spec fn with_person_group(ps: Seq<Person>, id: Id, group: Option<Id>) -> Seq<Person> {
    let k = person_pos(ps, id);
    if k >= 0 {
        ps.update(k, Person { group, ..ps[k] })
    } else {
        ps
    }
}

/// `ps` with each listed member, in turn, moved to group `gid`.
pub open spec fn with_members(ps: Seq<Person>, members: Seq<Id>, gid: Id) -> Seq<Person>
    decreases members.len(),
{
    if members.len() == 0 {
        ps
    } else {
        with_person_group(with_members(ps, members.drop_last(), gid), members.last(), Some(gid))
    }
}

/// The plan `m` after applying the inverse operation `op`.
pub open spec fn after_inverse(m: PlanModel, op: InverseOpView) -> PlanModel {
    match op {
        InverseOpView::InsertHousing { housing, stays } => PlanModel {
            housings: m.housings.push(housing),
            stays: m.stays + stays,
            ..m
        },
        InverseOpView::RemoveHousing { id } => PlanModel { housings: without_housing(m.housings, id), ..m },
        InverseOpView::SetHousingName { id, name } => {
            let k = housing_pos(m.housings, id);
            if k >= 0 {
                PlanModel { housings: m.housings.update(k, Housing { name, ..m.housings[k] }), ..m }
            } else {
                m
            }
        },
        InverseOpView::SetHousingCapacity { id, capacity } => {
            let k = housing_pos(m.housings, id);
            if k >= 0 {
                PlanModel { housings: m.housings.update(k, Housing { capacity, ..m.housings[k] }), ..m }
            } else {
                m
            }
        },
        InverseOpView::SetHousingNotes { id, notes } => {
            let k = housing_pos(m.housings, id);
            if k >= 0 {
                PlanModel { housings: m.housings.update(k, Housing { notes, ..m.housings[k] }), ..m }
            } else {
                m
            }
        },
        InverseOpView::InsertGroup { group, members, stays } => PlanModel {
            groups: m.groups.push(group),
            persons: with_members(m.persons, members, group.id),
            stays: m.stays + stays,
            ..m
        },
        InverseOpView::RemoveGroup { id } => PlanModel { groups: without_group(m.groups, id), ..m },
        InverseOpView::SetGroupName { id, name } => {
            let k = group_pos(m.groups, id);
            if k >= 0 {
                PlanModel { groups: m.groups.update(k, Group { name, ..m.groups[k] }), ..m }
            } else {
                m
            }
        },
        InverseOpView::SetGroupColor { id, color } => {
            let k = group_pos(m.groups, id);
            if k >= 0 {
                PlanModel { groups: m.groups.update(k, Group { color, ..m.groups[k] }), ..m }
            } else {
                m
            }
        },
        InverseOpView::InsertPerson { person, stays } => PlanModel {
            persons: m.persons.push(person),
            stays: m.stays + stays,
            ..m
        },
        InverseOpView::RemovePerson { id } => PlanModel { persons: without_person(m.persons, id), ..m },
        InverseOpView::SetPersonName { id, name } => {
            let k = person_pos(m.persons, id);
            if k >= 0 {
                PlanModel { persons: m.persons.update(k, Person { name, ..m.persons[k] }), ..m }
            } else {
                m
            }
        },
        InverseOpView::SetPersonGroup { id, group } => PlanModel {
            persons: with_person_group(m.persons, id, group),
            ..m
        },
        InverseOpView::InsertStay { stay } => PlanModel { stays: m.stays.push(stay), ..m },
        InverseOpView::RemoveStay { id } => PlanModel { stays: without_stay(m.stays, id), ..m },
        InverseOpView::SetStayHousing { id, housing } => {
            let k = stay_pos(m.stays, id);
            if k >= 0 {
                PlanModel { stays: m.stays.update(k, Stay { housing, ..m.stays[k] }), ..m }
            } else {
                m
            }
        },
        InverseOpView::SetStaySubject { id, subject } => {
            let k = stay_pos(m.stays, id);
            if k >= 0 {
                PlanModel { stays: m.stays.update(k, Stay { subject, ..m.stays[k] }), ..m }
            } else {
                m
            }
        },
        InverseOpView::SetStayDates { id, arrival, departure } => {
            let k = stay_pos(m.stays, id);
            if k >= 0 {
                PlanModel { stays: m.stays.update(k, Stay { arrival, departure, ..m.stays[k] }), ..m }
            } else {
                m
            }
        },
    }
}

/// Drop every housing with id `id`, keeping the others in order.
fn remove_housings(v: &mut Vec<Housing>, id: Id)
    ensures
        final(v)@ == without_housing(old(v)@, id),
{
    let mut kept: Vec<Housing> = Vec::new();
    let mut i: usize = 0;
    while i < v.len()
        invariant
            i <= v.len(),
            v@ == old(v)@,
            kept@ == without_housing(v@.take(i as int), id),
        decreases v.len() - i,
    {
        proof {
            assert(v@.take(i + 1).drop_last() =~= v@.take(i as int));
        }
        if v[i].id != id {
            kept.push(v[i].clone());
        }
        i += 1;
    }
    proof {
        assert(v@.take(i as int) =~= v@);
    }
    *v = kept;
}

/// Drop every group with id `id`, keeping the others in order.
fn remove_groups(v: &mut Vec<Group>, id: Id)
    ensures
        final(v)@ == without_group(old(v)@, id),
{
    let mut kept: Vec<Group> = Vec::new();
    let mut i: usize = 0;
    while i < v.len()
        invariant
            i <= v.len(),
            v@ == old(v)@,
            kept@ == without_group(v@.take(i as int), id),
        decreases v.len() - i,
    {
        proof {
            assert(v@.take(i + 1).drop_last() =~= v@.take(i as int));
        }
        if v[i].id != id {
            kept.push(v[i].clone());
        }
        i += 1;
    }
    proof {
        assert(v@.take(i as int) =~= v@);
    }
    *v = kept;
}

/// Drop every person with id `id`, keeping the others in order.
fn remove_persons(v: &mut Vec<Person>, id: Id)
    ensures
        final(v)@ == without_person(old(v)@, id),
{
    let mut kept: Vec<Person> = Vec::new();
    let mut i: usize = 0;
    while i < v.len()
        invariant
            i <= v.len(),
            v@ == old(v)@,
            kept@ == without_person(v@.take(i as int), id),
        decreases v.len() - i,
    {
        proof {
            assert(v@.take(i + 1).drop_last() =~= v@.take(i as int));
        }
        if v[i].id != id {
            kept.push(v[i].clone());
        }
        i += 1;
    }
    proof {
        assert(v@.take(i as int) =~= v@);
    }
    *v = kept;
}

/// Drop every stay with id `id`, keeping the others in order.
fn remove_stays(v: &mut Vec<Stay>, id: Id)
    ensures
        final(v)@ == without_stay(old(v)@, id),
{
    let mut kept: Vec<Stay> = Vec::new();
    let mut i: usize = 0;
    while i < v.len()
        invariant
            i <= v.len(),
            v@ == old(v)@,
            kept@ == without_stay(v@.take(i as int), id),
        decreases v.len() - i,
    {
        proof {
            assert(v@.take(i + 1).drop_last() =~= v@.take(i as int));
        }
        if v[i].id != id {
            kept.push(v[i].clone());
        }
        i += 1;
    }
    proof {
        assert(v@.take(i as int) =~= v@);
    }
    *v = kept;
}

/// Append a copy of every stay of `extra` to `v`.
fn append_stays(v: &mut Vec<Stay>, extra: &Vec<Stay>)
    ensures
        final(v)@ == old(v)@ + extra@,
{
    let mut i: usize = 0;
    while i < extra.len()
        invariant
            i <= extra.len(),
            v@ == old(v)@ + extra@.take(i as int),
        decreases extra.len() - i,
    {
        v.push(extra[i]);
        proof {
            assert(old(v)@ + extra@.take(i + 1) =~= (old(v)@ + extra@.take(i as int)).push(extra@[i as int]));
        }
        i += 1;
    }
    proof {
        assert(extra@.take(i as int) =~= extra@);
    }
}

/// Move the first person with id `id` to group `group`.
fn set_person_group(v: &mut Vec<Person>, id: Id, group: Option<Id>)
    ensures
        final(v)@ == with_person_group(old(v)@, id, group),
{
    if let Some(k) = person_index(v, id) {
        let mut p = v[k].clone();
        p.group = group;
        v.set(k, p);
    }
}

/// Apply an inverse operation to `plan` (used by undo).
pub fn apply_inverse(plan: &mut Plan, op: &InverseOp)
    ensures
        final(plan)@ == after_inverse(old(plan)@, op@),
{
    match op {
        InverseOp::InsertHousing { housing, stays } => {
            plan.housings.push(housing.clone());
            append_stays(&mut plan.stays, stays);
        },
        InverseOp::RemoveHousing { id } => remove_housings(&mut plan.housings, *id),
        InverseOp::SetHousingName { id, name } => {
            if let Some(k) = housing_index(&plan.housings, *id) {
                let mut h = plan.housings[k].clone();
                h.name = name.clone();
                plan.housings.set(k, h);
            }
        },
        InverseOp::SetHousingCapacity { id, capacity } => {
            if let Some(k) = housing_index(&plan.housings, *id) {
                let mut h = plan.housings[k].clone();
                h.capacity = *capacity;
                plan.housings.set(k, h);
            }
        },
        InverseOp::SetHousingNotes { id, notes } => {
            if let Some(k) = housing_index(&plan.housings, *id) {
                let mut h = plan.housings[k].clone();
                h.notes = notes.clone();
                plan.housings.set(k, h);
            }
        },
        InverseOp::InsertGroup { group, members, stays } => {
            plan.groups.push(group.clone());
            let mut i: usize = 0;
            while i < members.len()
                invariant
                    i <= members.len(),
                    plan@ == (PlanModel {
                        groups: old(plan)@.groups.push(*group),
                        persons: with_members(old(plan)@.persons, members@.take(i as int), group.id),
                        ..old(plan)@
                    }),
                decreases members.len() - i,
            {
                proof {
                    assert(members@.take(i + 1).drop_last() =~= members@.take(i as int));
                }
                set_person_group(&mut plan.persons, members[i], Some(group.id));
                i += 1;
            }
            proof {
                assert(members@.take(i as int) =~= members@);
            }
            append_stays(&mut plan.stays, stays);
        },
        InverseOp::RemoveGroup { id } => remove_groups(&mut plan.groups, *id),
        InverseOp::SetGroupName { id, name } => {
            if let Some(k) = group_index(&plan.groups, *id) {
                let mut g = plan.groups[k].clone();
                g.name = name.clone();
                plan.groups.set(k, g);
            }
        },
        InverseOp::SetGroupColor { id, color } => {
            if let Some(k) = group_index(&plan.groups, *id) {
                let mut g = plan.groups[k].clone();
                g.color = *color;
                plan.groups.set(k, g);
            }
        },
        InverseOp::InsertPerson { person, stays } => {
            plan.persons.push(person.clone());
            append_stays(&mut plan.stays, stays);
        },
        InverseOp::RemovePerson { id } => remove_persons(&mut plan.persons, *id),
        InverseOp::SetPersonName { id, name } => {
            if let Some(k) = person_index(&plan.persons, *id) {
                let mut p = plan.persons[k].clone();
                p.name = name.clone();
                plan.persons.set(k, p);
            }
        },
        InverseOp::SetPersonGroup { id, group } => set_person_group(&mut plan.persons, *id, *group),
        InverseOp::InsertStay { stay } => plan.stays.push(*stay),
        InverseOp::RemoveStay { id } => remove_stays(&mut plan.stays, *id),
        InverseOp::SetStayHousing { id, housing } => {
            if let Some(k) = stay_index(&plan.stays, *id) {
                let mut s = plan.stays[k];
                s.housing = *housing;
                plan.stays.set(k, s);
            }
        },
        InverseOp::SetStaySubject { id, subject } => {
            if let Some(k) = stay_index(&plan.stays, *id) {
                let mut s = plan.stays[k];
                s.subject = *subject;
                plan.stays.set(k, s);
            }
        },
        InverseOp::SetStayDates { id, arrival, departure } => {
            if let Some(k) = stay_index(&plan.stays, *id) {
                let mut s = plan.stays[k];
                s.arrival = *arrival;
                s.departure = *departure;
                plan.stays.set(k, s);
            }
        },
    }
}


// --- Rendering entries ---

/// The character of the decimal digit `d`.
pub open spec fn digit_char(d: nat) -> char {
    (48 + d) as char
}

/// The decimal digits of `n`, most significant first, without sign or padding.
pub open spec fn decimal_text(n: nat) -> Seq<char>
    decreases n,
{
    if n < 10 {
        seq![digit_char(n)]
    } else {
        decimal_text(n / 10) + seq![digit_char(n % 10)]
    }
}

/// A group name as shown in a description, with the localized "(no group)" for none.
pub open spec fn group_text(name: Seq<char>, lang: Lang) -> Seq<char> {
    if name.len() == 0 {
        translation(lang, "(no group)"@)
    } else {
        name
    }
}

/// The text of the decimal digit `d`.
fn digit_str(d: u64) -> (r: &'static str)
    requires
        d < 10,
    ensures
        r@ == seq![digit_char(d as nat)],
{
    proof {
        reveal_strlit("0");
        reveal_strlit("1");
        reveal_strlit("2");
        reveal_strlit("3");
        reveal_strlit("4");
        reveal_strlit("5");
        reveal_strlit("6");
        reveal_strlit("7");
        reveal_strlit("8");
        reveal_strlit("9");
    }
    if d == 0 {
        "0"
    } else if d == 1 {
        "1"
    } else if d == 2 {
        "2"
    } else if d == 3 {
        "3"
    } else if d == 4 {
        "4"
    } else if d == 5 {
        "5"
    } else if d == 6 {
        "6"
    } else if d == 7 {
        "7"
    } else if d == 8 {
        "8"
    } else {
        "9"
    }
}

/// `n` in decimal, the way `Display` writes an unsigned integer.
pub fn decimal(n: u64) -> (r: String)
    ensures
        r@ == decimal_text(n as nat),
    decreases n,
{
    if n < 10 {
        String::from_str(digit_str(n))
    } else {
        let mut s = decimal(n / 10);
        s.append(digit_str(n % 10));
        s
    }
}

/// A group name as shown in a description, with the localized "(no group)" for none.
fn group_or_none(name: &String, lang: Lang) -> (r: String)
    ensures
        r@ == group_text(name@, lang),
{
    if name.as_str().is_empty() {
        String::from_str(tr(lang, "(no group)"))
    } else {
        name.clone()
    }
}

/// Matches the journal entry with id `id`.
pub open spec fn entry_has_id(id: u64) -> spec_fn(LogEntry) -> bool {
    |e: LogEntry| e.id == id
}

/// The position of the first journal entry with id `id`, or -1.
pub open spec fn entry_pos(log: Seq<LogEntry>, id: u64) -> int {
    first_index(log, entry_has_id(id))
}

/// The position of the first journal entry with id `id`.
fn entry_index(log: &[LogEntry], id: u64) -> (r: Option<usize>)
    ensures
        match r {
            Some(i) => entry_pos(log@, id) == i as int && i < log@.len(),
            None => entry_pos(log@, id) == -1,
        },
{
    let mut i: usize = 0;
    while i < log.len()
        invariant
            i <= log.len(),
            forall|j: int| 0 <= j < i ==> (#[trigger] log@[j]).id != id,
        decreases log.len() - i,
    {
        if log[i].id == id {
            proof {
                assert(is_first_match(log@, entry_has_id(id), i as int));
                lemma_first_index_is(log@, entry_has_id(id), i as int);
            }
            return Some(i);
        }
        i += 1;
    }
    proof { lemma_first_index_none(log@, entry_has_id(id)); }
    None
}

/// The localized description of a journal entry of kind `k`; `log` is the full
/// changelog, so an `Undo` can describe the change it reverted when that change
/// is in the log and is not itself an `Undo`.
pub open spec fn describe_text(k: LogKindView, log: Seq<LogEntry>, lang: Lang) -> Seq<char> {
    match k {
        LogKindView::Undo { undoes } => {
            let i = entry_pos(log, undoes);
            if i >= 0 && !(log[i].kind@ is Undo) {
                translation(lang, "Undid"@) + ": "@ + kind_text(log[i].kind@, lang)
            } else {
                kind_text(k, lang)
            }
        },
        _ => kind_text(k, lang),
    }
}

/// Render a localized, human-readable description of a journal entry. `log` is
/// the full changelog (so an `Undo` entry can describe what it reverted).
pub fn describe(entry: &LogEntry, log: &[LogEntry], lang: Lang) -> (r: String)
    ensures
        r@ == describe_text(entry.kind@, log@, lang),
{
    if let LogKind::Undo { undoes } = &entry.kind {
        if let Some(i) = entry_index(log, *undoes) {
            let target = &log[i];
            let is_undo = match &target.kind {
                LogKind::Undo { .. } => true,
                _ => false,
            };
            if !is_undo {
                let mut s = String::from_str(tr(lang, "Undid"));
                s.append(": ");
                let t = describe_kind(&target.kind, lang);
                s.append(t.as_str());
                return s;
            }
        }
    }
    describe_kind(&entry.kind, lang)
}

/// The localized description of a journal entry of kind `k`, on its own (an
/// `Undo` names only the id of the change it reverted).
pub open spec fn kind_text(k: LogKindView, lang: Lang) -> Seq<char> {
    match k {
        LogKindView::AddHousing { name } => translation(lang, "Created housing"@) + ": "@ + name,
        LogKindView::DeleteHousing { name } => translation(lang, "Deleted housing"@) + ": "@ + name,
        LogKindView::RenameHousing { from, to } => translation(lang, "Renamed housing"@) + ": "@ + from + " → "@ + to,
        LogKindView::SetCapacity { name, from, to } => translation(lang, "Changed capacity of"@) + " "@ + name + ": "@ + decimal_text(from as nat) + " → "@ + decimal_text(to as nat),
        LogKindView::EditNotes { name } => translation(lang, "Edited notes of"@) + " "@ + name,
        LogKindView::AddGroup { name } => translation(lang, "Created group"@) + ": "@ + name,
        LogKindView::DeleteGroup { name } => translation(lang, "Deleted group"@) + ": "@ + name,
        LogKindView::RenameGroup { from, to } => translation(lang, "Renamed group"@) + ": "@ + from + " → "@ + to,
        LogKindView::SetGroupColor { name } => translation(lang, "Changed colour of"@) + " "@ + name,
        LogKindView::AddPerson { name } => translation(lang, "Added person"@) + ": "@ + name,
        LogKindView::DeletePerson { name } => translation(lang, "Deleted person"@) + ": "@ + name,
        LogKindView::RenamePerson { from, to } => translation(lang, "Renamed person"@) + ": "@ + from + " → "@ + to,
        LogKindView::SetPersonGroup { person, from, to } => translation(lang, "Changed group of"@) + " "@ + person + ": "@ + group_text(from, lang) + " → "@ + group_text(to, lang),
        LogKindView::AddStay { subject, housing } => translation(lang, "Added stay"@) + ": "@ + subject + " → "@ + housing,
        LogKindView::RemoveStay { subject, housing } => translation(lang, "Removed stay"@) + ": "@ + subject + " → "@ + housing,
        LogKindView::MoveStay { subject, from, to } => translation(lang, "Moved stay"@) + ": "@ + subject + " ("@ + from + " → "@ + to + ")"@,
        LogKindView::ChangeStaySubject { from, to, housing } => translation(lang, "Changed occupant of stay"@) + " ("@ + housing + "): "@ + from + " → "@ + to,
        LogKindView::ChangeStayDates { subject, housing, from, to } => translation(lang, "Changed dates of stay"@) + ": "@ + subject + " ("@ + housing + ") "@ + from + " → "@ + to,
        LogKindView::LoadedExample => translation(lang, "Loaded example data"@),
        LogKindView::LoadedFile { name } => translation(lang, "Loaded plan from file"@) + ": "@ + name,
        LogKindView::LoadedFileNoHistory { name } => translation(lang, "Loaded a plan with no change history"@) + ": "@ + name,
        LogKindView::Undo { undoes } => translation(lang, "Undid"@) + " #"@ + decimal_text(undoes as nat),
    }
}

/// Describe a journal entry of kind `kind` on its own.
fn describe_kind(kind: &LogKind, lang: Lang) -> (r: String)
    ensures
        r@ == kind_text(kind@, lang),
{
    match kind {
        LogKind::AddHousing { name } => {
            let mut s = String::from_str(tr(lang, "Created housing"));
            s.append(": ");
            s.append(name.as_str());
            s
        },
        LogKind::DeleteHousing { name } => {
            let mut s = String::from_str(tr(lang, "Deleted housing"));
            s.append(": ");
            s.append(name.as_str());
            s
        },
        LogKind::RenameHousing { from, to } => {
            let mut s = String::from_str(tr(lang, "Renamed housing"));
            s.append(": ");
            s.append(from.as_str());
            s.append(" → ");
            s.append(to.as_str());
            s
        },
        LogKind::SetCapacity { name, from, to } => {
            let mut s = String::from_str(tr(lang, "Changed capacity of"));
            s.append(" ");
            s.append(name.as_str());
            s.append(": ");
            let t = decimal(*from as u64);
            s.append(t.as_str());
            s.append(" → ");
            let t = decimal(*to as u64);
            s.append(t.as_str());
            s
        },
        LogKind::EditNotes { name } => {
            let mut s = String::from_str(tr(lang, "Edited notes of"));
            s.append(" ");
            s.append(name.as_str());
            s
        },
        LogKind::AddGroup { name } => {
            let mut s = String::from_str(tr(lang, "Created group"));
            s.append(": ");
            s.append(name.as_str());
            s
        },
        LogKind::DeleteGroup { name } => {
            let mut s = String::from_str(tr(lang, "Deleted group"));
            s.append(": ");
            s.append(name.as_str());
            s
        },
        LogKind::RenameGroup { from, to } => {
            let mut s = String::from_str(tr(lang, "Renamed group"));
            s.append(": ");
            s.append(from.as_str());
            s.append(" → ");
            s.append(to.as_str());
            s
        },
        LogKind::SetGroupColor { name } => {
            let mut s = String::from_str(tr(lang, "Changed colour of"));
            s.append(" ");
            s.append(name.as_str());
            s
        },
        LogKind::AddPerson { name } => {
            let mut s = String::from_str(tr(lang, "Added person"));
            s.append(": ");
            s.append(name.as_str());
            s
        },
        LogKind::DeletePerson { name } => {
            let mut s = String::from_str(tr(lang, "Deleted person"));
            s.append(": ");
            s.append(name.as_str());
            s
        },
        LogKind::RenamePerson { from, to } => {
            let mut s = String::from_str(tr(lang, "Renamed person"));
            s.append(": ");
            s.append(from.as_str());
            s.append(" → ");
            s.append(to.as_str());
            s
        },
        LogKind::SetPersonGroup { person, from, to } => {
            let mut s = String::from_str(tr(lang, "Changed group of"));
            s.append(" ");
            s.append(person.as_str());
            s.append(": ");
            let t = group_or_none(from, lang);
            s.append(t.as_str());
            s.append(" → ");
            let t = group_or_none(to, lang);
            s.append(t.as_str());
            s
        },
        LogKind::AddStay { subject, housing } => {
            let mut s = String::from_str(tr(lang, "Added stay"));
            s.append(": ");
            s.append(subject.as_str());
            s.append(" → ");
            s.append(housing.as_str());
            s
        },
        LogKind::RemoveStay { subject, housing } => {
            let mut s = String::from_str(tr(lang, "Removed stay"));
            s.append(": ");
            s.append(subject.as_str());
            s.append(" → ");
            s.append(housing.as_str());
            s
        },
        LogKind::MoveStay { subject, from, to } => {
            let mut s = String::from_str(tr(lang, "Moved stay"));
            s.append(": ");
            s.append(subject.as_str());
            s.append(" (");
            s.append(from.as_str());
            s.append(" → ");
            s.append(to.as_str());
            s.append(")");
            s
        },
        LogKind::ChangeStaySubject { from, to, housing } => {
            let mut s = String::from_str(tr(lang, "Changed occupant of stay"));
            s.append(" (");
            s.append(housing.as_str());
            s.append("): ");
            s.append(from.as_str());
            s.append(" → ");
            s.append(to.as_str());
            s
        },
        LogKind::ChangeStayDates { subject, housing, from, to } => {
            let mut s = String::from_str(tr(lang, "Changed dates of stay"));
            s.append(": ");
            s.append(subject.as_str());
            s.append(" (");
            s.append(housing.as_str());
            s.append(") ");
            s.append(from.as_str());
            s.append(" → ");
            s.append(to.as_str());
            s
        },
        LogKind::LoadedExample => {
            let mut s = String::from_str(tr(lang, "Loaded example data"));
            s
        },
        LogKind::LoadedFile { name } => {
            let mut s = String::from_str(tr(lang, "Loaded plan from file"));
            s.append(": ");
            s.append(name.as_str());
            s
        },
        LogKind::LoadedFileNoHistory { name } => {
            let mut s = String::from_str(tr(lang, "Loaded a plan with no change history"));
            s.append(": ");
            s.append(name.as_str());
            s
        },
        LogKind::Undo { undoes } => {
            let mut s = String::from_str(tr(lang, "Undid"));
            s.append(" #");
            let t = decimal(*undoes as u64);
            s.append(t.as_str());
            s
        },
    }
}


// --- What a diff reports ---

/// The stays of `ss` in housing `hid`, in order.
pub open spec fn stays_in_housing(ss: Seq<Stay>, hid: Id) -> Seq<Stay>
    decreases ss.len(),
{
    if ss.len() == 0 {
        ss
    } else {
        let rest = stays_in_housing(ss.drop_last(), hid);
        if ss.last().housing == hid {
            rest.push(ss.last())
        } else {
            rest
        }
    }
}

/// The stays of `ss` booked for `subject`, in order.
pub open spec fn stays_of(ss: Seq<Stay>, subject: Subject) -> Seq<Stay>
    decreases ss.len(),
{
    if ss.len() == 0 {
        ss
    } else {
        let rest = stays_of(ss.drop_last(), subject);
        if ss.last().subject == subject {
            rest.push(ss.last())
        } else {
            rest
        }
    }
}

/// The changes `f` reports for each element of `s`, concatenated in order.
pub open spec fn flat_map<A>(s: Seq<A>, f: spec_fn(A) -> Seq<ChangeView>) -> Seq<ChangeView>
    decreases s.len(),
{
    if s.len() == 0 {
        Seq::empty()
    } else {
        flat_map(s.drop_last(), f) + f(s.last())
    }
}

/// A one-element list of changes.
pub open spec fn one(kind: LogKindView, inverse: InverseOpView) -> Seq<ChangeView> {
    seq![ChangeView { kind, inverse }]
}

/// `one(kind, inverse)` when `cond` holds, else nothing.
pub open spec fn one_if(cond: bool, kind: LogKindView, inverse: InverseOpView) -> Seq<ChangeView> {
    if cond {
        one(kind, inverse)
    } else {
        Seq::empty()
    }
}

/// A housing with id `id` was in `old` and is not in `new`.
pub open spec fn housing_removed(old: PlanModel, new: PlanModel, id: Id) -> bool {
    housing_pos(old.housings, id) != -1 && housing_pos(new.housings, id) == -1
}

/// A group with id `id` was in `old` and is not in `new`.
pub open spec fn group_removed(old: PlanModel, new: PlanModel, id: Id) -> bool {
    group_pos(old.groups, id) != -1 && group_pos(new.groups, id) == -1
}

/// A person with id `id` was in `old` and is not in `new`.
pub open spec fn person_removed(old: PlanModel, new: PlanModel, id: Id) -> bool {
    person_pos(old.persons, id) != -1 && person_pos(new.persons, id) == -1
}

/// A stay whose housing, group or person was removed: its removal is part of
/// that entity's deletion and is not reported on its own.
pub open spec fn stay_cascades(old: PlanModel, new: PlanModel, s: Stay) -> bool {
    ||| housing_removed(old, new, s.housing)
    ||| (s.subject matches Subject::Group(g) && group_removed(old, new, g))
    ||| (s.subject matches Subject::Person(p) && person_removed(old, new, p))
}

/// The ids of the stays of `old` whose removal is folded into an entity's deletion.
pub open spec fn cascaded_ids(old: PlanModel, new: PlanModel) -> Set<Id> {
    Set::new(
        |sid: Id|
            exists|k: int|
                0 <= k < old.stays.len() && (#[trigger] old.stays[k]).id == sid && stay_cascades(old, new, old.stays[k]),
    )
}

/// A person detached from its group because that group was removed.
pub open spec fn detached(old: PlanModel, new: PlanModel, pid: Id) -> bool {
    exists|j: int|
        0 <= j < old.groups.len() && group_removed(old, new, (#[trigger] old.groups[j]).id)
            && crate::model::member_ids(old.persons, old.groups[j].id).contains(pid)
}

/// The name of housing `id` in `m`, or "?".
pub open spec fn housing_name_text(m: PlanModel, id: Id) -> Seq<char> {
    match find_housing(m.housings, id) {
        Some(h) => h.name@,
        None => "?"@,
    }
}

/// The name of a subject's person or group in `m`, or "?".
pub open spec fn subject_name_text(m: PlanModel, s: Subject) -> Seq<char> {
    match s {
        Subject::Person(id) => match find_person(m.persons, id) {
            Some(p) => p.name@,
            None => "?"@,
        },
        Subject::Group(id) => match find_group(m.groups, id) {
            Some(g) => g.name@,
            None => "?"@,
        },
    }
}

/// A group's name in `m` ("?" if it is gone), or the empty text for no group.
pub open spec fn group_label_text(m: PlanModel, g: Option<Id>) -> Seq<char> {
    match g {
        None => Seq::empty(),
        Some(id) => match find_group(m.groups, id) {
            Some(x) => x.name@,
            None => "?"@,
        },
    }
}

/// A stay's date range as text, `arrival – departure`.
pub open spec fn range_text(arrival: Date, departure: Date) -> Seq<char> {
    crate::date::iso_date_text(arrival@) + " – "@ + crate::date::iso_date_text(departure@)
}

/// For each housing of `old`: its deletion, when `new` no longer has it.
pub open spec fn housing_deletions(old: PlanModel, new: PlanModel) -> spec_fn(Housing) -> Seq<ChangeView> {
    |h: Housing|
        one_if(
            housing_pos(new.housings, h.id) == -1,
            LogKindView::DeleteHousing { name: h.name@ },
            InverseOpView::InsertHousing { housing: h, stays: stays_in_housing(old.stays, h.id) },
        )
}

/// For each housing of `new`: its addition, or its edits against `old`.
pub open spec fn housing_edits(old: PlanModel, new: PlanModel) -> spec_fn(Housing) -> Seq<ChangeView> {
    |h: Housing|
        match find_housing(old.housings, h.id) {
            None => one(LogKindView::AddHousing { name: h.name@ }, InverseOpView::RemoveHousing { id: h.id }),
            Some(o) => one_if(
                o.name@ != h.name@,
                LogKindView::RenameHousing { from: o.name@, to: h.name@ },
                InverseOpView::SetHousingName { id: h.id, name: o.name },
            ) + one_if(
                o.capacity != h.capacity,
                LogKindView::SetCapacity { name: h.name@, from: o.capacity, to: h.capacity },
                InverseOpView::SetHousingCapacity { id: h.id, capacity: o.capacity },
            ) + one_if(
                o.notes@ != h.notes@,
                LogKindView::EditNotes { name: h.name@ },
                InverseOpView::SetHousingNotes { id: h.id, notes: o.notes },
            ),
        }
}

/// For each group of `old`: its deletion (with its members and stays), when `new` no longer has it.
pub open spec fn group_deletions(old: PlanModel, new: PlanModel) -> spec_fn(Group) -> Seq<ChangeView> {
    |g: Group|
        one_if(
            group_pos(new.groups, g.id) == -1,
            LogKindView::DeleteGroup { name: g.name@ },
            InverseOpView::InsertGroup {
                group: g,
                members: crate::model::member_ids(old.persons, g.id),
                stays: stays_of(old.stays, Subject::Group(g.id)),
            },
        )
}

/// For each group of `new`: its addition, or its edits against `old`.
pub open spec fn group_edits(old: PlanModel, new: PlanModel) -> spec_fn(Group) -> Seq<ChangeView> {
    |g: Group|
        match find_group(old.groups, g.id) {
            None => one(LogKindView::AddGroup { name: g.name@ }, InverseOpView::RemoveGroup { id: g.id }),
            Some(o) => one_if(
                o.name@ != g.name@,
                LogKindView::RenameGroup { from: o.name@, to: g.name@ },
                InverseOpView::SetGroupName { id: g.id, name: o.name },
            ) + one_if(
                o.color@ != g.color@,
                LogKindView::SetGroupColor { name: g.name@ },
                InverseOpView::SetGroupColor { id: g.id, color: o.color },
            ),
        }
}

/// For each person of `old`: its deletion (with its stays), when `new` no longer has it.
pub open spec fn person_deletions(old: PlanModel, new: PlanModel) -> spec_fn(Person) -> Seq<ChangeView> {
    |p: Person|
        one_if(
            person_pos(new.persons, p.id) == -1,
            LogKindView::DeletePerson { name: p.name@ },
            InverseOpView::InsertPerson { person: p, stays: stays_of(old.stays, Subject::Person(p.id)) },
        )
}

/// For each person of `new`: its addition, or its edits against `old` (a move
/// out of a removed group is part of that group's deletion).
pub open spec fn person_edits(old: PlanModel, new: PlanModel) -> spec_fn(Person) -> Seq<ChangeView> {
    |p: Person|
        match find_person(old.persons, p.id) {
            None => one(LogKindView::AddPerson { name: p.name@ }, InverseOpView::RemovePerson { id: p.id }),
            Some(o) => one_if(
                o.name@ != p.name@,
                LogKindView::RenamePerson { from: o.name@, to: p.name@ },
                InverseOpView::SetPersonName { id: p.id, name: o.name },
            ) + one_if(
                o.group != p.group && !detached(old, new, p.id),
                LogKindView::SetPersonGroup {
                    person: p.name@,
                    from: group_label_text(old, o.group),
                    to: group_label_text(new, p.group),
                },
                InverseOpView::SetPersonGroup { id: p.id, group: o.group },
            ),
        }
}

/// For each stay of `old` not folded into a deletion: its removal, when `new` no longer has it.
pub open spec fn stay_removals(old: PlanModel, new: PlanModel) -> spec_fn(Stay) -> Seq<ChangeView> {
    |s: Stay|
        one_if(
            !cascaded_ids(old, new).contains(s.id) && stay_pos(new.stays, s.id) == -1,
            LogKindView::RemoveStay {
                subject: subject_name_text(old, s.subject),
                housing: housing_name_text(old, s.housing),
            },
            InverseOpView::InsertStay { stay: s },
        )
}

/// For each stay of `new` not folded into a deletion: its addition, or its edits against `old`.
pub open spec fn stay_edits(old: PlanModel, new: PlanModel) -> spec_fn(Stay) -> Seq<ChangeView> {
    |s: Stay|
        if cascaded_ids(old, new).contains(s.id) {
            Seq::empty()
        } else {
            match find_stay(old.stays, s.id) {
                None => one(
                    LogKindView::AddStay {
                        subject: subject_name_text(new, s.subject),
                        housing: housing_name_text(new, s.housing),
                    },
                    InverseOpView::RemoveStay { id: s.id },
                ),
                Some(o) => one_if(
                    o.housing != s.housing,
                    LogKindView::MoveStay {
                        subject: subject_name_text(new, s.subject),
                        from: housing_name_text(old, o.housing),
                        to: housing_name_text(new, s.housing),
                    },
                    InverseOpView::SetStayHousing { id: s.id, housing: o.housing },
                ) + one_if(
                    o.subject != s.subject,
                    LogKindView::ChangeStaySubject {
                        from: subject_name_text(old, o.subject),
                        to: subject_name_text(new, s.subject),
                        housing: housing_name_text(new, s.housing),
                    },
                    InverseOpView::SetStaySubject { id: s.id, subject: o.subject },
                ) + one_if(
                    o.arrival != s.arrival || o.departure != s.departure,
                    LogKindView::ChangeStayDates {
                        subject: subject_name_text(new, s.subject),
                        housing: housing_name_text(new, s.housing),
                        from: range_text(o.arrival, o.departure),
                        to: range_text(s.arrival, s.departure),
                    },
                    InverseOpView::SetStayDates { id: s.id, arrival: o.arrival, departure: o.departure },
                ),
            }
        }
}

/// Everything that changed from `old` to `new`, in the order it is journaled:
/// housing deletions, housing additions and edits, then the same for groups,
/// persons and stays.
pub open spec fn changes_between(old: PlanModel, new: PlanModel) -> Seq<ChangeView> {
    flat_map(old.housings, housing_deletions(old, new)) + flat_map(new.housings, housing_edits(old, new))
        + flat_map(old.groups, group_deletions(old, new)) + flat_map(new.groups, group_edits(old, new))
        + flat_map(old.persons, person_deletions(old, new)) + flat_map(new.persons, person_edits(old, new))
        + flat_map(old.stays, stay_removals(old, new)) + flat_map(new.stays, stay_edits(old, new))
}

/// One more element of `s` adds its changes at the end.
pub proof fn lemma_flat_map_step<A>(s: Seq<A>, f: spec_fn(A) -> Seq<ChangeView>, i: int)
    requires
        0 <= i < s.len(),
    ensures
        flat_map(s.take(i + 1), f) == flat_map(s.take(i), f) + f(s[i]),
{
    assert(s.take(i + 1).drop_last() =~= s.take(i));
}

/// Views of a list with a change appended.
pub proof fn lemma_views_push(cs: Seq<Change>, c: Change)
    ensures
        change_views(cs.push(c)) == change_views(cs).push(c@),
{
    assert(change_views(cs.push(c)) =~= change_views(cs).push(c@));
}


// --- name resolution helpers (resolved against whichever plan still has the entity) ---

fn hname(plan: &Plan, id: Id) -> (r: String)
    ensures
        r@ == housing_name_text(plan@, id),
{
    match plan.housing(id) {
        Some(h) => h.name.clone(),
        None => String::from_str("?"),
    }
}

fn subj(plan: &Plan, s: Subject) -> (r: String)
    ensures
        r@ == subject_name_text(plan@, s),
{
    match s {
        Subject::Person(id) => match plan.person(id) {
            Some(p) => p.name.clone(),
            None => String::from_str("?"),
        },
        Subject::Group(id) => match plan.group(id) {
            Some(g) => g.name.clone(),
            None => String::from_str("?"),
        },
    }
}

/// Group name, or "" for "no group" (rendered localized in [`describe`]).
fn group_label(plan: &Plan, g: Option<Id>) -> (r: String)
    ensures
        r@ == group_label_text(plan@, g),
{
    match g {
        None => String::new(),
        Some(id) => match plan.group(id) {
            Some(x) => x.name.clone(),
            None => String::from_str("?"),
        },
    }
}

/// A date range as text, `arrival – departure`.
fn range_string(arrival: Date, departure: Date) -> (r: String)
    ensures
        r@ == range_text(arrival, departure),
{
    let mut s = arrival.text();
    s.append(" – ");
    let t = departure.text();
    s.append(t.as_str());
    s
}

/// The stays of `ss` in housing `hid`, in order.
fn collect_stays_in_housing(ss: &Vec<Stay>, hid: Id) -> (r: Vec<Stay>)
    ensures
        r@ == stays_in_housing(ss@, hid),
{
    let mut v: Vec<Stay> = Vec::new();
    let mut i: usize = 0;
    while i < ss.len()
        invariant
            i <= ss.len(),
            v@ == stays_in_housing(ss@.take(i as int), hid),
        decreases ss.len() - i,
    {
        proof {
            assert(ss@.take(i + 1).drop_last() =~= ss@.take(i as int));
        }
        if ss[i].housing == hid {
            v.push(ss[i]);
        }
        i += 1;
    }
    proof {
        assert(ss@.take(i as int) =~= ss@);
    }
    v
}

/// The stays of `ss` booked for `subject`, in order.
fn collect_stays_of(ss: &Vec<Stay>, subject: Subject) -> (r: Vec<Stay>)
    ensures
        r@ == stays_of(ss@, subject),
{
    let mut v: Vec<Stay> = Vec::new();
    let mut i: usize = 0;
    while i < ss.len()
        invariant
            i <= ss.len(),
            v@ == stays_of(ss@.take(i as int), subject),
        decreases ss.len() - i,
    {
        proof {
            assert(ss@.take(i + 1).drop_last() =~= ss@.take(i as int));
        }
        if ss[i].subject == subject {
            v.push(ss[i]);
        }
        i += 1;
    }
    proof {
        assert(ss@.take(i as int) =~= ss@);
    }
    v
}

/// True if the two colors differ in some channel.
fn colors_differ(a: [u8; 3], b: [u8; 3]) -> (r: bool)
    ensures
        r == (a@ != b@),
{
    let r = a[0] != b[0] || a[1] != b[1] || a[2] != b[2];
    if !r {
        assert(a@ =~= b@);
    }
    r
}


/// What `stays_in_housing` holds.
pub proof fn lemma_stays_in_housing(ss: Seq<Stay>, hid: Id)
    ensures
        forall|x: Stay| stays_in_housing(ss, hid).contains(x) <==> (ss.contains(x) && x.housing == hid),
    decreases ss.len(),
{
    if ss.len() > 0 {
        lemma_stays_in_housing(ss.drop_last(), hid);
        lemma_contains_split_last(ss);
        let rest = stays_in_housing(ss.drop_last(), hid);
        if ss.last().housing == hid {
            lemma_contains_push(rest, ss.last());
            assert(stays_in_housing(ss, hid) == rest.push(ss.last()));
        } else {
            assert(stays_in_housing(ss, hid) == rest);
        }
    }
}

/// What `stays_of` holds.
pub proof fn lemma_stays_of(ss: Seq<Stay>, subject: Subject)
    ensures
        forall|x: Stay| stays_of(ss, subject).contains(x) <==> (ss.contains(x) && x.subject == subject),
    decreases ss.len(),
{
    if ss.len() > 0 {
        lemma_stays_of(ss.drop_last(), subject);
        lemma_contains_split_last(ss);
        let rest = stays_of(ss.drop_last(), subject);
        if ss.last().subject == subject {
            lemma_contains_push(rest, ss.last());
            assert(stays_of(ss, subject) == rest.push(ss.last()));
        } else {
            assert(stays_of(ss, subject) == rest);
        }
    }
}

/// Add the id of every stay of `list` to `set`.
fn insert_stay_ids(set: &mut std::collections::HashSet<Id>, list: &Vec<Stay>)
    ensures
        final(set)@ == old(set)@ + Set::new(|sid: Id| exists|t: int| 0 <= t < list@.len() && (#[trigger] list@[t]).id == sid),
{
    broadcast use vstd::std_specs::hash::group_hash_axioms;
    let mut q: usize = 0;
    while q < list.len()
        invariant
            q <= list.len(),
            set@ == old(set)@ + Set::new(|sid: Id| exists|t: int| 0 <= t < q && (#[trigger] list@[t]).id == sid),
        decreases list.len() - q,
    {
        let ghost before = set@;
        set.insert(list[q].id);
        assert(set@ =~= old(set)@ + Set::new(|sid: Id| exists|t: int| 0 <= t < q + 1 && (#[trigger] list@[t]).id == sid)) by {
            assert forall|sid: Id| set@.contains(sid) <==> (old(set)@ + Set::new(|sid: Id| exists|t: int| 0 <= t < q + 1 && (#[trigger] list@[t]).id == sid)).contains(sid) by {
                if sid == list@[q as int].id {
                    assert(list@[q as int].id == sid);
                }
            }
        }
        q += 1;
    }
}

/// Among the first `n` housings of `hs`, one has id `hid`, and `new_hs` has none.
pub open spec fn removed_among(hs: Seq<Housing>, new_hs: Seq<Housing>, hid: Id, n: int) -> bool {
    housing_pos(new_hs, hid) == -1 && exists|j: int| 0 <= j < n && (#[trigger] hs[j]).id == hid
}

/// Report each housing of `prev` that `next` no longer has, folding in its stays.
fn diff_housing_deletions(
    prev: &Plan,
    next: &Plan,
    out: &mut Vec<Change>,
    cascaded: &mut std::collections::HashSet<Id>,
)
    ensures
        change_views(final(out)@) == change_views(old(out)@) + flat_map(prev@.housings, housing_deletions(prev@, next@)),
        final(cascaded)@ == old(cascaded)@ + Set::new(
            |sid: Id|
                exists|k: int|
                    0 <= k < prev@.stays.len() && (#[trigger] prev@.stays[k]).id == sid
                        && housing_removed(prev@, next@, prev@.stays[k].housing),
        ),
{
    let ghost f = housing_deletions(prev@, next@);
    let mut i: usize = 0;
    while i < prev.housings.len()
        invariant
            i <= prev.housings.len(),
            change_views(out@) == change_views(old(out)@) + flat_map(prev@.housings.take(i as int), f),
            f == housing_deletions(prev@, next@),
            cascaded@ == old(cascaded)@ + Set::new(
                |sid: Id|
                    exists|k: int|
                        0 <= k < prev@.stays.len() && (#[trigger] prev@.stays[k]).id == sid
                            && removed_among(prev@.housings, next@.housings, prev@.stays[k].housing, i as int),
            ),
        decreases prev.housings.len() - i,
    {
        let h = &prev.housings[i];
        proof {
            lemma_flat_map_step(prev@.housings, f, i as int);
        }
        let ghost before = cascaded@;
        if housing_index(&next.housings, h.id).is_none() {
            let stays = collect_stays_in_housing(&prev.stays, h.id);
            insert_stay_ids(cascaded, &stays);
            let c = Change {
                kind: LogKind::DeleteHousing { name: h.name.clone() },
                inverse: InverseOp::InsertHousing { housing: h.clone(), stays },
            };
            proof {
                lemma_views_push(out@, c);
            }
            out.push(c);
            proof {
                lemma_stays_in_housing(prev@.stays, h.id);
                assert forall|sid: Id|
                    #![trigger cascaded@.contains(sid)]
                    cascaded@.contains(sid) <==> (old(cascaded)@ + Set::new(
                        |sid: Id|
                            exists|k: int|
                                0 <= k < prev@.stays.len() && (#[trigger] prev@.stays[k]).id == sid
                                    && removed_among(prev@.housings, next@.housings, prev@.stays[k].housing, i + 1),
                    )).contains(sid) by {
                    if exists|t: int| 0 <= t < stays@.len() && (#[trigger] stays@[t]).id == sid {
                        let t = choose|t: int| 0 <= t < stays@.len() && (#[trigger] stays@[t]).id == sid;
                        let x = stays@[t];
                        assert(stays@.contains(x));
                        assert(prev@.stays.contains(x));
                        let k = choose|k: int| 0 <= k < prev@.stays.len() && prev@.stays[k] == x;
                        assert(prev@.housings[i as int].id == prev@.stays[k].housing);
                        assert(removed_among(prev@.housings, next@.housings, prev@.stays[k].housing, i + 1));
                    }
                    if exists|k: int|
                        0 <= k < prev@.stays.len() && (#[trigger] prev@.stays[k]).id == sid
                            && removed_among(prev@.housings, next@.housings, prev@.stays[k].housing, i + 1) {
                        let k = choose|k: int|
                            0 <= k < prev@.stays.len() && (#[trigger] prev@.stays[k]).id == sid
                                && removed_among(prev@.housings, next@.housings, prev@.stays[k].housing, i + 1);
                        if !removed_among(prev@.housings, next@.housings, prev@.stays[k].housing, i as int) {
                            let j = choose|j: int| 0 <= j < i + 1 && (#[trigger] prev@.housings[j]).id == prev@.stays[k].housing;
                            assert(j == i);
                            assert(prev@.stays.contains(prev@.stays[k]));
                            assert(stays_in_housing(prev@.stays, h.id).contains(prev@.stays[k]));
                            let t = choose|t: int| 0 <= t < stays@.len() && stays@[t] == prev@.stays[k];
                            assert(stays@[t].id == sid);
                        }
                    }
                }
                assert(cascaded@ =~= old(cascaded)@ + Set::new(
                    |sid: Id|
                        exists|k: int|
                            0 <= k < prev@.stays.len() && (#[trigger] prev@.stays[k]).id == sid
                                && removed_among(prev@.housings, next@.housings, prev@.stays[k].housing, i + 1),
                ));
            }
        } else {
            proof {
                assert(flat_map(prev@.housings.take(i + 1), f) =~= flat_map(prev@.housings.take(i as int), f));
                assert forall|hid: Id|
                    removed_among(prev@.housings, next@.housings, hid, i + 1) <==> removed_among(
                        prev@.housings,
                        next@.housings,
                        hid,
                        i as int,
                    ) by {
                    if removed_among(prev@.housings, next@.housings, hid, i + 1) {
                        let j = choose|j: int| 0 <= j < i + 1 && (#[trigger] prev@.housings[j]).id == hid;
                        if j == i {
                            assert(housing_pos(next@.housings, h.id) != -1);
                        }
                    }
                }
                assert(cascaded@ =~= old(cascaded)@ + Set::new(
                    |sid: Id|
                        exists|k: int|
                            0 <= k < prev@.stays.len() && (#[trigger] prev@.stays[k]).id == sid
                                && removed_among(prev@.housings, next@.housings, prev@.stays[k].housing, i + 1),
                ));
            }
        }
        i += 1;
    }
    proof {
        assert(prev@.housings.take(i as int) =~= prev@.housings);
        assert forall|hid: Id|
            removed_among(prev@.housings, next@.housings, hid, i as int) <==> housing_removed(prev@, next@, hid) by {
            lemma_housing_pos(prev@.housings, hid);
        }
        assert(cascaded@ =~= old(cascaded)@ + Set::new(
            |sid: Id|
                exists|k: int|
                    0 <= k < prev@.stays.len() && (#[trigger] prev@.stays[k]).id == sid
                        && housing_removed(prev@, next@, prev@.stays[k].housing),
        ));
    }
}


/// Append `c` to `out`, whose views then grow by `c`'s view.
fn push_change(out: &mut Vec<Change>, c: Change)
    ensures
        change_views(final(out)@) == change_views(old(out)@).push(c@),
{
    proof {
        lemma_views_push(out@, c);
    }
    out.push(c);
}

/// Report each housing of `next` that `prev` lacks, and each edit of one it has.
fn diff_housing_edits(prev: &Plan, next: &Plan, out: &mut Vec<Change>)
    ensures
        change_views(final(out)@) == change_views(old(out)@) + flat_map(next@.housings, housing_edits(prev@, next@)),
{
    let ghost f = housing_edits(prev@, next@);
    let mut i: usize = 0;
    while i < next.housings.len()
        invariant
            i <= next.housings.len(),
            change_views(out@) == change_views(old(out)@) + flat_map(next@.housings.take(i as int), f),
            f == housing_edits(prev@, next@),
        decreases next.housings.len() - i,
    {
        let h = &next.housings[i];
        proof {
            lemma_flat_map_step(next@.housings, f, i as int);
        }
        let ghost before = change_views(out@);
        match prev.housing(h.id) {
            None => {
                push_change(out, Change {
                    kind: LogKind::AddHousing { name: h.name.clone() },
                    inverse: InverseOp::RemoveHousing { id: h.id },
                });
                assert(change_views(out@) =~= before + f(*h));
            },
            Some(o) => {
                let ghost c1 = one_if(
                    o.name@ != h.name@,
                    LogKindView::RenameHousing { from: o.name@, to: h.name@ },
                    InverseOpView::SetHousingName { id: h.id, name: o.name },
                );
                let ghost c2 = one_if(
                    o.capacity != h.capacity,
                    LogKindView::SetCapacity { name: h.name@, from: o.capacity, to: h.capacity },
                    InverseOpView::SetHousingCapacity { id: h.id, capacity: o.capacity },
                );
                let ghost c3 = one_if(
                    o.notes@ != h.notes@,
                    LogKindView::EditNotes { name: h.name@ },
                    InverseOpView::SetHousingNotes { id: h.id, notes: o.notes },
                );
                if o.name != h.name {
                    push_change(out, Change {
                        kind: LogKind::RenameHousing { from: o.name.clone(), to: h.name.clone() },
                        inverse: InverseOp::SetHousingName { id: h.id, name: o.name.clone() },
                    });
                }
                assert(change_views(out@) =~= before + c1);
                if o.capacity != h.capacity {
                    push_change(out, Change {
                        kind: LogKind::SetCapacity { name: h.name.clone(), from: o.capacity, to: h.capacity },
                        inverse: InverseOp::SetHousingCapacity { id: h.id, capacity: o.capacity },
                    });
                }
                assert(change_views(out@) =~= before + c1 + c2);
                if o.notes != h.notes {
                    push_change(out, Change {
                        kind: LogKind::EditNotes { name: h.name.clone() },
                        inverse: InverseOp::SetHousingNotes { id: h.id, notes: o.notes.clone() },
                    });
                }
                assert(change_views(out@) =~= before + c1 + c2 + c3);
                assert(f(*h) == c1 + c2 + c3);
            },
        }
        i += 1;
    }
    proof {
        assert(next@.housings.take(i as int) =~= next@.housings);
    }
}


/// Add every id of `list` to `set`.
fn insert_ids(set: &mut std::collections::HashSet<Id>, list: &Vec<Id>)
    ensures
        final(set)@ == old(set)@ + Set::new(|x: Id| list@.contains(x)),
{
    broadcast use vstd::std_specs::hash::group_hash_axioms;
    let mut q: usize = 0;
    while q < list.len()
        invariant
            q <= list.len(),
            set@ == old(set)@ + Set::new(|x: Id| list@.take(q as int).contains(x)),
        decreases list.len() - q,
    {
        set.insert(list[q]);
        proof {
            assert(list@.take(q + 1) =~= list@.take(q as int).push(list@[q as int]));
            broadcast use vstd::seq_lib::group_seq_properties;
            assert(set@ =~= old(set)@ + Set::new(|x: Id| list@.take(q + 1).contains(x)));
        }
        q += 1;
    }
    proof {
        assert(list@.take(q as int) =~= list@);
    }
}

/// The ids of the persons of `ps` in group `gid`, in order.
fn collect_member_ids(ps: &Vec<Person>, gid: Id) -> (r: Vec<Id>)
    ensures
        r@ == crate::model::member_ids(ps@, gid),
{
    let mut v: Vec<Id> = Vec::new();
    let mut i: usize = 0;
    while i < ps.len()
        invariant
            i <= ps.len(),
            v@ == crate::model::member_ids(ps@.take(i as int), gid),
        decreases ps.len() - i,
    {
        proof {
            assert(ps@.take(i + 1).drop_last() =~= ps@.take(i as int));
        }
        if ps[i].group == Some(gid) {
            v.push(ps[i].id);
        }
        i += 1;
    }
    proof {
        assert(ps@.take(i as int) =~= ps@);
    }
    v
}

/// Among the first `n` groups of `gs`, one has id `gid`, and `new_gs` has none.
pub open spec fn group_removed_among(gs: Seq<Group>, new_gs: Seq<Group>, gid: Id, n: int) -> bool {
    group_pos(new_gs, gid) == -1 && exists|j: int| 0 <= j < n && (#[trigger] gs[j]).id == gid
}

/// The stay is booked for a group that is among the first `n` of `gs` and gone from `new_gs`.
pub open spec fn stay_group_removed_among(gs: Seq<Group>, new_gs: Seq<Group>, s: Stay, n: int) -> bool {
    match s.subject {
        Subject::Group(g) => group_removed_among(gs, new_gs, g, n),
        Subject::Person(_) => false,
    }
}

/// Report each group of `prev` that `next` no longer has, folding in its members and stays.
fn diff_group_deletions(
    prev: &Plan,
    next: &Plan,
    out: &mut Vec<Change>,
    cascaded: &mut std::collections::HashSet<Id>,
    detached_persons: &mut std::collections::HashSet<Id>,
)
    ensures
        change_views(final(out)@) == change_views(old(out)@) + flat_map(prev@.groups, group_deletions(prev@, next@)),
        final(cascaded)@ == old(cascaded)@ + Set::new(
            |sid: Id|
                exists|k: int|
                    0 <= k < prev@.stays.len() && (#[trigger] prev@.stays[k]).id == sid
                        && (prev@.stays[k].subject matches Subject::Group(g) && group_removed(prev@, next@, g)),
        ),
        final(detached_persons)@ == old(detached_persons)@ + Set::new(|pid: Id| detached(prev@, next@, pid)),
{
    let ghost f = group_deletions(prev@, next@);
    let mut i: usize = 0;
    while i < prev.groups.len()
        invariant
            i <= prev.groups.len(),
            change_views(out@) == change_views(old(out)@) + flat_map(prev@.groups.take(i as int), f),
            f == group_deletions(prev@, next@),
            cascaded@ == old(cascaded)@ + Set::new(
                |sid: Id|
                    exists|k: int|
                        0 <= k < prev@.stays.len() && (#[trigger] prev@.stays[k]).id == sid
                            && stay_group_removed_among(prev@.groups, next@.groups, prev@.stays[k], i as int),
            ),
            detached_persons@ == old(detached_persons)@ + Set::new(
                |pid: Id|
                    exists|j: int|
                        0 <= j < i && group_pos(next@.groups, (#[trigger] prev@.groups[j]).id) == -1
                            && crate::model::member_ids(prev@.persons, prev@.groups[j].id).contains(pid),
            ),
        decreases prev.groups.len() - i,
    {
        let g = &prev.groups[i];
        proof {
            lemma_flat_map_step(prev@.groups, f, i as int);
        }
        if group_index(&next.groups, g.id).is_none() {
            let members = collect_member_ids(&prev.persons, g.id);
            insert_ids(detached_persons, &members);
            let stays = collect_stays_of(&prev.stays, Subject::Group(g.id));
            insert_stay_ids(cascaded, &stays);
            proof {
                lemma_stays_of(prev@.stays, Subject::Group(g.id));
                assert forall|sid: Id|
                    #![trigger cascaded@.contains(sid)]
                    cascaded@.contains(sid) <==> (old(cascaded)@ + Set::new(
                        |sid: Id|
                            exists|k: int|
                                0 <= k < prev@.stays.len() && (#[trigger] prev@.stays[k]).id == sid
                                    && stay_group_removed_among(prev@.groups, next@.groups, prev@.stays[k], i + 1),
                    )).contains(sid) by {
                    if exists|t: int| 0 <= t < stays@.len() && (#[trigger] stays@[t]).id == sid {
                        let t = choose|t: int| 0 <= t < stays@.len() && (#[trigger] stays@[t]).id == sid;
                        let x = stays@[t];
                        assert(stays@.contains(x));
                        assert(prev@.stays.contains(x));
                        let k = choose|k: int| 0 <= k < prev@.stays.len() && prev@.stays[k] == x;
                        assert(prev@.groups[i as int].id == g.id);
                        assert(stay_group_removed_among(prev@.groups, next@.groups, prev@.stays[k], i + 1));
                    }
                    if exists|k: int|
                        0 <= k < prev@.stays.len() && (#[trigger] prev@.stays[k]).id == sid
                            && stay_group_removed_among(prev@.groups, next@.groups, prev@.stays[k], i + 1) {
                        let k = choose|k: int|
                            0 <= k < prev@.stays.len() && (#[trigger] prev@.stays[k]).id == sid
                                && stay_group_removed_among(prev@.groups, next@.groups, prev@.stays[k], i + 1);
                        if !stay_group_removed_among(prev@.groups, next@.groups, prev@.stays[k], i as int) {
                            let gid = prev@.stays[k].subject->Group_0;
                            let j = choose|j: int| 0 <= j < i + 1 && (#[trigger] prev@.groups[j]).id == gid;
                            assert(j == i);
                            let x = prev@.stays[k];
                            assert(prev@.stays.contains(x));
                            assert(stays_of(prev@.stays, Subject::Group(g.id)).contains(x));
                            let t = choose|t: int| 0 <= t < stays@.len() && stays@[t] == x;
                            assert(stays@[t].id == sid);
                        }
                    }
                }
                assert(cascaded@ =~= old(cascaded)@ + Set::new(
                    |sid: Id|
                        exists|k: int|
                            0 <= k < prev@.stays.len() && (#[trigger] prev@.stays[k]).id == sid
                                && stay_group_removed_among(prev@.groups, next@.groups, prev@.stays[k], i + 1),
                ));
                assert forall|pid: Id|
                    #![trigger detached_persons@.contains(pid)]
                    detached_persons@.contains(pid) <==> (old(detached_persons)@ + Set::new(
                        |pid: Id|
                            exists|j: int|
                                0 <= j < i + 1 && group_pos(next@.groups, (#[trigger] prev@.groups[j]).id) == -1
                                    && crate::model::member_ids(prev@.persons, prev@.groups[j].id).contains(pid),
                    )).contains(pid) by {
                    if members@.contains(pid) {
                        assert(prev@.groups[i as int].id == g.id);
                    }
                }
                assert(detached_persons@ =~= old(detached_persons)@ + Set::new(
                    |pid: Id|
                        exists|j: int|
                            0 <= j < i + 1 && group_pos(next@.groups, (#[trigger] prev@.groups[j]).id) == -1
                                && crate::model::member_ids(prev@.persons, prev@.groups[j].id).contains(pid),
                ));
            }
            push_change(out, Change {
                kind: LogKind::DeleteGroup { name: g.name.clone() },
                inverse: InverseOp::InsertGroup { group: g.clone(), members, stays },
            });
        } else {
            proof {
                assert(flat_map(prev@.groups.take(i + 1), f) =~= flat_map(prev@.groups.take(i as int), f));
                assert forall|gid: Id|
                    group_removed_among(prev@.groups, next@.groups, gid, i + 1) <==> group_removed_among(
                        prev@.groups,
                        next@.groups,
                        gid,
                        i as int,
                    ) by {
                    if group_removed_among(prev@.groups, next@.groups, gid, i + 1) {
                        let j = choose|j: int| 0 <= j < i + 1 && (#[trigger] prev@.groups[j]).id == gid;
                        if j == i {
                            assert(group_pos(next@.groups, g.id) != -1);
                        }
                    }
                }
                assert(cascaded@ =~= old(cascaded)@ + Set::new(
                    |sid: Id|
                        exists|k: int|
                            0 <= k < prev@.stays.len() && (#[trigger] prev@.stays[k]).id == sid
                                && stay_group_removed_among(prev@.groups, next@.groups, prev@.stays[k], i + 1),
                ));
                assert(detached_persons@ =~= old(detached_persons)@ + Set::new(
                    |pid: Id|
                        exists|j: int|
                            0 <= j < i + 1 && group_pos(next@.groups, (#[trigger] prev@.groups[j]).id) == -1
                                && crate::model::member_ids(prev@.persons, prev@.groups[j].id).contains(pid),
                ));
            }
        }
        i += 1;
    }
    proof {
        assert(prev@.groups.take(i as int) =~= prev@.groups);
        assert forall|gid: Id|
            group_removed_among(prev@.groups, next@.groups, gid, i as int) <==> group_removed(prev@, next@, gid) by {
            lemma_group_pos(prev@.groups, gid);
        }
        assert(cascaded@ =~= old(cascaded)@ + Set::new(
            |sid: Id|
                exists|k: int|
                    0 <= k < prev@.stays.len() && (#[trigger] prev@.stays[k]).id == sid
                        && (prev@.stays[k].subject matches Subject::Group(g) && group_removed(prev@, next@, g)),
        ));
        assert forall|j: int| 0 <= j < prev@.groups.len() implies
            (group_pos(next@.groups, (#[trigger] prev@.groups[j]).id) == -1 <==> group_removed(prev@, next@, prev@.groups[j].id)) by {
            lemma_group_pos(prev@.groups, prev@.groups[j].id);
        }
        assert(detached_persons@ =~= old(detached_persons)@ + Set::new(|pid: Id| detached(prev@, next@, pid)));
    }
}


/// Report each group of `next` that `prev` lacks, and each edit of one it has.
fn diff_group_edits(prev: &Plan, next: &Plan, out: &mut Vec<Change>)
    ensures
        change_views(final(out)@) == change_views(old(out)@) + flat_map(next@.groups, group_edits(prev@, next@)),
{
    let ghost f = group_edits(prev@, next@);
    let mut i: usize = 0;
    while i < next.groups.len()
        invariant
            i <= next.groups.len(),
            change_views(out@) == change_views(old(out)@) + flat_map(next@.groups.take(i as int), f),
            f == group_edits(prev@, next@),
        decreases next.groups.len() - i,
    {
        let g = &next.groups[i];
        proof {
            lemma_flat_map_step(next@.groups, f, i as int);
        }
        let ghost before = change_views(out@);
        match prev.group(g.id) {
            None => {
                push_change(out, Change {
                    kind: LogKind::AddGroup { name: g.name.clone() },
                    inverse: InverseOp::RemoveGroup { id: g.id },
                });
                assert(change_views(out@) =~= before + f(*g));
            },
            Some(o) => {
                let ghost c1 = one_if(
                    o.name@ != g.name@,
                    LogKindView::RenameGroup { from: o.name@, to: g.name@ },
                    InverseOpView::SetGroupName { id: g.id, name: o.name },
                );
                let ghost c2 = one_if(
                    o.color@ != g.color@,
                    LogKindView::SetGroupColor { name: g.name@ },
                    InverseOpView::SetGroupColor { id: g.id, color: o.color },
                );
                if o.name != g.name {
                    push_change(out, Change {
                        kind: LogKind::RenameGroup { from: o.name.clone(), to: g.name.clone() },
                        inverse: InverseOp::SetGroupName { id: g.id, name: o.name.clone() },
                    });
                }
                assert(change_views(out@) =~= before + c1);
                if colors_differ(o.color, g.color) {
                    push_change(out, Change {
                        kind: LogKind::SetGroupColor { name: g.name.clone() },
                        inverse: InverseOp::SetGroupColor { id: g.id, color: o.color },
                    });
                }
                assert(change_views(out@) =~= before + c1 + c2);
                assert(f(*g) == c1 + c2);
            },
        }
        i += 1;
    }
    proof {
        assert(next@.groups.take(i as int) =~= next@.groups);
    }
}

/// Among the first `n` persons of `ps`, one has id `pid`, and `new_ps` has none.
pub open spec fn person_removed_among(ps: Seq<Person>, new_ps: Seq<Person>, pid: Id, n: int) -> bool {
    person_pos(new_ps, pid) == -1 && exists|j: int| 0 <= j < n && (#[trigger] ps[j]).id == pid
}

/// The stay is booked for a person who is among the first `n` of `ps` and gone from `new_ps`.
pub open spec fn stay_person_removed_among(ps: Seq<Person>, new_ps: Seq<Person>, s: Stay, n: int) -> bool {
    match s.subject {
        Subject::Person(p) => person_removed_among(ps, new_ps, p, n),
        Subject::Group(_) => false,
    }
}

/// Report each person of `prev` that `next` no longer has, folding in their stays.
fn diff_person_deletions(
    prev: &Plan,
    next: &Plan,
    out: &mut Vec<Change>,
    cascaded: &mut std::collections::HashSet<Id>,
)
    ensures
        change_views(final(out)@) == change_views(old(out)@) + flat_map(prev@.persons, person_deletions(prev@, next@)),
        final(cascaded)@ == old(cascaded)@ + Set::new(
            |sid: Id|
                exists|k: int|
                    0 <= k < prev@.stays.len() && (#[trigger] prev@.stays[k]).id == sid
                        && (prev@.stays[k].subject matches Subject::Person(p) && person_removed(prev@, next@, p)),
        ),
{
    let ghost f = person_deletions(prev@, next@);
    let mut i: usize = 0;
    while i < prev.persons.len()
        invariant
            i <= prev.persons.len(),
            change_views(out@) == change_views(old(out)@) + flat_map(prev@.persons.take(i as int), f),
            f == person_deletions(prev@, next@),
            cascaded@ == old(cascaded)@ + Set::new(
                |sid: Id|
                    exists|k: int|
                        0 <= k < prev@.stays.len() && (#[trigger] prev@.stays[k]).id == sid
                            && stay_person_removed_among(prev@.persons, next@.persons, prev@.stays[k], i as int),
            ),
        decreases prev.persons.len() - i,
    {
        let p = &prev.persons[i];
        proof {
            lemma_flat_map_step(prev@.persons, f, i as int);
        }
        if person_index(&next.persons, p.id).is_none() {
            let stays = collect_stays_of(&prev.stays, Subject::Person(p.id));
            insert_stay_ids(cascaded, &stays);
            proof {
                lemma_stays_of(prev@.stays, Subject::Person(p.id));
                assert forall|sid: Id|
                    #![trigger cascaded@.contains(sid)]
                    cascaded@.contains(sid) <==> (old(cascaded)@ + Set::new(
                        |sid: Id|
                            exists|k: int|
                                0 <= k < prev@.stays.len() && (#[trigger] prev@.stays[k]).id == sid
                                    && stay_person_removed_among(prev@.persons, next@.persons, prev@.stays[k], i + 1),
                    )).contains(sid) by {
                    if exists|t: int| 0 <= t < stays@.len() && (#[trigger] stays@[t]).id == sid {
                        let t = choose|t: int| 0 <= t < stays@.len() && (#[trigger] stays@[t]).id == sid;
                        let x = stays@[t];
                        assert(stays@.contains(x));
                        assert(prev@.stays.contains(x));
                        let k = choose|k: int| 0 <= k < prev@.stays.len() && prev@.stays[k] == x;
                        assert(prev@.persons[i as int].id == p.id);
                        assert(stay_person_removed_among(prev@.persons, next@.persons, prev@.stays[k], i + 1));
                    }
                    if exists|k: int|
                        0 <= k < prev@.stays.len() && (#[trigger] prev@.stays[k]).id == sid
                            && stay_person_removed_among(prev@.persons, next@.persons, prev@.stays[k], i + 1) {
                        let k = choose|k: int|
                            0 <= k < prev@.stays.len() && (#[trigger] prev@.stays[k]).id == sid
                                && stay_person_removed_among(prev@.persons, next@.persons, prev@.stays[k], i + 1);
                        if !stay_person_removed_among(prev@.persons, next@.persons, prev@.stays[k], i as int) {
                            let pid = prev@.stays[k].subject->Person_0;
                            let j = choose|j: int| 0 <= j < i + 1 && (#[trigger] prev@.persons[j]).id == pid;
                            assert(j == i);
                            let x = prev@.stays[k];
                            assert(prev@.stays.contains(x));
                            assert(stays_of(prev@.stays, Subject::Person(p.id)).contains(x));
                            let t = choose|t: int| 0 <= t < stays@.len() && stays@[t] == x;
                            assert(stays@[t].id == sid);
                        }
                    }
                }
                assert(cascaded@ =~= old(cascaded)@ + Set::new(
                    |sid: Id|
                        exists|k: int|
                            0 <= k < prev@.stays.len() && (#[trigger] prev@.stays[k]).id == sid
                                && stay_person_removed_among(prev@.persons, next@.persons, prev@.stays[k], i + 1),
                ));
            }
            push_change(out, Change {
                kind: LogKind::DeletePerson { name: p.name.clone() },
                inverse: InverseOp::InsertPerson { person: p.clone(), stays },
            });
        } else {
            proof {
                assert(flat_map(prev@.persons.take(i + 1), f) =~= flat_map(prev@.persons.take(i as int), f));
                assert forall|pid: Id|
                    person_removed_among(prev@.persons, next@.persons, pid, i + 1) <==> person_removed_among(
                        prev@.persons,
                        next@.persons,
                        pid,
                        i as int,
                    ) by {
                    if person_removed_among(prev@.persons, next@.persons, pid, i + 1) {
                        let j = choose|j: int| 0 <= j < i + 1 && (#[trigger] prev@.persons[j]).id == pid;
                        if j == i {
                            assert(person_pos(next@.persons, p.id) != -1);
                        }
                    }
                }
                assert(cascaded@ =~= old(cascaded)@ + Set::new(
                    |sid: Id|
                        exists|k: int|
                            0 <= k < prev@.stays.len() && (#[trigger] prev@.stays[k]).id == sid
                                && stay_person_removed_among(prev@.persons, next@.persons, prev@.stays[k], i + 1),
                ));
            }
        }
        i += 1;
    }
    proof {
        assert(prev@.persons.take(i as int) =~= prev@.persons);
        assert forall|pid: Id|
            person_removed_among(prev@.persons, next@.persons, pid, i as int) <==> person_removed(prev@, next@, pid) by {
            lemma_person_pos(prev@.persons, pid);
        }
        assert(cascaded@ =~= old(cascaded)@ + Set::new(
            |sid: Id|
                exists|k: int|
                    0 <= k < prev@.stays.len() && (#[trigger] prev@.stays[k]).id == sid
                        && (prev@.stays[k].subject matches Subject::Person(p) && person_removed(prev@, next@, p)),
        ));
    }
}


/// Report each person of `next` that `prev` lacks, and each edit of one it has.
fn diff_person_edits(
    prev: &Plan,
    next: &Plan,
    out: &mut Vec<Change>,
    detached_persons: &std::collections::HashSet<Id>,
)
    requires
        detached_persons@ == Set::new(|pid: Id| detached(prev@, next@, pid)),
    ensures
        change_views(final(out)@) == change_views(old(out)@) + flat_map(next@.persons, person_edits(prev@, next@)),
{
    broadcast use vstd::std_specs::hash::group_hash_axioms;
    let ghost f = person_edits(prev@, next@);
    let mut i: usize = 0;
    while i < next.persons.len()
        invariant
            i <= next.persons.len(),
            change_views(out@) == change_views(old(out)@) + flat_map(next@.persons.take(i as int), f),
            f == person_edits(prev@, next@),
            detached_persons@ == Set::new(|pid: Id| detached(prev@, next@, pid)),
        decreases next.persons.len() - i,
    {
        let p = &next.persons[i];
        proof {
            lemma_flat_map_step(next@.persons, f, i as int);
        }
        let ghost before = change_views(out@);
        match prev.person(p.id) {
            None => {
                push_change(out, Change {
                    kind: LogKind::AddPerson { name: p.name.clone() },
                    inverse: InverseOp::RemovePerson { id: p.id },
                });
                assert(change_views(out@) =~= before + f(*p));
            },
            Some(o) => {
                let ghost c1 = one_if(
                    o.name@ != p.name@,
                    LogKindView::RenamePerson { from: o.name@, to: p.name@ },
                    InverseOpView::SetPersonName { id: p.id, name: o.name },
                );
                let ghost c2 = one_if(
                    o.group != p.group && !detached(prev@, next@, p.id),
                    LogKindView::SetPersonGroup {
                        person: p.name@,
                        from: group_label_text(prev@, o.group),
                        to: group_label_text(next@, p.group),
                    },
                    InverseOpView::SetPersonGroup { id: p.id, group: o.group },
                );
                if o.name != p.name {
                    push_change(out, Change {
                        kind: LogKind::RenamePerson { from: o.name.clone(), to: p.name.clone() },
                        inverse: InverseOp::SetPersonName { id: p.id, name: o.name.clone() },
                    });
                }
                assert(change_views(out@) =~= before + c1);
                if o.group != p.group && !detached_persons.contains(&p.id) {
                    push_change(out, Change {
                        kind: LogKind::SetPersonGroup {
                            person: p.name.clone(),
                            from: group_label(prev, o.group),
                            to: group_label(next, p.group),
                        },
                        inverse: InverseOp::SetPersonGroup { id: p.id, group: o.group },
                    });
                }
                assert(change_views(out@) =~= before + c1 + c2);
                assert(f(*p) == c1 + c2);
            },
        }
        i += 1;
    }
    proof {
        assert(next@.persons.take(i as int) =~= next@.persons);
    }
}

/// Report each stay of `prev` that `next` no longer has, unless a deletion folded it in.
fn diff_stay_removals(
    prev: &Plan,
    next: &Plan,
    out: &mut Vec<Change>,
    cascaded: &std::collections::HashSet<Id>,
)
    requires
        cascaded@ == cascaded_ids(prev@, next@),
    ensures
        change_views(final(out)@) == change_views(old(out)@) + flat_map(prev@.stays, stay_removals(prev@, next@)),
{
    broadcast use vstd::std_specs::hash::group_hash_axioms;
    let ghost f = stay_removals(prev@, next@);
    let mut i: usize = 0;
    while i < prev.stays.len()
        invariant
            i <= prev.stays.len(),
            change_views(out@) == change_views(old(out)@) + flat_map(prev@.stays.take(i as int), f),
            f == stay_removals(prev@, next@),
            cascaded@ == cascaded_ids(prev@, next@),
        decreases prev.stays.len() - i,
    {
        let s = &prev.stays[i];
        proof {
            lemma_flat_map_step(prev@.stays, f, i as int);
        }
        let ghost before = change_views(out@);
        if !cascaded.contains(&s.id) && stay_index(&next.stays, s.id).is_none() {
            push_change(out, Change {
                kind: LogKind::RemoveStay { subject: subj(prev, s.subject), housing: hname(prev, s.housing) },
                inverse: InverseOp::InsertStay { stay: *s },
            });
        }
        assert(change_views(out@) =~= before + f(*s));
        i += 1;
    }
    proof {
        assert(prev@.stays.take(i as int) =~= prev@.stays);
    }
}

/// Report each stay of `next` that `prev` lacks, and each edit of one it has,
/// unless a deletion folded it in.
fn diff_stay_edits(
    prev: &Plan,
    next: &Plan,
    out: &mut Vec<Change>,
    cascaded: &std::collections::HashSet<Id>,
)
    requires
        cascaded@ == cascaded_ids(prev@, next@),
    ensures
        change_views(final(out)@) == change_views(old(out)@) + flat_map(next@.stays, stay_edits(prev@, next@)),
{
    broadcast use vstd::std_specs::hash::group_hash_axioms;
    let ghost f = stay_edits(prev@, next@);
    let mut i: usize = 0;
    while i < next.stays.len()
        invariant
            i <= next.stays.len(),
            change_views(out@) == change_views(old(out)@) + flat_map(next@.stays.take(i as int), f),
            f == stay_edits(prev@, next@),
            cascaded@ == cascaded_ids(prev@, next@),
        decreases next.stays.len() - i,
    {
        let s = &next.stays[i];
        proof {
            lemma_flat_map_step(next@.stays, f, i as int);
        }
        let ghost before = change_views(out@);
        if cascaded.contains(&s.id) {
            assert(change_views(out@) =~= before + f(*s));
        } else {
            match stay_index(&prev.stays, s.id) {
                None => {
                    push_change(out, Change {
                        kind: LogKind::AddStay { subject: subj(next, s.subject), housing: hname(next, s.housing) },
                        inverse: InverseOp::RemoveStay { id: s.id },
                    });
                    assert(change_views(out@) =~= before + f(*s));
                },
                Some(k) => {
                    let o = &prev.stays[k];
                    let ghost c1 = one_if(
                        o.housing != s.housing,
                        LogKindView::MoveStay {
                            subject: subject_name_text(next@, s.subject),
                            from: housing_name_text(prev@, o.housing),
                            to: housing_name_text(next@, s.housing),
                        },
                        InverseOpView::SetStayHousing { id: s.id, housing: o.housing },
                    );
                    let ghost c2 = one_if(
                        o.subject != s.subject,
                        LogKindView::ChangeStaySubject {
                            from: subject_name_text(prev@, o.subject),
                            to: subject_name_text(next@, s.subject),
                            housing: housing_name_text(next@, s.housing),
                        },
                        InverseOpView::SetStaySubject { id: s.id, subject: o.subject },
                    );
                    let ghost c3 = one_if(
                        o.arrival != s.arrival || o.departure != s.departure,
                        LogKindView::ChangeStayDates {
                            subject: subject_name_text(next@, s.subject),
                            housing: housing_name_text(next@, s.housing),
                            from: range_text(o.arrival, o.departure),
                            to: range_text(s.arrival, s.departure),
                        },
                        InverseOpView::SetStayDates { id: s.id, arrival: o.arrival, departure: o.departure },
                    );
                    if o.housing != s.housing {
                        push_change(out, Change {
                            kind: LogKind::MoveStay {
                                subject: subj(next, s.subject),
                                from: hname(prev, o.housing),
                                to: hname(next, s.housing),
                            },
                            inverse: InverseOp::SetStayHousing { id: s.id, housing: o.housing },
                        });
                    }
                    assert(change_views(out@) =~= before + c1);
                    if o.subject != s.subject {
                        push_change(out, Change {
                            kind: LogKind::ChangeStaySubject {
                                from: subj(prev, o.subject),
                                to: subj(next, s.subject),
                                housing: hname(next, s.housing),
                            },
                            inverse: InverseOp::SetStaySubject { id: s.id, subject: o.subject },
                        });
                    }
                    assert(change_views(out@) =~= before + c1 + c2);
                    if o.arrival != s.arrival || o.departure != s.departure {
                        push_change(out, Change {
                            kind: LogKind::ChangeStayDates {
                                subject: subj(next, s.subject),
                                housing: hname(next, s.housing),
                                from: range_string(o.arrival, o.departure),
                                to: range_string(s.arrival, s.departure),
                            },
                            inverse: InverseOp::SetStayDates { id: s.id, arrival: o.arrival, departure: o.departure },
                        });
                    }
                    assert(change_views(out@) =~= before + c1 + c2 + c3);
                    assert(f(*s) == c1 + c2 + c3);
                },
            }
        }
        i += 1;
    }
    proof {
        assert(next@.stays.take(i as int) =~= next@.stays);
    }
}

/// Diff two plan states into the changes between them (added / deleted / edited
/// entities). Deletes fold their cascaded stays (and a group's detached members)
/// into the single Delete* change so nothing is logged twice.
pub fn diff(old: &Plan, new: &Plan) -> (r: Vec<Change>)
    ensures
        change_views(r@) == changes_between(old@, new@),
{
    let mut out: Vec<Change> = Vec::new();
    let mut cascaded_stays: std::collections::HashSet<Id> = std::collections::HashSet::new();
    let mut detached_persons: std::collections::HashSet<Id> = std::collections::HashSet::new();
    diff_housing_deletions(old, new, &mut out, &mut cascaded_stays);
    diff_housing_edits(old, new, &mut out);
    diff_group_deletions(old, new, &mut out, &mut cascaded_stays, &mut detached_persons);
    diff_group_edits(old, new, &mut out);
    diff_person_deletions(old, new, &mut out, &mut cascaded_stays);
    diff_person_edits(old, new, &mut out, &detached_persons);
    proof {
        assert(detached_persons@ =~= Set::new(|pid: Id| detached(old@, new@, pid)));
        assert forall|sid: Id| cascaded_stays@.contains(sid) <==> cascaded_ids(old@, new@).contains(sid) by {
            if cascaded_ids(old@, new@).contains(sid) {
                let k = choose|k: int|
                    0 <= k < old@.stays.len() && (#[trigger] old@.stays[k]).id == sid && stay_cascades(old@, new@, old@.stays[k]);
                assert(old@.stays[k].id == sid);
            }
        }
        assert(cascaded_stays@ =~= cascaded_ids(old@, new@));
    }
    diff_stay_removals(old, new, &mut out, &cascaded_stays);
    diff_stay_edits(old, new, &mut out, &cascaded_stays);
    proof {
        assert(change_views(Seq::<Change>::empty()) =~= Seq::<ChangeView>::empty());
        assert(change_views(out@) =~= changes_between(old@, new@));
    }
    out
}


// --- Session: journaling committed edits and undoing them ---

/// The journal after entries for `cs` are appended with consecutive ids from
/// `first`: entry `k` has id `first + k` and the kind of change `k`.
pub open spec fn journaled(log: Seq<LogEntry>, after: Seq<LogEntry>, cs: Seq<ChangeView>, first: u64) -> bool {
    &&& after.len() == log.len() + cs.len()
    &&& after.take(log.len() as int) == log
    &&& forall|k: int|
        0 <= k < cs.len() ==> (#[trigger] after[log.len() + k]).id == first + k && after[log.len() + k].kind@
            == cs[k].kind
}

/// The undo stack after one entry per change of `cs` is pushed: entry `k` pairs
/// journal id `first + k` with the inverse of change `k`.
pub open spec fn stacked(stack: Seq<(u64, InverseOp)>, after: Seq<(u64, InverseOp)>, cs: Seq<ChangeView>, first: u64) -> bool {
    &&& after.len() == stack.len() + cs.len()
    &&& after.take(stack.len() as int) == stack
    &&& forall|k: int|
        0 <= k < cs.len() ==> (#[trigger] after[stack.len() + k]).0 == first + k && after[stack.len() + k].1@
            == cs[k].inverse
}

/// Diff the plan against the baseline at a commit boundary and journal any
/// changes, each with its inverse on the undo stack; the baseline then becomes
/// the plan.
pub fn commit_changes(plan: &mut Plan, baseline: &mut Plan, undo_stack: &mut Vec<(u64, InverseOp)>)
    requires
        old(plan)@.next_log_id + changes_between(old(baseline)@, old(plan)@).len() <= u64::MAX,
    ensures
        ({
            let cs = changes_between(old(baseline)@, old(plan)@);
            if cs.len() == 0 {
                final(plan)@ == old(plan)@ && final(baseline)@ == old(baseline)@ && final(undo_stack)@ == old(undo_stack)@
            } else {
                &&& final(plan)@ == (PlanModel {
                    changelog: final(plan)@.changelog,
                    next_log_id: (old(plan)@.next_log_id + cs.len()) as u64,
                    ..old(plan)@
                })
                &&& journaled(old(plan)@.changelog, final(plan)@.changelog, cs, old(plan)@.next_log_id)
                &&& stacked(old(undo_stack)@, final(undo_stack)@, cs, old(plan)@.next_log_id)
                &&& final(baseline)@ == final(plan)@
            }
        }),
{
    let mut changes = diff(baseline, plan);
    let ghost cs = change_views(changes@);
    if changes.len() == 0 {
        return;
    }
    let n = changes.len();
    let ghost p0 = plan@;
    let ghost u0 = undo_stack@;
    proof {
        assert(p0.changelog.take(p0.changelog.len() as int) =~= p0.changelog);
        assert(u0.take(u0.len() as int) =~= u0);
    }
    let mut k: usize = 0;
    while k < n
        invariant
            k <= n == cs.len(),
            p0 == old(plan)@,
            u0 == old(undo_stack)@,
            cs == changes_between(old(baseline)@, old(plan)@),
            p0.next_log_id + cs.len() <= u64::MAX,
            changes@.len() == n - k,
            forall|t: int| 0 <= t < n - k ==> (#[trigger] changes@[t])@ == cs[k + t],
            plan@ == (PlanModel { changelog: plan@.changelog, next_log_id: (p0.next_log_id + k) as u64, ..p0 }),
            journaled(p0.changelog, plan@.changelog, cs.take(k as int), p0.next_log_id),
            stacked(u0, undo_stack@, cs.take(k as int), p0.next_log_id),
        decreases n - k,
    {
        let ghost rest_before = changes@;
        let ch = changes.remove(0);
        assert(ch@ == cs[k as int]);
        let ghost log_before = plan@.changelog;
        let ghost stack_before = undo_stack@;
        let id = plan.push_log(ch.kind);
        undo_stack.push((id, ch.inverse));
        proof {
            assert forall|t: int| 0 <= t < n - (k + 1) implies (#[trigger] changes@[t])@ == cs[k + 1 + t] by {
                assert(changes@[t] == rest_before[t + 1]);
            }
            let log = plan@.changelog;
            assert(log.take(p0.changelog.len() as int) =~= log_before.take(p0.changelog.len() as int));
            assert forall|t: int| 0 <= t < k + 1 implies (#[trigger] log[p0.changelog.len() + t]).id == p0.next_log_id
                + t && log[p0.changelog.len() + t].kind@ == cs.take(k + 1)[t].kind by {
                if t < k {
                    assert(log[p0.changelog.len() + t] == log_before[p0.changelog.len() + t]);
                    assert(cs.take(k as int)[t] == cs.take(k + 1)[t]);
                }
            }
            let st = undo_stack@;
            assert(st.take(u0.len() as int) =~= stack_before.take(u0.len() as int));
            assert forall|t: int| 0 <= t < k + 1 implies (#[trigger] st[u0.len() + t]).0 == p0.next_log_id + t
                && st[u0.len() + t].1@ == cs.take(k + 1)[t].inverse by {
                if t < k {
                    assert(st[u0.len() + t] == stack_before[u0.len() + t]);
                    assert(cs.take(k as int)[t] == cs.take(k + 1)[t]);
                }
            }
        }
        k += 1;
    }
    proof {
        assert(cs.take(n as int) =~= cs);
    }
    *baseline = plan.clone();
}

/// Revert the most recent change on the undo stack and log an `Undo` entry
/// referencing it; the baseline then becomes the plan. Does nothing when the
/// stack is empty.
pub fn undo_last(plan: &mut Plan, baseline: &mut Plan, undo_stack: &mut Vec<(u64, InverseOp)>)
    requires
        old(undo_stack)@.len() > 0 ==> old(plan)@.next_log_id < u64::MAX,
    ensures
        old(undo_stack)@.len() == 0 ==> final(plan)@ == old(plan)@ && final(baseline)@ == old(baseline)@
            && final(undo_stack)@ == old(undo_stack)@,
        old(undo_stack)@.len() > 0 ==> ({
            let (id, op) = old(undo_stack)@.last();
            let reverted = after_inverse(old(plan)@, op@);
            &&& final(undo_stack)@ == old(undo_stack)@.drop_last()
            &&& final(plan)@ == (PlanModel {
                changelog: final(plan)@.changelog,
                next_log_id: (reverted.next_log_id + 1) as u64,
                ..reverted
            })
            &&& final(plan)@.changelog.drop_last() == old(plan)@.changelog
            &&& final(plan)@.changelog.last().id == old(plan)@.next_log_id
            &&& final(plan)@.changelog.last().kind@ == (LogKindView::Undo { undoes: id })
            &&& final(baseline)@ == final(plan)@
        }),
{
    if let Some((id, inverse)) = undo_stack.pop() {
        proof {
            assert(undo_stack@ =~= old(undo_stack)@.drop_last());
        }
        apply_inverse(plan, &inverse);
        plan.push_log(LogKind::Undo { undoes: id });
        *baseline = plan.clone();
    }
}

/// Load the bundled example, logged as a single event (not entity-by-entity);
/// the baseline then becomes the plan.
pub fn load_example(plan: &mut Plan, baseline: &mut Plan)
    requires
        old(plan)@.next_id <= u64::MAX - 11,
        old(plan)@.next_log_id < u64::MAX,
    ensures
        ({
            let mid = PlanModel {
                changelog: final(plan)@.changelog.drop_last(),
                next_log_id: (final(plan)@.next_log_id - 1) as u64,
                ..final(plan)@
            };
            exists|start: Date|
                start@ + 12 <= crate::date::MAX_DAY && crate::model::sample_added(old(plan)@, mid, start)
        }),
        final(plan)@.changelog.len() > 0,
        final(plan)@.changelog.last().id == final(plan)@.next_log_id - 1,
        final(plan)@.changelog.last().kind@ == LogKindView::LoadedExample,
        final(baseline)@ == final(plan)@,
{
    plan.load_sample();
    let ghost mid = plan@;
    plan.push_log(LogKind::LoadedExample);
    proof {
        assert(mid == (PlanModel {
            changelog: plan@.changelog.drop_last(),
            next_log_id: (plan@.next_log_id - 1) as u64,
            ..plan@
        }));
    }
    *baseline = plan.clone();
}

/// The journal entry for loading the file `name`: whether the file already
/// carried a change journal is told apart.
pub fn loaded_file_entry(name: String, had_history: bool) -> (r: LogKind)
    ensures
        r@ == if had_history {
            LogKindView::LoadedFile { name: name@ }
        } else {
            LogKindView::LoadedFileNoHistory { name: name@ }
        },
{
    if had_history {
        LogKind::LoadedFile { name }
    } else {
        LogKind::LoadedFileNoHistory { name }
    }
}

/// The ids the `Undo` entries of a journal refer to, in journal order: the
/// entries the Changelog tab shows as undone.
pub open spec fn undo_targets(log: Seq<LogEntry>) -> Seq<u64>
    decreases log.len(),
{
    if log.len() == 0 {
        Seq::empty()
    } else {
        let earlier = undo_targets(log.drop_last());
        match log.last().kind@ {
            LogKindView::Undo { undoes } => earlier.push(undoes),
            _ => earlier,
        }
    }
}

/// The ids the `Undo` entries of `log` refer to, in journal order.
pub fn undone_ids(log: &[LogEntry]) -> (r: Vec<u64>)
    ensures
        r@ == undo_targets(log@),
{
    let mut out: Vec<u64> = Vec::new();
    let mut i: usize = 0;
    while i < log.len()
        invariant
            i <= log@.len(),
            out@ == undo_targets(log@.take(i as int)),
        decreases log@.len() - i,
    {
        proof {
            assert(log@.take(i + 1).drop_last() =~= log@.take(i as int));
        }
        if let LogKind::Undo { undoes } = &log[i].kind {
            out.push(*undoes);
        }
        i += 1;
    }
    proof {
        assert(log@.take(i as int) =~= log@);
    }
    out
}

/// What chrono makes of an RFC 3339 timestamp shown as `MM-DD HH:MM` (in the
/// timestamp's own offset): `None` when chrono does not parse it.
pub uninterp spec fn rfc3339_short_form(rfc3339: Seq<char>) -> Option<Seq<char>>;

/// chrono's `DateTime::parse_from_rfc3339`, then `format("%m-%d %H:%M")` of the
/// parsed time. Claimed: the result is a function of the text alone (`None`
/// exactly when chrono rejects it); what that text is, is left to chrono.
#[verifier::external_body]
fn rfc3339_month_day_time(rfc3339: &str) -> (r: Option<String>)
    ensures
        match r {
            Some(t) => rfc3339_short_form(rfc3339@) == Some(t@),
            None => rfc3339_short_form(rfc3339@) is None,
        },
{
    match chrono::DateTime::parse_from_rfc3339(rfc3339) {
        Ok(dt) => Some(dt.format("%m-%d %H:%M").to_string()),
        Err(_) => None,
    }
}

/// The changelog's compact `MM-DD HH:MM` rendering of an entry's RFC 3339
/// time; a time chrono cannot parse is shown as it is.
pub fn short_time(rfc3339: &str) -> (r: String)
    ensures
        r@ == match rfc3339_short_form(rfc3339@) {
            Some(t) => t,
            None => rfc3339@,
        },
{
    match rfc3339_month_day_time(rfc3339) {
        Some(t) => t,
        None => String::from_str(rfc3339),
    }
}

} // verus!
