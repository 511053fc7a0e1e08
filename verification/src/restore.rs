//! Undoing the only change between two plans gives back the first plan's
//! collections entity by entity: every id finds the same content in both.
use crate::journal::{
    lemma_stays_in_housing, lemma_stays_of, stay_cascades, stays_in_housing, stays_of, housing_removed,
    group_removed, person_removed, after_inverse, cascaded_ids, changes_between, detached, flat_map, group_deletions, group_edits,
    housing_deletions, housing_edits, person_deletions, person_edits, stay_edits, stay_removals,
    with_members, with_person_group, without_group, without_housing, without_person, without_stay,
    ChangeView, InverseOpView,
};
use crate::model::{
    find_group, find_housing, find_person, find_stay, group_pos, housing_pos, lemma_group_pos,
    lemma_housing_pos, lemma_person_pos, lemma_stay_pos, person_pos, stay_pos, Group, Housing, Id,
    Person, PlanModel, Stay, Subject, member_ids, lemma_member_ids,
};
use crate::laws::ids_unique;
use crate::seqs::lemma_contains_split_last;
use vstd::prelude::*;

verus! {

/// Two lookups by id find the same housing content, or both find none.
pub open spec fn same_housing(x: Option<Housing>, y: Option<Housing>) -> bool {
    match (x, y) {
        (None, None) => true,
        (Some(p), Some(q)) => p.id == q.id && p.name@ == q.name@ && p.capacity == q.capacity
            && p.notes@ == q.notes@,
        _ => false,
    }
}

/// Every id finds the same housing content in `a` as in `b`.
pub open spec fn housings_agree(a: Seq<Housing>, b: Seq<Housing>) -> bool {
    forall|id: Id| same_housing(#[trigger] find_housing(a, id), find_housing(b, id))
}

/// A flattened list with nothing in it has nothing from any element.
proof fn lemma_flat_map_empty<A>(s: Seq<A>, f: spec_fn(A) -> Seq<ChangeView>)
    requires
        flat_map(s, f).len() == 0,
    ensures
        forall|i: int| 0 <= i < s.len() ==> (#[trigger] f(s[i])).len() == 0,
    decreases s.len(),
{
    if s.len() > 0 {
        lemma_flat_map_empty(s.drop_last(), f);
        assert forall|i: int| 0 <= i < s.len() implies (#[trigger] f(s[i])).len() == 0 by {
            if i < s.len() - 1 {
                assert(s[i] == s.drop_last()[i]);
            }
        }
    }
}

/// Looking up an id after appending a housing.
proof fn lemma_find_housing_push(s: Seq<Housing>, e: Housing, id: Id)
    ensures
        find_housing(s.push(e), id) == match find_housing(s, id) {
            Some(x) => Some(x),
            None => if e.id == id { Some(e) } else { None },
        },
{
    let t = s.push(e);
    lemma_housing_pos(s, id);
    lemma_housing_pos(t, id);
    if housing_pos(s, id) != -1 {
        let k = housing_pos(s, id);
        assert(t[k] == s[k]);
        if housing_pos(t, id) < k {
            assert(t[housing_pos(t, id)] == s[housing_pos(t, id)]);
        }
        assert(housing_pos(t, id) == k);
    } else if e.id == id {
        assert(t[s.len() as int] == e);
        if housing_pos(t, id) != -1 && housing_pos(t, id) < s.len() {
            assert(t[housing_pos(t, id)] == s[housing_pos(t, id)]);
        }
    } else {
        if housing_pos(t, id) != -1 {
            assert(housing_pos(t, id) < s.len());
            assert(t[housing_pos(t, id)] == s[housing_pos(t, id)]);
        }
    }
}

/// Dropping the housings with id `x` leaves every other lookup as it was and
/// finds none with `x`.
proof fn lemma_find_without_housing(s: Seq<Housing>, x: Id, id: Id)
    ensures
        find_housing(without_housing(s, x), id) == if id == x { None } else { find_housing(s, id) },
    decreases s.len(),
{
    if s.len() == 0 {
        lemma_housing_pos(s, id);
    } else {
        let d = s.drop_last();
        lemma_find_without_housing(d, x, id);
        lemma_find_housing_push(d, s.last(), id);
        assert(d.push(s.last()) =~= s);
        if s.last().id != x {
            lemma_find_housing_push(without_housing(d, x), s.last(), id);
        }
    }
}

/// When the diff reports nothing about housings, every id finds the same
/// housing content in both plans.
proof fn lemma_housings_unchanged(old: PlanModel, new: PlanModel)
    requires
        flat_map(old.housings, housing_deletions(old, new)).len() == 0,
        flat_map(new.housings, housing_edits(old, new)).len() == 0,
    ensures
        housings_agree(new.housings, old.housings),
{
    lemma_flat_map_empty(old.housings, housing_deletions(old, new));
    lemma_flat_map_empty(new.housings, housing_edits(old, new));
    assert forall|id: Id| same_housing(#[trigger] find_housing(new.housings, id), find_housing(old.housings, id)) by {
        lemma_housing_pos(new.housings, id);
        lemma_housing_pos(old.housings, id);
        if housing_pos(new.housings, id) != -1 {
            let j = housing_pos(new.housings, id);
            assert(housing_edits(old, new)(new.housings[j]).len() == 0);
        } else if housing_pos(old.housings, id) != -1 {
            let k = housing_pos(old.housings, id);
            assert(housing_deletions(old, new)(old.housings[k]).len() == 0);
        }
    }
}

/// Two lookups by id find the same group content, or both find none.
pub open spec fn same_group(x: Option<Group>, y: Option<Group>) -> bool {
    match (x, y) {
        (None, None) => true,
        (Some(p), Some(q)) => p.id == q.id && p.name@ == q.name@ && p.color@ == q.color@,
        _ => false,
    }
}

/// Every id finds the same group content in `a` as in `b`.
pub open spec fn groups_agree(a: Seq<Group>, b: Seq<Group>) -> bool {
    forall|id: Id| same_group(#[trigger] find_group(a, id), find_group(b, id))
}

/// Two lookups by id find the same person content, or both find none.
pub open spec fn same_person(x: Option<Person>, y: Option<Person>) -> bool {
    match (x, y) {
        (None, None) => true,
        (Some(p), Some(q)) => p.id == q.id && p.name@ == q.name@ && p.group == q.group,
        _ => false,
    }
}

/// Every id finds the same person content in `a` as in `b`.
pub open spec fn persons_agree(a: Seq<Person>, b: Seq<Person>) -> bool {
    forall|id: Id| same_person(#[trigger] find_person(a, id), find_person(b, id))
}

/// Every id finds the same stay in `a` as in `b`.
pub open spec fn stays_agree(a: Seq<Stay>, b: Seq<Stay>) -> bool {
    forall|id: Id| #[trigger] find_stay(a, id) == find_stay(b, id)
}

/// Every id finds the same housing, group, person and stay content in `a` as
/// in `b`: the two plans hold the same entities, whatever their order.
pub open spec fn plans_agree(a: PlanModel, b: PlanModel) -> bool {
    &&& housings_agree(a.housings, b.housings)
    &&& groups_agree(a.groups, b.groups)
    &&& persons_agree(a.persons, b.persons)
    &&& stays_agree(a.stays, b.stays)
}

/// Looking up an id after appending a group.
proof fn lemma_find_group_push(s: Seq<Group>, e: Group, id: Id)
    ensures
        find_group(s.push(e), id) == match find_group(s, id) {
            Some(x) => Some(x),
            None => if e.id == id { Some(e) } else { None },
        },
{
    let t = s.push(e);
    lemma_group_pos(s, id);
    lemma_group_pos(t, id);
    if group_pos(s, id) != -1 {
        let k = group_pos(s, id);
        assert(t[k] == s[k]);
        if group_pos(t, id) < k {
            assert(t[group_pos(t, id)] == s[group_pos(t, id)]);
        }
        assert(group_pos(t, id) == k);
    } else if e.id == id {
        assert(t[s.len() as int] == e);
        if group_pos(t, id) != -1 && group_pos(t, id) < s.len() {
            assert(t[group_pos(t, id)] == s[group_pos(t, id)]);
        }
    } else {
        if group_pos(t, id) != -1 {
            assert(group_pos(t, id) < s.len());
            assert(t[group_pos(t, id)] == s[group_pos(t, id)]);
        }
    }
}

/// Dropping the groups with id `x` leaves every other lookup as it was and
/// finds none with `x`.
proof fn lemma_find_without_group(s: Seq<Group>, x: Id, id: Id)
    ensures
        find_group(without_group(s, x), id) == if id == x { None } else { find_group(s, id) },
    decreases s.len(),
{
    if s.len() == 0 {
        lemma_group_pos(s, id);
    } else {
        let d = s.drop_last();
        lemma_find_without_group(d, x, id);
        lemma_find_group_push(d, s.last(), id);
        assert(d.push(s.last()) =~= s);
        if s.last().id != x {
            lemma_find_group_push(without_group(d, x), s.last(), id);
        }
    }
}

/// Looking up an id after appending a person.
proof fn lemma_find_person_push(s: Seq<Person>, e: Person, id: Id)
    ensures
        find_person(s.push(e), id) == match find_person(s, id) {
            Some(x) => Some(x),
            None => if e.id == id { Some(e) } else { None },
        },
{
    let t = s.push(e);
    lemma_person_pos(s, id);
    lemma_person_pos(t, id);
    if person_pos(s, id) != -1 {
        let k = person_pos(s, id);
        assert(t[k] == s[k]);
        if person_pos(t, id) < k {
            assert(t[person_pos(t, id)] == s[person_pos(t, id)]);
        }
        assert(person_pos(t, id) == k);
    } else if e.id == id {
        assert(t[s.len() as int] == e);
        if person_pos(t, id) != -1 && person_pos(t, id) < s.len() {
            assert(t[person_pos(t, id)] == s[person_pos(t, id)]);
        }
    } else {
        if person_pos(t, id) != -1 {
            assert(person_pos(t, id) < s.len());
            assert(t[person_pos(t, id)] == s[person_pos(t, id)]);
        }
    }
}

/// Dropping the persons with id `x` leaves every other lookup as it was and
/// finds none with `x`.
proof fn lemma_find_without_person(s: Seq<Person>, x: Id, id: Id)
    ensures
        find_person(without_person(s, x), id) == if id == x { None } else { find_person(s, id) },
    decreases s.len(),
{
    if s.len() == 0 {
        lemma_person_pos(s, id);
    } else {
        let d = s.drop_last();
        lemma_find_without_person(d, x, id);
        lemma_find_person_push(d, s.last(), id);
        assert(d.push(s.last()) =~= s);
        if s.last().id != x {
            lemma_find_person_push(without_person(d, x), s.last(), id);
        }
    }
}

/// Looking up an id after appending a stay.
proof fn lemma_find_stay_push(s: Seq<Stay>, e: Stay, id: Id)
    ensures
        find_stay(s.push(e), id) == match find_stay(s, id) {
            Some(x) => Some(x),
            None => if e.id == id { Some(e) } else { None },
        },
{
    let t = s.push(e);
    lemma_stay_pos(s, id);
    lemma_stay_pos(t, id);
    if stay_pos(s, id) != -1 {
        let k = stay_pos(s, id);
        assert(t[k] == s[k]);
        if stay_pos(t, id) < k {
            assert(t[stay_pos(t, id)] == s[stay_pos(t, id)]);
        }
        assert(stay_pos(t, id) == k);
    } else if e.id == id {
        assert(t[s.len() as int] == e);
        if stay_pos(t, id) != -1 && stay_pos(t, id) < s.len() {
            assert(t[stay_pos(t, id)] == s[stay_pos(t, id)]);
        }
    } else {
        if stay_pos(t, id) != -1 {
            assert(stay_pos(t, id) < s.len());
            assert(t[stay_pos(t, id)] == s[stay_pos(t, id)]);
        }
    }
}

/// Dropping the stays with id `x` leaves every other lookup as it was and
/// finds none with `x`.
proof fn lemma_find_without_stay(s: Seq<Stay>, x: Id, id: Id)
    ensures
        find_stay(without_stay(s, x), id) == if id == x { None } else { find_stay(s, id) },
    decreases s.len(),
{
    if s.len() == 0 {
        lemma_stay_pos(s, id);
    } else {
        let d = s.drop_last();
        lemma_find_without_stay(d, x, id);
        lemma_find_stay_push(d, s.last(), id);
        assert(d.push(s.last()) =~= s);
        if s.last().id != x {
            lemma_find_stay_push(without_stay(d, x), s.last(), id);
        }
    }
}

/// When the diff reports nothing about groups, every id finds the same
/// group content in both plans.
proof fn lemma_groups_unchanged(old: PlanModel, new: PlanModel)
    requires
        flat_map(old.groups, group_deletions(old, new)).len() == 0,
        flat_map(new.groups, group_edits(old, new)).len() == 0,
    ensures
        groups_agree(new.groups, old.groups),
{
    lemma_flat_map_empty(old.groups, group_deletions(old, new));
    lemma_flat_map_empty(new.groups, group_edits(old, new));
    assert forall|id: Id| same_group(#[trigger] find_group(new.groups, id), find_group(old.groups, id)) by {
        lemma_group_pos(new.groups, id);
        lemma_group_pos(old.groups, id);
        if group_pos(new.groups, id) != -1 {
            let j = group_pos(new.groups, id);
            assert(group_edits(old, new)(new.groups[j]).len() == 0);
        } else if group_pos(old.groups, id) != -1 {
            let k = group_pos(old.groups, id);
            assert(group_deletions(old, new)(old.groups[k]).len() == 0);
        }
    }
}

/// With no group removed, no person counts as detached from one.
proof fn lemma_no_detached(old: PlanModel, new: PlanModel, pid: Id)
    requires
        flat_map(old.groups, group_deletions(old, new)).len() == 0,
    ensures
        !detached(old, new, pid),
{
    lemma_flat_map_empty(old.groups, group_deletions(old, new));
    if detached(old, new, pid) {
        let j = choose|j: int|
            0 <= j < old.groups.len() && crate::journal::group_removed(old, new, (#[trigger] old.groups[j]).id)
                && crate::model::member_ids(old.persons, old.groups[j].id).contains(pid);
        assert(group_deletions(old, new)(old.groups[j]).len() == 0);
    }
}

/// With no housing, group or person removed, no stay's removal is folded into
/// a deletion.
proof fn lemma_no_cascades(old: PlanModel, new: PlanModel, sid: Id)
    requires
        flat_map(old.housings, housing_deletions(old, new)).len() == 0,
        flat_map(old.groups, group_deletions(old, new)).len() == 0,
        flat_map(old.persons, person_deletions(old, new)).len() == 0,
    ensures
        !cascaded_ids(old, new).contains(sid),
{
    lemma_flat_map_empty(old.housings, housing_deletions(old, new));
    lemma_flat_map_empty(old.groups, group_deletions(old, new));
    lemma_flat_map_empty(old.persons, person_deletions(old, new));
    if cascaded_ids(old, new).contains(sid) {
        let k = choose|k: int|
            0 <= k < old.stays.len() && (#[trigger] old.stays[k]).id == sid
                && crate::journal::stay_cascades(old, new, old.stays[k]);
        let st = old.stays[k];
        if crate::journal::housing_removed(old, new, st.housing) {
            lemma_housing_pos(old.housings, st.housing);
            assert(housing_deletions(old, new)(old.housings[housing_pos(old.housings, st.housing)]).len() == 0);
        } else {
            match st.subject {
                crate::model::Subject::Group(gid) => {
                    lemma_group_pos(old.groups, gid);
                    assert(group_deletions(old, new)(old.groups[group_pos(old.groups, gid)]).len() == 0);
                },
                crate::model::Subject::Person(q) => {
                    lemma_person_pos(old.persons, q);
                    assert(person_deletions(old, new)(old.persons[person_pos(old.persons, q)]).len() == 0);
                },
            }
        }
    }
}

/// When the diff reports nothing about persons and no group was removed, every
/// id finds the same person content in both plans.
proof fn lemma_persons_unchanged(old: PlanModel, new: PlanModel)
    requires
        flat_map(old.persons, person_deletions(old, new)).len() == 0,
        flat_map(new.persons, person_edits(old, new)).len() == 0,
        flat_map(old.groups, group_deletions(old, new)).len() == 0,
    ensures
        persons_agree(new.persons, old.persons),
{
    lemma_flat_map_empty(old.persons, person_deletions(old, new));
    lemma_flat_map_empty(new.persons, person_edits(old, new));
    assert forall|id: Id| same_person(#[trigger] find_person(new.persons, id), find_person(old.persons, id)) by {
        lemma_person_pos(new.persons, id);
        lemma_person_pos(old.persons, id);
        lemma_no_detached(old, new, id);
        if person_pos(new.persons, id) != -1 {
            let j = person_pos(new.persons, id);
            assert(person_edits(old, new)(new.persons[j]).len() == 0);
        } else if person_pos(old.persons, id) != -1 {
            let k = person_pos(old.persons, id);
            assert(person_deletions(old, new)(old.persons[k]).len() == 0);
        }
    }
}

/// When the diff reports nothing at all about stays and nothing was removed
/// that stays depend on, every id finds the same stay in both plans.
proof fn lemma_stays_unchanged(old: PlanModel, new: PlanModel)
    requires
        flat_map(old.stays, stay_removals(old, new)).len() == 0,
        flat_map(new.stays, stay_edits(old, new)).len() == 0,
        flat_map(old.housings, housing_deletions(old, new)).len() == 0,
        flat_map(old.groups, group_deletions(old, new)).len() == 0,
        flat_map(old.persons, person_deletions(old, new)).len() == 0,
    ensures
        stays_agree(new.stays, old.stays),
{
    lemma_flat_map_empty(old.stays, stay_removals(old, new));
    lemma_flat_map_empty(new.stays, stay_edits(old, new));
    assert forall|id: Id| #[trigger] find_stay(new.stays, id) == find_stay(old.stays, id) by {
        lemma_stay_pos(new.stays, id);
        lemma_stay_pos(old.stays, id);
        lemma_no_cascades(old, new, id);
        if stay_pos(new.stays, id) != -1 {
            let j = stay_pos(new.stays, id);
            assert(stay_edits(old, new)(new.stays[j]).len() == 0);
        } else if stay_pos(old.stays, id) != -1 {
            let k = stay_pos(old.stays, id);
            assert(stay_removals(old, new)(old.stays[k]).len() == 0);
        }
    }
}

/// A flattened list with exactly one change has it from exactly one element.
proof fn lemma_flat_map_one<A>(s: Seq<A>, f: spec_fn(A) -> Seq<ChangeView>) -> (i: int)
    requires
        flat_map(s, f).len() == 1,
    ensures
        0 <= i < s.len(),
        f(s[i]).len() == 1,
        forall|j: int| 0 <= j < s.len() && j != i ==> (#[trigger] f(s[j])).len() == 0,
        flat_map(s, f) == f(s[i]),
    decreases s.len(),
{
    let d = s.drop_last();
    if f(s.last()).len() == 1 {
        lemma_flat_map_empty(d, f);
        assert forall|j: int| 0 <= j < s.len() && j != s.len() - 1 implies (#[trigger] f(s[j])).len() == 0 by {
            assert(s[j] == d[j]);
        }
        assert(flat_map(s, f) =~= f(s[s.len() - 1]));
        s.len() - 1
    } else {
        let i = lemma_flat_map_one(d, f);
        assert(s[i] == d[i]);
        assert forall|j: int| 0 <= j < s.len() && j != i implies (#[trigger] f(s[j])).len() == 0 by {
            if j < s.len() - 1 {
                assert(s[j] == d[j]);
            }
        }
        assert(flat_map(s, f) =~= f(s[i]));
        i
    }
}

/// Replacing the housing at `k` by one with the same id: the lookup of that id
/// finds the new one, every other lookup is unchanged.
proof fn lemma_find_housing_update(s: Seq<Housing>, k: int, e: Housing, id: Id)
    requires
        0 <= k < s.len(),
        e.id == s[k].id,
    ensures
        find_housing(s.update(k, e), id) == if housing_pos(s, id) == k { Some(e) } else { find_housing(s, id) },
{
    let u = s.update(k, e);
    lemma_housing_pos(s, id);
    lemma_housing_pos(u, id);
    assert forall|j: int| 0 <= j < s.len() implies (#[trigger] u[j]).id == s[j].id by {}
    if housing_pos(s, id) != -1 {
        let p = housing_pos(s, id);
        if housing_pos(u, id) != -1 && housing_pos(u, id) < p {
            assert(u[housing_pos(u, id)].id == s[housing_pos(u, id)].id);
        }
        assert(u[p].id == id);
        assert(housing_pos(u, id) == p);
    } else {
        if housing_pos(u, id) != -1 {
            assert(u[housing_pos(u, id)].id == s[housing_pos(u, id)].id);
        }
    }
}

/// Where the diff reports nothing about housings other than `x`, every other id
/// finds the same housing content in both plans.
proof fn lemma_housings_agree_except(old: PlanModel, new: PlanModel, x: Id)
    requires
        forall|j: int| 0 <= j < old.housings.len() && (#[trigger] old.housings[j]).id != x
            ==> housing_deletions(old, new)(old.housings[j]).len() == 0,
        forall|j: int| 0 <= j < new.housings.len() && (#[trigger] new.housings[j]).id != x
            ==> housing_edits(old, new)(new.housings[j]).len() == 0,
    ensures
        forall|id: Id| id != x ==> same_housing(#[trigger] find_housing(new.housings, id), find_housing(old.housings, id)),
{
    assert forall|id: Id| id != x implies same_housing(#[trigger] find_housing(new.housings, id), find_housing(old.housings, id)) by {
        lemma_housing_pos(new.housings, id);
        lemma_housing_pos(old.housings, id);
        if housing_pos(new.housings, id) != -1 {
            let j = housing_pos(new.housings, id);
            assert(housing_edits(old, new)(new.housings[j]).len() == 0);
        } else if housing_pos(old.housings, id) != -1 {
            let k = housing_pos(old.housings, id);
            assert(housing_deletions(old, new)(old.housings[k]).len() == 0);
        }
    }
}

/// Replacing the group at `k` by one with the same id: the lookup of that id
/// finds the new one, every other lookup is unchanged.
proof fn lemma_find_group_update(s: Seq<Group>, k: int, e: Group, id: Id)
    requires
        0 <= k < s.len(),
        e.id == s[k].id,
    ensures
        find_group(s.update(k, e), id) == if group_pos(s, id) == k { Some(e) } else { find_group(s, id) },
{
    let u = s.update(k, e);
    lemma_group_pos(s, id);
    lemma_group_pos(u, id);
    assert forall|j: int| 0 <= j < s.len() implies (#[trigger] u[j]).id == s[j].id by {}
    if group_pos(s, id) != -1 {
        let p = group_pos(s, id);
        if group_pos(u, id) != -1 && group_pos(u, id) < p {
            assert(u[group_pos(u, id)].id == s[group_pos(u, id)].id);
        }
        assert(u[p].id == id);
        assert(group_pos(u, id) == p);
    } else {
        if group_pos(u, id) != -1 {
            assert(u[group_pos(u, id)].id == s[group_pos(u, id)].id);
        }
    }
}

/// Where the diff reports nothing about groups other than `x`, every other id
/// finds the same group content in both plans.
proof fn lemma_groups_agree_except(old: PlanModel, new: PlanModel, x: Id)
    requires
        forall|j: int| 0 <= j < old.groups.len() && (#[trigger] old.groups[j]).id != x
            ==> group_deletions(old, new)(old.groups[j]).len() == 0,
        forall|j: int| 0 <= j < new.groups.len() && (#[trigger] new.groups[j]).id != x
            ==> group_edits(old, new)(new.groups[j]).len() == 0,
    ensures
        forall|id: Id| id != x ==> same_group(#[trigger] find_group(new.groups, id), find_group(old.groups, id)),
{
    assert forall|id: Id| id != x implies same_group(#[trigger] find_group(new.groups, id), find_group(old.groups, id)) by {
        lemma_group_pos(new.groups, id);
        lemma_group_pos(old.groups, id);
        if group_pos(new.groups, id) != -1 {
            let j = group_pos(new.groups, id);
            assert(group_edits(old, new)(new.groups[j]).len() == 0);
        } else if group_pos(old.groups, id) != -1 {
            let k = group_pos(old.groups, id);
            assert(group_deletions(old, new)(old.groups[k]).len() == 0);
        }
    }
}

/// Replacing the person at `k` by one with the same id: the lookup of that id
/// finds the new one, every other lookup is unchanged.
proof fn lemma_find_person_update(s: Seq<Person>, k: int, e: Person, id: Id)
    requires
        0 <= k < s.len(),
        e.id == s[k].id,
    ensures
        find_person(s.update(k, e), id) == if person_pos(s, id) == k { Some(e) } else { find_person(s, id) },
{
    let u = s.update(k, e);
    lemma_person_pos(s, id);
    lemma_person_pos(u, id);
    assert forall|j: int| 0 <= j < s.len() implies (#[trigger] u[j]).id == s[j].id by {}
    if person_pos(s, id) != -1 {
        let p = person_pos(s, id);
        if person_pos(u, id) != -1 && person_pos(u, id) < p {
            assert(u[person_pos(u, id)].id == s[person_pos(u, id)].id);
        }
        assert(u[p].id == id);
        assert(person_pos(u, id) == p);
    } else {
        if person_pos(u, id) != -1 {
            assert(u[person_pos(u, id)].id == s[person_pos(u, id)].id);
        }
    }
}

/// Where the diff reports nothing about persons other than `x`, every other id
/// finds the same person content in both plans.
proof fn lemma_persons_agree_except(old: PlanModel, new: PlanModel, x: Id)
    requires
        forall|j: int| 0 <= j < old.persons.len() && (#[trigger] old.persons[j]).id != x
            ==> person_deletions(old, new)(old.persons[j]).len() == 0,
        forall|j: int| 0 <= j < new.persons.len() && (#[trigger] new.persons[j]).id != x
            ==> person_edits(old, new)(new.persons[j]).len() == 0,
        forall|pid: Id| pid != x ==> !#[trigger] detached(old, new, pid),
    ensures
        forall|id: Id| id != x ==> same_person(#[trigger] find_person(new.persons, id), find_person(old.persons, id)),
{
    assert forall|id: Id| id != x implies same_person(#[trigger] find_person(new.persons, id), find_person(old.persons, id)) by {
        lemma_person_pos(new.persons, id);
        lemma_person_pos(old.persons, id);
        if person_pos(new.persons, id) != -1 {
            let j = person_pos(new.persons, id);
            assert(person_edits(old, new)(new.persons[j]).len() == 0);
        } else if person_pos(old.persons, id) != -1 {
            let k = person_pos(old.persons, id);
            assert(person_deletions(old, new)(old.persons[k]).len() == 0);
        }
    }
}

/// Replacing the stay at `k` by one with the same id: the lookup of that id
/// finds the new one, every other lookup is unchanged.
proof fn lemma_find_stay_update(s: Seq<Stay>, k: int, e: Stay, id: Id)
    requires
        0 <= k < s.len(),
        e.id == s[k].id,
    ensures
        find_stay(s.update(k, e), id) == if stay_pos(s, id) == k { Some(e) } else { find_stay(s, id) },
{
    let u = s.update(k, e);
    lemma_stay_pos(s, id);
    lemma_stay_pos(u, id);
    assert forall|j: int| 0 <= j < s.len() implies (#[trigger] u[j]).id == s[j].id by {}
    if stay_pos(s, id) != -1 {
        let p = stay_pos(s, id);
        if stay_pos(u, id) != -1 && stay_pos(u, id) < p {
            assert(u[stay_pos(u, id)].id == s[stay_pos(u, id)].id);
        }
        assert(u[p].id == id);
        assert(stay_pos(u, id) == p);
    } else {
        if stay_pos(u, id) != -1 {
            assert(u[stay_pos(u, id)].id == s[stay_pos(u, id)].id);
        }
    }
}

/// Looking up an id in a concatenation: the first list wins.
proof fn lemma_find_stay_concat(s: Seq<Stay>, t: Seq<Stay>, id: Id)
    ensures
        find_stay(s + t, id) == match find_stay(s, id) {
            Some(x) => Some(x),
            None => find_stay(t, id),
        },
    decreases t.len(),
{
    if t.len() == 0 {
        assert(s + t =~= s);
        lemma_stay_pos(t, id);
    } else {
        let d = t.drop_last();
        lemma_find_stay_concat(s, d, id);
        assert(s + t =~= (s + d).push(t.last()));
        assert(d.push(t.last()) =~= t);
        lemma_find_stay_push(s + d, t.last(), id);
        lemma_find_stay_push(d, t.last(), id);
    }
}

/// Stays come back: when the diff reports no stay change of its own, putting
/// back after `new`'s stays exactly the stays of `old` whose removal was folded
/// into a deletion (`extra`) gives every id the stay it had in `old` — as long
/// as `old` repeats no stay id and `new` keeps none of the put-back ids.
proof fn lemma_stays_restored(old: PlanModel, new: PlanModel, extra: Seq<Stay>)
    requires
        forall|i: int, j: int| 0 <= i < j < old.stays.len() ==> (#[trigger] old.stays[i]).id != (#[trigger] old.stays[j]).id,
        flat_map(old.stays, stay_removals(old, new)).len() == 0,
        flat_map(new.stays, stay_edits(old, new)).len() == 0,
        forall|x: Stay| #[trigger] extra.contains(x) <==> (old.stays.contains(x) && cascaded_ids(old, new).contains(x.id)),
        forall|i: int, k: int| 0 <= i < new.stays.len() && 0 <= k < extra.len() ==> (#[trigger] new.stays[i]).id != (#[trigger] extra[k]).id,
    ensures
        stays_agree(new.stays + extra, old.stays),
{
    lemma_flat_map_empty(old.stays, stay_removals(old, new));
    lemma_flat_map_empty(new.stays, stay_edits(old, new));
    assert forall|id: Id| #[trigger] find_stay(new.stays + extra, id) == find_stay(old.stays, id) by {
        lemma_find_stay_concat(new.stays, extra, id);
        lemma_stay_pos(new.stays, id);
        lemma_stay_pos(old.stays, id);
        lemma_stay_pos(extra, id);
        if stay_pos(new.stays, id) != -1 {
            let j = stay_pos(new.stays, id);
            let n = new.stays[j];
            assert(stay_edits(old, new)(n).len() == 0);
            if cascaded_ids(old, new).contains(id) {
                let k = choose|k: int|
                    0 <= k < old.stays.len() && (#[trigger] old.stays[k]).id == id
                        && crate::journal::stay_cascades(old, new, old.stays[k]);
                assert(old.stays.contains(old.stays[k]));
                assert(extra.contains(old.stays[k]));
                let e = choose|e: int| 0 <= e < extra.len() && extra[e] == old.stays[k];
                assert(new.stays[j].id != extra[e].id);
            }
        } else if stay_pos(old.stays, id) != -1 {
            let k = stay_pos(old.stays, id);
            let o = old.stays[k];
            assert(stay_removals(old, new)(o).len() == 0);
            assert(old.stays.contains(o));
            assert(extra.contains(o));
            let e = choose|e: int| 0 <= e < extra.len() && extra[e] == o;
            let f = stay_pos(extra, id);
            assert(0 <= f <= e);
            assert(extra.contains(extra[f]));
            let m = choose|m: int| 0 <= m < old.stays.len() && old.stays[m] == extra[f];
            if m != k {
                if m < k {
                    assert(old.stays[m].id != old.stays[k].id);
                } else {
                    assert(old.stays[k].id != old.stays[m].id);
                }
            }
        } else {
            if stay_pos(extra, id) != -1 {
                let f = stay_pos(extra, id);
                assert(extra.contains(extra[f]));
                let m = choose|m: int| 0 <= m < old.stays.len() && old.stays[m] == extra[f];
                assert(old.stays[m].id == id);
            }
        }
    }
}

/// The stays an inverse operation puts back along with a deleted entity.
pub open spec fn carried_stays(op: InverseOpView) -> Seq<Stay> {
    match op {
        InverseOpView::InsertHousing { stays, .. } => stays,
        InverseOpView::InsertGroup { stays, .. } => stays,
        InverseOpView::InsertPerson { stays, .. } => stays,
        _ => Seq::empty(),
    }
}

/// The eight parts of the diff, in journal order.
spec fn parts(old: PlanModel, new: PlanModel) -> Seq<Seq<ChangeView>> {
    seq![
        flat_map(old.housings, housing_deletions(old, new)),
        flat_map(new.housings, housing_edits(old, new)),
        flat_map(old.groups, group_deletions(old, new)),
        flat_map(new.groups, group_edits(old, new)),
        flat_map(old.persons, person_deletions(old, new)),
        flat_map(new.persons, person_edits(old, new)),
        flat_map(old.stays, stay_removals(old, new)),
        flat_map(new.stays, stay_edits(old, new)),
    ]
}

/// Every part of the diff but part `q` is empty.
spec fn only_part(old: PlanModel, new: PlanModel, q: int) -> bool {
    forall|r: int| 0 <= r < 8 && r != q ==> (#[trigger] parts(old, new)[r]).len() == 0
}

/// A single added or edited housing: undoing it restores every entity.
proof fn lemma_undo_housing_edit(old: PlanModel, new: PlanModel)
    requires
        ids_unique(new),
        only_part(old, new, 1),
        parts(old, new)[1].len() == 1,
        changes_between(old, new) == parts(old, new)[1],
    ensures
        plans_agree(after_inverse(new, changes_between(old, new)[0].inverse), old),
{
    let ps = parts(old, new);
    assert(ps[0].len() == 0 && ps[2].len() == 0 && ps[3].len() == 0 && ps[4].len() == 0);
    assert(ps[5].len() == 0 && ps[6].len() == 0 && ps[7].len() == 0);
    lemma_groups_unchanged(old, new);
    lemma_no_detached(old, new, 0);
    lemma_persons_unchanged(old, new);
    lemma_stays_unchanged(old, new);
    lemma_flat_map_empty(old.housings, housing_deletions(old, new));
    let i = lemma_flat_map_one(new.housings, housing_edits(old, new));
    let h = new.housings[i];
    assert forall|j: int| 0 <= j < new.housings.len() && (#[trigger] new.housings[j]).id != h.id
        implies housing_edits(old, new)(new.housings[j]).len() == 0 by {
        assert(j != i);
    }
    lemma_housings_agree_except(old, new, h.id);
    lemma_housing_pos(new.housings, h.id);
    let k = housing_pos(new.housings, h.id);
    if k != i {
        if k < i {
            assert(new.housings[k].id != new.housings[i].id);
        } else {
            assert(new.housings[i].id != new.housings[k].id);
        }
    }
    let op = changes_between(old, new)[0].inverse;
    let after = after_inverse(new, op);
    lemma_housing_pos(old.housings, h.id);
    match find_housing(old.housings, h.id) {
        None => {
            assert(op == InverseOpView::RemoveHousing { id: h.id });
            assert forall|id: Id| same_housing(#[trigger] find_housing(after.housings, id), find_housing(old.housings, id)) by {
                lemma_find_without_housing(new.housings, h.id, id);
            }
        },
        Some(o) => {
            let e = if o.name@ != h.name@ {
                assert(op == InverseOpView::SetHousingName { id: h.id, name: o.name });
                Housing { name: o.name, ..h }
            } else if o.capacity != h.capacity {
                assert(op == InverseOpView::SetHousingCapacity { id: h.id, capacity: o.capacity });
                Housing { capacity: o.capacity, ..h }
            } else {
                assert(op == InverseOpView::SetHousingNotes { id: h.id, notes: o.notes });
                Housing { notes: o.notes, ..h }
            };
            assert(after.housings == new.housings.update(k, e));
            assert forall|id: Id| same_housing(#[trigger] find_housing(after.housings, id), find_housing(old.housings, id)) by {
                lemma_find_housing_update(new.housings, k, e, id);
            }
        },
    }
    assert(after.groups == new.groups && after.persons == new.persons && after.stays == new.stays);
}

/// A single added or edited group: undoing it restores every entity.
proof fn lemma_undo_group_edit(old: PlanModel, new: PlanModel)
    requires
        ids_unique(new),
        only_part(old, new, 3),
        parts(old, new)[3].len() == 1,
        changes_between(old, new) == parts(old, new)[3],
    ensures
        plans_agree(after_inverse(new, changes_between(old, new)[0].inverse), old),
{
    let ps = parts(old, new);
    assert(ps[0].len() == 0 && ps[1].len() == 0 && ps[2].len() == 0 && ps[4].len() == 0);
    assert(ps[5].len() == 0 && ps[6].len() == 0 && ps[7].len() == 0);
    lemma_housings_unchanged(old, new);
    lemma_persons_unchanged(old, new);
    lemma_stays_unchanged(old, new);
    lemma_flat_map_empty(old.groups, group_deletions(old, new));
    let i = lemma_flat_map_one(new.groups, group_edits(old, new));
    let g = new.groups[i];
    assert forall|j: int| 0 <= j < new.groups.len() && (#[trigger] new.groups[j]).id != g.id
        implies group_edits(old, new)(new.groups[j]).len() == 0 by {
        assert(j != i);
    }
    lemma_groups_agree_except(old, new, g.id);
    lemma_group_pos(new.groups, g.id);
    let k = group_pos(new.groups, g.id);
    if k != i {
        if k < i {
            assert(new.groups[k].id != new.groups[i].id);
        } else {
            assert(new.groups[i].id != new.groups[k].id);
        }
    }
    let op = changes_between(old, new)[0].inverse;
    let after = after_inverse(new, op);
    lemma_group_pos(old.groups, g.id);
    match find_group(old.groups, g.id) {
        None => {
            assert(op == InverseOpView::RemoveGroup { id: g.id });
            assert forall|id: Id| same_group(#[trigger] find_group(after.groups, id), find_group(old.groups, id)) by {
                lemma_find_without_group(new.groups, g.id, id);
            }
        },
        Some(o) => {
            let e = if o.name@ != g.name@ {
                assert(op == InverseOpView::SetGroupName { id: g.id, name: o.name });
                Group { name: o.name, ..g }
            } else {
                assert(op == InverseOpView::SetGroupColor { id: g.id, color: o.color });
                Group { color: o.color, ..g }
            };
            assert(after.groups == new.groups.update(k, e));
            assert forall|id: Id| same_group(#[trigger] find_group(after.groups, id), find_group(old.groups, id)) by {
                lemma_find_group_update(new.groups, k, e, id);
            }
        },
    }
    assert(after.housings == new.housings && after.persons == new.persons && after.stays == new.stays);
}

/// A single added or edited person: undoing it restores every entity.
proof fn lemma_undo_person_edit(old: PlanModel, new: PlanModel)
    requires
        ids_unique(new),
        only_part(old, new, 5),
        parts(old, new)[5].len() == 1,
        changes_between(old, new) == parts(old, new)[5],
    ensures
        plans_agree(after_inverse(new, changes_between(old, new)[0].inverse), old),
{
    let ps = parts(old, new);
    assert(ps[0].len() == 0 && ps[1].len() == 0 && ps[2].len() == 0 && ps[3].len() == 0);
    assert(ps[4].len() == 0 && ps[6].len() == 0 && ps[7].len() == 0);
    lemma_housings_unchanged(old, new);
    lemma_groups_unchanged(old, new);
    lemma_stays_unchanged(old, new);
    lemma_flat_map_empty(old.persons, person_deletions(old, new));
    assert forall|pid: Id| pid != 0 || pid == 0 implies !#[trigger] detached(old, new, pid) by {
        lemma_no_detached(old, new, pid);
    }
    let i = lemma_flat_map_one(new.persons, person_edits(old, new));
    let p = new.persons[i];
    assert forall|j: int| 0 <= j < new.persons.len() && (#[trigger] new.persons[j]).id != p.id
        implies person_edits(old, new)(new.persons[j]).len() == 0 by {
        assert(j != i);
    }
    lemma_persons_agree_except(old, new, p.id);
    lemma_person_pos(new.persons, p.id);
    let k = person_pos(new.persons, p.id);
    if k != i {
        if k < i {
            assert(new.persons[k].id != new.persons[i].id);
        } else {
            assert(new.persons[i].id != new.persons[k].id);
        }
    }
    let op = changes_between(old, new)[0].inverse;
    let after = after_inverse(new, op);
    lemma_person_pos(old.persons, p.id);
    match find_person(old.persons, p.id) {
        None => {
            assert(op == InverseOpView::RemovePerson { id: p.id });
            assert forall|id: Id| same_person(#[trigger] find_person(after.persons, id), find_person(old.persons, id)) by {
                lemma_find_without_person(new.persons, p.id, id);
            }
        },
        Some(o) => {
            let e = if o.name@ != p.name@ {
                assert(op == InverseOpView::SetPersonName { id: p.id, name: o.name });
                Person { name: o.name, ..p }
            } else {
                assert(op == InverseOpView::SetPersonGroup { id: p.id, group: o.group });
                Person { group: o.group, ..p }
            };
            assert(after.persons == new.persons.update(k, e));
            assert forall|id: Id| same_person(#[trigger] find_person(after.persons, id), find_person(old.persons, id)) by {
                lemma_find_person_update(new.persons, k, e, id);
            }
        },
    }
    assert(after.housings == new.housings && after.groups == new.groups && after.stays == new.stays);
}

/// Where nothing was deleted and the diff reports nothing about stays other
/// than `x`, every other id finds the same stay in both plans.
proof fn lemma_stays_agree_except(old: PlanModel, new: PlanModel, x: Id)
    requires
        flat_map(old.housings, housing_deletions(old, new)).len() == 0,
        flat_map(old.groups, group_deletions(old, new)).len() == 0,
        flat_map(old.persons, person_deletions(old, new)).len() == 0,
        forall|j: int| 0 <= j < old.stays.len() && (#[trigger] old.stays[j]).id != x
            ==> stay_removals(old, new)(old.stays[j]).len() == 0,
        forall|j: int| 0 <= j < new.stays.len() && (#[trigger] new.stays[j]).id != x
            ==> stay_edits(old, new)(new.stays[j]).len() == 0,
    ensures
        forall|id: Id| id != x ==> #[trigger] find_stay(new.stays, id) == find_stay(old.stays, id),
{
    assert forall|id: Id| id != x implies #[trigger] find_stay(new.stays, id) == find_stay(old.stays, id) by {
        lemma_stay_pos(new.stays, id);
        lemma_stay_pos(old.stays, id);
        lemma_no_cascades(old, new, id);
        if stay_pos(new.stays, id) != -1 {
            let j = stay_pos(new.stays, id);
            assert(stay_edits(old, new)(new.stays[j]).len() == 0);
        } else if stay_pos(old.stays, id) != -1 {
            let k = stay_pos(old.stays, id);
            assert(stay_removals(old, new)(old.stays[k]).len() == 0);
        }
    }
}

/// A single removed stay: undoing it restores every entity.
proof fn lemma_undo_stay_removal(old: PlanModel, new: PlanModel)
    requires
        ids_unique(old),
        only_part(old, new, 6),
        parts(old, new)[6].len() == 1,
        changes_between(old, new) == parts(old, new)[6],
    ensures
        plans_agree(after_inverse(new, changes_between(old, new)[0].inverse), old),
{
    let ps = parts(old, new);
    assert(ps[0].len() == 0 && ps[1].len() == 0 && ps[2].len() == 0 && ps[3].len() == 0);
    assert(ps[4].len() == 0 && ps[5].len() == 0 && ps[7].len() == 0);
    lemma_housings_unchanged(old, new);
    lemma_groups_unchanged(old, new);
    lemma_persons_unchanged(old, new);
    lemma_flat_map_empty(new.stays, stay_edits(old, new));
    let i = lemma_flat_map_one(old.stays, stay_removals(old, new));
    let o = old.stays[i];
    assert forall|j: int| 0 <= j < old.stays.len() && (#[trigger] old.stays[j]).id != o.id
        implies stay_removals(old, new)(old.stays[j]).len() == 0 by {
        assert(j != i);
    }
    lemma_stays_agree_except(old, new, o.id);
    let op = changes_between(old, new)[0].inverse;
    let after = after_inverse(new, op);
    assert(op == InverseOpView::InsertStay { stay: o });
    assert(after.stays == new.stays.push(o));
    lemma_stay_pos(old.stays, o.id);
    let k = stay_pos(old.stays, o.id);
    if k != i {
        if k < i {
            assert(old.stays[k].id != old.stays[i].id);
        } else {
            assert(old.stays[i].id != old.stays[k].id);
        }
    }
    assert forall|id: Id| #[trigger] find_stay(after.stays, id) == find_stay(old.stays, id) by {
        lemma_find_stay_push(new.stays, o, id);
        lemma_stay_pos(new.stays, id);
    }
    assert(after.housings == new.housings && after.groups == new.groups && after.persons == new.persons);
}

/// A single added or edited stay: undoing it restores every entity.
proof fn lemma_undo_stay_edit(old: PlanModel, new: PlanModel)
    requires
        ids_unique(new),
        only_part(old, new, 7),
        parts(old, new)[7].len() == 1,
        changes_between(old, new) == parts(old, new)[7],
    ensures
        plans_agree(after_inverse(new, changes_between(old, new)[0].inverse), old),
{
    let ps = parts(old, new);
    assert(ps[0].len() == 0 && ps[1].len() == 0 && ps[2].len() == 0 && ps[3].len() == 0);
    assert(ps[4].len() == 0 && ps[5].len() == 0 && ps[6].len() == 0);
    lemma_housings_unchanged(old, new);
    lemma_groups_unchanged(old, new);
    lemma_persons_unchanged(old, new);
    lemma_flat_map_empty(old.stays, stay_removals(old, new));
    let i = lemma_flat_map_one(new.stays, stay_edits(old, new));
    let n = new.stays[i];
    assert forall|j: int| 0 <= j < new.stays.len() && (#[trigger] new.stays[j]).id != n.id
        implies stay_edits(old, new)(new.stays[j]).len() == 0 by {
        assert(j != i);
    }
    lemma_stays_agree_except(old, new, n.id);
    lemma_no_cascades(old, new, n.id);
    lemma_stay_pos(new.stays, n.id);
    let k = stay_pos(new.stays, n.id);
    if k != i {
        if k < i {
            assert(new.stays[k].id != new.stays[i].id);
        } else {
            assert(new.stays[i].id != new.stays[k].id);
        }
    }
    let op = changes_between(old, new)[0].inverse;
    let after = after_inverse(new, op);
    lemma_stay_pos(old.stays, n.id);
    match find_stay(old.stays, n.id) {
        None => {
            assert(op == InverseOpView::RemoveStay { id: n.id });
            assert forall|id: Id| #[trigger] find_stay(after.stays, id) == find_stay(old.stays, id) by {
                lemma_find_without_stay(new.stays, n.id, id);
            }
        },
        Some(o) => {
            let e = if o.housing != n.housing {
                assert(op == InverseOpView::SetStayHousing { id: n.id, housing: o.housing });
                Stay { housing: o.housing, ..n }
            } else if o.subject != n.subject {
                assert(op == InverseOpView::SetStaySubject { id: n.id, subject: o.subject });
                Stay { subject: o.subject, ..n }
            } else {
                assert(op == InverseOpView::SetStayDates { id: n.id, arrival: o.arrival, departure: o.departure });
                Stay { arrival: o.arrival, departure: o.departure, ..n }
            };
            assert(e == o);
            assert(after.stays == new.stays.update(k, e));
            assert forall|id: Id| #[trigger] find_stay(after.stays, id) == find_stay(old.stays, id) by {
                lemma_find_stay_update(new.stays, k, e, id);
            }
        },
    }
    assert(after.housings == new.housings && after.groups == new.groups && after.persons == new.persons);
}

/// A group is removed only where the diff reports its deletion.
proof fn lemma_group_removed_reported(old: PlanModel, new: PlanModel, gid: Id)
    requires
        group_removed(old, new, gid),
    ensures
        group_deletions(old, new)(old.groups[group_pos(old.groups, gid)]).len() == 1,
        0 <= group_pos(old.groups, gid) < old.groups.len(),
        old.groups[group_pos(old.groups, gid)].id == gid,
{
    lemma_group_pos(old.groups, gid);
}

/// A person is removed only where the diff reports their deletion.
proof fn lemma_person_removed_reported(old: PlanModel, new: PlanModel, pid: Id)
    requires
        person_removed(old, new, pid),
    ensures
        person_deletions(old, new)(old.persons[person_pos(old.persons, pid)]).len() == 1,
        0 <= person_pos(old.persons, pid) < old.persons.len(),
        old.persons[person_pos(old.persons, pid)].id == pid,
{
    lemma_person_pos(old.persons, pid);
}

/// A housing is removed only where the diff reports its deletion.
proof fn lemma_housing_removed_reported(old: PlanModel, new: PlanModel, hid: Id)
    requires
        housing_removed(old, new, hid),
    ensures
        housing_deletions(old, new)(old.housings[housing_pos(old.housings, hid)]).len() == 1,
        0 <= housing_pos(old.housings, hid) < old.housings.len(),
        old.housings[housing_pos(old.housings, hid)].id == hid,
{
    lemma_housing_pos(old.housings, hid);
}

/// In a list without repeated stay ids, a stay is found at its own position.
proof fn lemma_unique_stay(ss: Seq<Stay>, m: int, k: int)
    requires
        forall|i: int, j: int| 0 <= i < j < ss.len() ==> (#[trigger] ss[i]).id != (#[trigger] ss[j]).id,
        0 <= m < ss.len(),
        0 <= k < ss.len(),
        ss[m].id == ss[k].id,
    ensures
        m == k,
{
    if m < k {
        assert(ss[m].id != ss[k].id);
    } else if k < m {
        assert(ss[k].id != ss[m].id);
    }
}

/// A single deleted housing: undoing it restores every entity, its stays
/// included, as long as `new` keeps none of the put-back stay ids.
proof fn lemma_undo_housing_deletion(old: PlanModel, new: PlanModel)
    requires
        ids_unique(old),
        only_part(old, new, 0),
        parts(old, new)[0].len() == 1,
        changes_between(old, new) == parts(old, new)[0],
        forall|i: int, k: int|
            0 <= i < new.stays.len() && 0 <= k < carried_stays(changes_between(old, new)[0].inverse).len()
                ==> (#[trigger] new.stays[i]).id != (#[trigger] carried_stays(changes_between(old, new)[0].inverse)[k]).id,
    ensures
        plans_agree(after_inverse(new, changes_between(old, new)[0].inverse), old),
{
    let ps = parts(old, new);
    assert(ps[1].len() == 0 && ps[2].len() == 0 && ps[3].len() == 0 && ps[4].len() == 0);
    assert(ps[5].len() == 0 && ps[6].len() == 0 && ps[7].len() == 0);
    lemma_groups_unchanged(old, new);
    lemma_persons_unchanged(old, new);
    lemma_flat_map_empty(new.housings, housing_edits(old, new));
    lemma_flat_map_empty(old.groups, group_deletions(old, new));
    lemma_flat_map_empty(old.persons, person_deletions(old, new));
    let i = lemma_flat_map_one(old.housings, housing_deletions(old, new));
    let h = old.housings[i];
    assert forall|j: int| 0 <= j < old.housings.len() && (#[trigger] old.housings[j]).id != h.id
        implies housing_deletions(old, new)(old.housings[j]).len() == 0 by {
        assert(j != i);
    }
    lemma_housings_agree_except(old, new, h.id);
    let op = changes_between(old, new)[0].inverse;
    let extra = stays_in_housing(old.stays, h.id);
    assert(op == InverseOpView::InsertHousing { housing: h, stays: extra });
    let after = after_inverse(new, op);
    // Housings: the deleted one is back.
    lemma_housing_pos(old.housings, h.id);
    lemma_housing_pos(new.housings, h.id);
    let k = housing_pos(old.housings, h.id);
    if k != i {
        if k < i {
            assert(old.housings[k].id != old.housings[i].id);
        } else {
            assert(old.housings[i].id != old.housings[k].id);
        }
    }
    assert forall|id: Id| same_housing(#[trigger] find_housing(after.housings, id), find_housing(old.housings, id)) by {
        lemma_find_housing_push(new.housings, h, id);
    }
    // Stays: exactly those in the deleted housing were folded into its deletion.
    lemma_stays_in_housing(old.stays, h.id);
    assert forall|x: Stay| #[trigger] extra.contains(x) <==> (old.stays.contains(x) && cascaded_ids(old, new).contains(x.id)) by {
        if old.stays.contains(x) {
            let m = choose|m: int| 0 <= m < old.stays.len() && old.stays[m] == x;
            if x.housing == h.id {
                assert(stay_cascades(old, new, old.stays[m]));
            }
            if cascaded_ids(old, new).contains(x.id) {
                let c = choose|c: int|
                    0 <= c < old.stays.len() && (#[trigger] old.stays[c]).id == x.id && stay_cascades(old, new, old.stays[c]);
                lemma_unique_stay(old.stays, m, c);
                if housing_removed(old, new, x.housing) {
                    lemma_housing_removed_reported(old, new, x.housing);
                    let q = housing_pos(old.housings, x.housing);
                    if q != i {
                        assert(housing_deletions(old, new)(old.housings[q]).len() == 0);
                    }
                } else {
                    match x.subject {
                        Subject::Group(gid) => {
                            lemma_group_removed_reported(old, new, gid);
                        },
                        Subject::Person(pid) => {
                            lemma_person_removed_reported(old, new, pid);
                        },
                    }
                }
            }
        }
    }
    assert(carried_stays(op) == extra);
    assert forall|i: int, k: int| 0 <= i < new.stays.len() && 0 <= k < extra.len() implies (#[trigger] new.stays[i]).id
        != (#[trigger] extra[k]).id by {
        assert(carried_stays(op)[k] == extra[k]);
    }
    lemma_stays_restored(old, new, extra);
    assert(after.groups == new.groups && after.persons == new.persons);
}

/// A single deleted person: undoing it restores every entity, their stays
/// included, as long as `new` keeps none of the put-back stay ids.
proof fn lemma_undo_person_deletion(old: PlanModel, new: PlanModel)
    requires
        ids_unique(old),
        only_part(old, new, 4),
        parts(old, new)[4].len() == 1,
        changes_between(old, new) == parts(old, new)[4],
        forall|i: int, k: int|
            0 <= i < new.stays.len() && 0 <= k < carried_stays(changes_between(old, new)[0].inverse).len()
                ==> (#[trigger] new.stays[i]).id != (#[trigger] carried_stays(changes_between(old, new)[0].inverse)[k]).id,
    ensures
        plans_agree(after_inverse(new, changes_between(old, new)[0].inverse), old),
{
    let ps = parts(old, new);
    assert(ps[0].len() == 0 && ps[1].len() == 0 && ps[2].len() == 0 && ps[3].len() == 0);
    assert(ps[5].len() == 0 && ps[6].len() == 0 && ps[7].len() == 0);
    lemma_housings_unchanged(old, new);
    lemma_groups_unchanged(old, new);
    lemma_flat_map_empty(new.persons, person_edits(old, new));
    lemma_flat_map_empty(old.groups, group_deletions(old, new));
    lemma_flat_map_empty(old.housings, housing_deletions(old, new));
    assert forall|pid: Id| pid != 0 || pid == 0 implies !#[trigger] detached(old, new, pid) by {
        lemma_no_detached(old, new, pid);
    }
    let i = lemma_flat_map_one(old.persons, person_deletions(old, new));
    let p = old.persons[i];
    assert forall|j: int| 0 <= j < old.persons.len() && (#[trigger] old.persons[j]).id != p.id
        implies person_deletions(old, new)(old.persons[j]).len() == 0 by {
        assert(j != i);
    }
    lemma_persons_agree_except(old, new, p.id);
    let op = changes_between(old, new)[0].inverse;
    let extra = stays_of(old.stays, Subject::Person(p.id));
    assert(op == InverseOpView::InsertPerson { person: p, stays: extra });
    let after = after_inverse(new, op);
    lemma_person_pos(old.persons, p.id);
    lemma_person_pos(new.persons, p.id);
    let k = person_pos(old.persons, p.id);
    if k != i {
        if k < i {
            assert(old.persons[k].id != old.persons[i].id);
        } else {
            assert(old.persons[i].id != old.persons[k].id);
        }
    }
    assert forall|id: Id| same_person(#[trigger] find_person(after.persons, id), find_person(old.persons, id)) by {
        lemma_find_person_push(new.persons, p, id);
    }
    lemma_stays_of(old.stays, Subject::Person(p.id));
    assert forall|x: Stay| #[trigger] extra.contains(x) <==> (old.stays.contains(x) && cascaded_ids(old, new).contains(x.id)) by {
        if old.stays.contains(x) {
            let m = choose|m: int| 0 <= m < old.stays.len() && old.stays[m] == x;
            if x.subject == Subject::Person(p.id) {
                assert(stay_cascades(old, new, old.stays[m]));
            }
            if cascaded_ids(old, new).contains(x.id) {
                let c = choose|c: int|
                    0 <= c < old.stays.len() && (#[trigger] old.stays[c]).id == x.id && stay_cascades(old, new, old.stays[c]);
                lemma_unique_stay(old.stays, m, c);
                if housing_removed(old, new, x.housing) {
                    lemma_housing_removed_reported(old, new, x.housing);
                } else {
                    match x.subject {
                        Subject::Group(gid) => {
                            lemma_group_removed_reported(old, new, gid);
                        },
                        Subject::Person(pid) => {
                            lemma_person_removed_reported(old, new, pid);
                            let q = person_pos(old.persons, pid);
                            if q != i {
                                assert(person_deletions(old, new)(old.persons[q]).len() == 0);
                            }
                        },
                    }
                }
            }
        }
    }
    assert(carried_stays(op) == extra);
    assert forall|i: int, k: int| 0 <= i < new.stays.len() && 0 <= k < extra.len() implies (#[trigger] new.stays[i]).id
        != (#[trigger] extra[k]).id by {
        assert(carried_stays(op)[k] == extra[k]);
    }
    lemma_stays_restored(old, new, extra);
    assert(after.housings == new.housings && after.groups == new.groups);
}

/// Looking up a person after moving the first person with id `x` to `grp`.
proof fn lemma_find_with_person_group(ps: Seq<Person>, x: Id, grp: Option<Id>, id: Id)
    ensures
        find_person(with_person_group(ps, x, grp), id) == match find_person(ps, id) {
            None => None,
            Some(p) => if id == x { Some(Person { group: grp, ..p }) } else { Some(p) },
        },
{
    lemma_person_pos(ps, x);
    lemma_person_pos(ps, id);
    let k = person_pos(ps, x);
    if k >= 0 {
        lemma_find_person_update(ps, k, Person { group: grp, ..ps[k] }, id);
    }
}

/// Looking up a person after moving the listed members to group `gid`: a
/// listed person is found with that group, everyone else as they were.
proof fn lemma_find_with_members(ps: Seq<Person>, members: Seq<Id>, gid: Id, id: Id)
    ensures
        find_person(with_members(ps, members, gid), id) == match find_person(ps, id) {
            None => None,
            Some(p) => if members.contains(id) { Some(Person { group: Some(gid), ..p }) } else { Some(p) },
        },
    decreases members.len(),
{
    if members.len() > 0 {
        let d = members.drop_last();
        lemma_find_with_members(ps, d, gid, id);
        lemma_find_with_person_group(with_members(ps, d, gid), members.last(), Some(gid), id);
        lemma_contains_split_last(members);
    }
}

/// A single deleted group: undoing it restores every entity, its members'
/// membership and its stays included, as long as `new` keeps none of the
/// put-back stay ids.
proof fn lemma_undo_group_deletion(old: PlanModel, new: PlanModel)
    requires
        ids_unique(old),
        only_part(old, new, 2),
        parts(old, new)[2].len() == 1,
        changes_between(old, new) == parts(old, new)[2],
        forall|i: int, k: int|
            0 <= i < new.stays.len() && 0 <= k < carried_stays(changes_between(old, new)[0].inverse).len()
                ==> (#[trigger] new.stays[i]).id != (#[trigger] carried_stays(changes_between(old, new)[0].inverse)[k]).id,
    ensures
        plans_agree(after_inverse(new, changes_between(old, new)[0].inverse), old),
{
    let ps = parts(old, new);
    assert(ps[0].len() == 0 && ps[1].len() == 0 && ps[3].len() == 0 && ps[4].len() == 0);
    assert(ps[5].len() == 0 && ps[6].len() == 0 && ps[7].len() == 0);
    lemma_housings_unchanged(old, new);
    lemma_flat_map_empty(new.groups, group_edits(old, new));
    lemma_flat_map_empty(old.persons, person_deletions(old, new));
    lemma_flat_map_empty(new.persons, person_edits(old, new));
    lemma_flat_map_empty(old.housings, housing_deletions(old, new));
    let i = lemma_flat_map_one(old.groups, group_deletions(old, new));
    let g = old.groups[i];
    assert forall|j: int| 0 <= j < old.groups.len() && (#[trigger] old.groups[j]).id != g.id
        implies group_deletions(old, new)(old.groups[j]).len() == 0 by {
        assert(j != i);
    }
    lemma_groups_agree_except(old, new, g.id);
    let members = member_ids(old.persons, g.id);
    let op = changes_between(old, new)[0].inverse;
    let extra = stays_of(old.stays, Subject::Group(g.id));
    assert(op == InverseOpView::InsertGroup { group: g, members, stays: extra });
    let after = after_inverse(new, op);
    lemma_group_pos(old.groups, g.id);
    lemma_group_pos(new.groups, g.id);
    let k = group_pos(old.groups, g.id);
    if k != i {
        if k < i {
            assert(old.groups[k].id != old.groups[i].id);
        } else {
            assert(old.groups[i].id != old.groups[k].id);
        }
    }
    // Groups: the deleted one is back.
    assert forall|id: Id| same_group(#[trigger] find_group(after.groups, id), find_group(old.groups, id)) by {
        lemma_find_group_push(new.groups, g, id);
    }
    // Persons: exactly the old members were detached, and go back to the group.
    lemma_member_ids(old.persons, g.id);
    assert forall|pid: Id| #[trigger] detached(old, new, pid) <==> members.contains(pid) by {
        if detached(old, new, pid) {
            let j = choose|j: int|
                0 <= j < old.groups.len() && group_removed(old, new, (#[trigger] old.groups[j]).id)
                    && member_ids(old.persons, old.groups[j].id).contains(pid);
            lemma_group_removed_reported(old, new, old.groups[j].id);
            let q = group_pos(old.groups, old.groups[j].id);
            if q != i {
                assert(group_deletions(old, new)(old.groups[q]).len() == 0);
            }
        }
        if members.contains(pid) {
            assert(group_removed(old, new, old.groups[i].id));
        }
    }
    assert forall|id: Id| same_person(#[trigger] find_person(after.persons, id), find_person(old.persons, id)) by {
        lemma_find_with_members(new.persons, members, g.id, id);
        lemma_person_pos(new.persons, id);
        lemma_person_pos(old.persons, id);
        if person_pos(new.persons, id) != -1 {
            let j = person_pos(new.persons, id);
            assert(person_edits(old, new)(new.persons[j]).len() == 0);
            if members.contains(id) {
                let w = choose|w: int|
                    0 <= w < old.persons.len() && (#[trigger] old.persons[w]).id == id && old.persons[w].group == Some(g.id);
                let o = person_pos(old.persons, id);
                if w != o {
                    if w < o {
                        assert(old.persons[w].id != old.persons[o].id);
                    } else {
                        assert(old.persons[o].id != old.persons[w].id);
                    }
                }
            }
        } else if person_pos(old.persons, id) != -1 {
            let o = person_pos(old.persons, id);
            assert(person_deletions(old, new)(old.persons[o]).len() == 0);
        }
    }
    // Stays: exactly the group's stays were folded into its deletion.
    lemma_stays_of(old.stays, Subject::Group(g.id));
    assert forall|x: Stay| #[trigger] extra.contains(x) <==> (old.stays.contains(x) && cascaded_ids(old, new).contains(x.id)) by {
        if old.stays.contains(x) {
            let m = choose|m: int| 0 <= m < old.stays.len() && old.stays[m] == x;
            if x.subject == Subject::Group(g.id) {
                assert(group_removed(old, new, g.id));
                assert(stay_cascades(old, new, old.stays[m]));
            }
            if cascaded_ids(old, new).contains(x.id) {
                let c = choose|c: int|
                    0 <= c < old.stays.len() && (#[trigger] old.stays[c]).id == x.id && stay_cascades(old, new, old.stays[c]);
                lemma_unique_stay(old.stays, m, c);
                if housing_removed(old, new, x.housing) {
                    lemma_housing_removed_reported(old, new, x.housing);
                } else {
                    match x.subject {
                        Subject::Group(gid) => {
                            lemma_group_removed_reported(old, new, gid);
                            let q = group_pos(old.groups, gid);
                            if q != i {
                                assert(group_deletions(old, new)(old.groups[q]).len() == 0);
                            }
                        },
                        Subject::Person(pid) => {
                            lemma_person_removed_reported(old, new, pid);
                        },
                    }
                }
            }
        }
    }
    assert(carried_stays(op) == extra);
    assert forall|i: int, k: int| 0 <= i < new.stays.len() && 0 <= k < extra.len() implies (#[trigger] new.stays[i]).id
        != (#[trigger] extra[k]).id by {
        assert(carried_stays(op)[k] == extra[k]);
    }
    lemma_stays_restored(old, new, extra);
    assert(after.housings == new.housings);
}

/// Undo gives back the plan: when the diff from `old` to `new` reports exactly
/// one change, applying its inverse to `new` gives back `old`'s housings,
/// groups, persons and stays entity by entity — every id finds the same content
/// as in `old`, whatever the order of the lists — and leaves the journal and
/// the id counters as they are. Neither plan may repeat an id within a list,
/// and `new` must hold no stay with the id of a stay the inverse puts back.
pub proof fn lemma_undo_only_change_restores(old: PlanModel, new: PlanModel)
    requires
        ids_unique(old),
        ids_unique(new),
        changes_between(old, new).len() == 1,
        forall|i: int, k: int|
            0 <= i < new.stays.len() && 0 <= k < carried_stays(changes_between(old, new)[0].inverse).len()
                ==> (#[trigger] new.stays[i]).id != (#[trigger] carried_stays(changes_between(old, new)[0].inverse)[k]).id,
    ensures
        plans_agree(after_inverse(new, changes_between(old, new)[0].inverse), old),
        after_inverse(new, changes_between(old, new)[0].inverse).changelog == new.changelog,
        after_inverse(new, changes_between(old, new)[0].inverse).next_id == new.next_id,
        after_inverse(new, changes_between(old, new)[0].inverse).next_log_id == new.next_log_id,
{
    let ps = parts(old, new);
    let all = changes_between(old, new);
    assert(all == ps[0] + ps[1] + ps[2] + ps[3] + ps[4] + ps[5] + ps[6] + ps[7]);
    let q: int = if ps[0].len() == 1 {
        0
    } else if ps[1].len() == 1 {
        1
    } else if ps[2].len() == 1 {
        2
    } else if ps[3].len() == 1 {
        3
    } else if ps[4].len() == 1 {
        4
    } else if ps[5].len() == 1 {
        5
    } else if ps[6].len() == 1 {
        6
    } else {
        7
    };
    assert forall|r: int| 0 <= r < 8 && r != q implies (#[trigger] parts(old, new)[r]).len() == 0 by {
        if r == 0 {} else if r == 1 {} else if r == 2 {} else if r == 3 {} else if r == 4 {} else if r == 5 {} else if r == 6 {} else {}
    }
    assert(only_part(old, new, q));
    assert(ps[q].len() == 1);
    assert(all =~= ps[q]);
    if q == 0 {
        lemma_undo_housing_deletion(old, new);
    } else if q == 1 {
        lemma_undo_housing_edit(old, new);
    } else if q == 2 {
        lemma_undo_group_deletion(old, new);
    } else if q == 3 {
        lemma_undo_group_edit(old, new);
    } else if q == 4 {
        lemma_undo_person_deletion(old, new);
    } else if q == 5 {
        lemma_undo_person_edit(old, new);
    } else if q == 6 {
        lemma_undo_stay_removal(old, new);
    } else {
        lemma_undo_stay_edit(old, new);
    }
}

} // verus!
