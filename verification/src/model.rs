//! Data model for the housing / stay planner.
//!
//! The core entities are [`Housing`], [`Group`], [`Person`] and [`Stay`].
//! A [`Stay`] assigns a *subject* (a single person or a whole group) to a
//! housing for an arrival..departure date range. Everything lives inside a
//! single [`Plan`] which is what gets persisted.
use crate::date::Date;
use crate::i18n::{translation, tr, Lang};
use vstd::string::StringExecFns;
use crate::seqs::{first_index, is_first_match, lemma_first_index_cases, lemma_first_index_is, lemma_first_index_none};
use vstd::prelude::*;

verus! {

/// Stable identifier handed out by [`Plan::new_id`].
pub type Id = u64;

/// A place people can stay.
#[derive(Debug, PartialEq)]
pub struct Housing {
    pub id: Id,
    pub name: String,
    /// How many people fit. Used for over-capacity warnings.
    pub capacity: u32,
    pub notes: String,
}

/// A named group of people (e.g. a family or a team). Drawn in its own color.
#[derive(Debug, PartialEq)]
pub struct Group {
    pub id: Id,
    pub name: String,
    /// RGB color used for this group's bars in the timeline.
    pub color: [u8; 3],
}

/// A single person, optionally belonging to a [`Group`].
#[derive(Debug, PartialEq)]
pub struct Person {
    pub id: Id,
    pub name: String,
    pub group: Option<Id>,
}

/// Who a [`Stay`] is for: a single person or an entire group.
#[derive(Debug, Clone, Copy, PartialEq, Eq, Structural, Hash)]
pub enum Subject {
    Person(Id),
    Group(Id),
}

/// One occupancy: a subject staying in a housing from `arrival` to `departure`.
///
/// The range is treated as half-open in days: `arrival` is the first night and
/// `departure` is the checkout day (so a same-day arrival/departure is 0 nights).
#[derive(Debug, Clone, Copy, PartialEq, Eq, Structural)]
pub struct Stay {
    pub id: Id,
    pub subject: Subject,
    pub housing: Id,
    pub arrival: Date,
    pub departure: Date,
}

impl Clone for Housing {
    fn clone(&self) -> (r: Self)
        ensures
            r == *self,
    {
        Housing {
            id: self.id,
            name: self.name.clone(),
            capacity: self.capacity,
            notes: self.notes.clone(),
        }
    }
}

impl Clone for Group {
    fn clone(&self) -> (r: Self)
        ensures
            r == *self,
    {
        Group { id: self.id, name: self.name.clone(), color: self.color }
    }
}

impl Clone for Person {
    fn clone(&self) -> (r: Self)
        ensures
            r == *self,
    {
        Person { id: self.id, name: self.name.clone(), group: self.group }
    }
}


/// A single entry in the persisted change journal.
#[derive(Debug)]
pub struct LogEntry {
    /// Stable change id (see [`Plan::new_log_id`]). An [`LogKind::Undo`] entry
    /// references the id of the change it reverted.
    pub id: u64,
    /// When the change happened, RFC 3339 (local time).
    pub time: String,
    pub kind: LogKind,
}

impl Clone for LogEntry {
    fn clone(&self) -> (r: Self)
        ensures
            r == *self,
    {
        LogEntry { id: self.id, time: self.time.clone(), kind: self.kind.clone() }
    }
}

/// The structured content of a [`LogEntry`]. Carries the names/values needed to
/// render a (localized) human description even after the entity is gone.
#[derive(Debug)]
pub enum LogKind {
    AddHousing {
        name: String,
    },
    DeleteHousing {
        name: String,
    },
    RenameHousing {
        from: String,
        to: String,
    },
    SetCapacity {
        name: String,
        from: u32,
        to: u32,
    },
    EditNotes {
        name: String,
    },
    AddGroup {
        name: String,
    },
    DeleteGroup {
        name: String,
    },
    RenameGroup {
        from: String,
        to: String,
    },
    SetGroupColor {
        name: String,
    },
    AddPerson {
        name: String,
    },
    DeletePerson {
        name: String,
    },
    RenamePerson {
        from: String,
        to: String,
    },
    SetPersonGroup {
        person: String,
        from: String,
        to: String,
    },
    AddStay {
        subject: String,
        housing: String,
    },
    RemoveStay {
        subject: String,
        housing: String,
    },
    MoveStay {
        subject: String,
        from: String,
        to: String,
    },
    ChangeStaySubject {
        from: String,
        to: String,
        housing: String,
    },
    ChangeStayDates {
        subject: String,
        housing: String,
        from: String,
        to: String,
    },
    LoadedExample,
    LoadedFile {
        name: String,
    },
    LoadedFileNoHistory {
        name: String,
    },
    Undo {
        undoes: u64,
    },
}

/// The mathematical content of a [`LogKind`]: every text taken by its view.
pub enum LogKindView {
    AddHousing { name: Seq<char> },
    DeleteHousing { name: Seq<char> },
    RenameHousing { from: Seq<char>, to: Seq<char> },
    SetCapacity { name: Seq<char>, from: u32, to: u32 },
    EditNotes { name: Seq<char> },
    AddGroup { name: Seq<char> },
    DeleteGroup { name: Seq<char> },
    RenameGroup { from: Seq<char>, to: Seq<char> },
    SetGroupColor { name: Seq<char> },
    AddPerson { name: Seq<char> },
    DeletePerson { name: Seq<char> },
    RenamePerson { from: Seq<char>, to: Seq<char> },
    SetPersonGroup { person: Seq<char>, from: Seq<char>, to: Seq<char> },
    AddStay { subject: Seq<char>, housing: Seq<char> },
    RemoveStay { subject: Seq<char>, housing: Seq<char> },
    MoveStay { subject: Seq<char>, from: Seq<char>, to: Seq<char> },
    ChangeStaySubject { from: Seq<char>, to: Seq<char>, housing: Seq<char> },
    ChangeStayDates { subject: Seq<char>, housing: Seq<char>, from: Seq<char>, to: Seq<char> },
    LoadedExample,
    LoadedFile { name: Seq<char> },
    LoadedFileNoHistory { name: Seq<char> },
    Undo { undoes: u64 },
}

impl View for LogKind {
    type V = LogKindView;

    open spec fn view(&self) -> LogKindView {
        match self {
            LogKind::AddHousing { name } => LogKindView::AddHousing { name: name@ },
            LogKind::DeleteHousing { name } => LogKindView::DeleteHousing { name: name@ },
            LogKind::RenameHousing { from, to } => LogKindView::RenameHousing { from: from@, to: to@ },
            LogKind::SetCapacity { name, from, to } => LogKindView::SetCapacity { name: name@, from: *from, to: *to },
            LogKind::EditNotes { name } => LogKindView::EditNotes { name: name@ },
            LogKind::AddGroup { name } => LogKindView::AddGroup { name: name@ },
            LogKind::DeleteGroup { name } => LogKindView::DeleteGroup { name: name@ },
            LogKind::RenameGroup { from, to } => LogKindView::RenameGroup { from: from@, to: to@ },
            LogKind::SetGroupColor { name } => LogKindView::SetGroupColor { name: name@ },
            LogKind::AddPerson { name } => LogKindView::AddPerson { name: name@ },
            LogKind::DeletePerson { name } => LogKindView::DeletePerson { name: name@ },
            LogKind::RenamePerson { from, to } => LogKindView::RenamePerson { from: from@, to: to@ },
            LogKind::SetPersonGroup { person, from, to } => LogKindView::SetPersonGroup { person: person@, from: from@, to: to@ },
            LogKind::AddStay { subject, housing } => LogKindView::AddStay { subject: subject@, housing: housing@ },
            LogKind::RemoveStay { subject, housing } => LogKindView::RemoveStay { subject: subject@, housing: housing@ },
            LogKind::MoveStay { subject, from, to } => LogKindView::MoveStay { subject: subject@, from: from@, to: to@ },
            LogKind::ChangeStaySubject { from, to, housing } => LogKindView::ChangeStaySubject { from: from@, to: to@, housing: housing@ },
            LogKind::ChangeStayDates { subject, housing, from, to } => LogKindView::ChangeStayDates { subject: subject@, housing: housing@, from: from@, to: to@ },
            LogKind::LoadedExample => LogKindView::LoadedExample,
            LogKind::LoadedFile { name } => LogKindView::LoadedFile { name: name@ },
            LogKind::LoadedFileNoHistory { name } => LogKindView::LoadedFileNoHistory { name: name@ },
            LogKind::Undo { undoes } => LogKindView::Undo { undoes: *undoes },
        }
    }
}

impl Clone for LogKind {
    fn clone(&self) -> (r: Self)
        ensures
            r == *self,
    {
        match self {
            LogKind::AddHousing { name } => LogKind::AddHousing { name: name.clone() },
            LogKind::DeleteHousing { name } => LogKind::DeleteHousing { name: name.clone() },
            LogKind::RenameHousing { from, to } => LogKind::RenameHousing { from: from.clone(), to: to.clone() },
            LogKind::SetCapacity { name, from, to } => LogKind::SetCapacity { name: name.clone(), from: *from, to: *to },
            LogKind::EditNotes { name } => LogKind::EditNotes { name: name.clone() },
            LogKind::AddGroup { name } => LogKind::AddGroup { name: name.clone() },
            LogKind::DeleteGroup { name } => LogKind::DeleteGroup { name: name.clone() },
            LogKind::RenameGroup { from, to } => LogKind::RenameGroup { from: from.clone(), to: to.clone() },
            LogKind::SetGroupColor { name } => LogKind::SetGroupColor { name: name.clone() },
            LogKind::AddPerson { name } => LogKind::AddPerson { name: name.clone() },
            LogKind::DeletePerson { name } => LogKind::DeletePerson { name: name.clone() },
            LogKind::RenamePerson { from, to } => LogKind::RenamePerson { from: from.clone(), to: to.clone() },
            LogKind::SetPersonGroup { person, from, to } => LogKind::SetPersonGroup { person: person.clone(), from: from.clone(), to: to.clone() },
            LogKind::AddStay { subject, housing } => LogKind::AddStay { subject: subject.clone(), housing: housing.clone() },
            LogKind::RemoveStay { subject, housing } => LogKind::RemoveStay { subject: subject.clone(), housing: housing.clone() },
            LogKind::MoveStay { subject, from, to } => LogKind::MoveStay { subject: subject.clone(), from: from.clone(), to: to.clone() },
            LogKind::ChangeStaySubject { from, to, housing } => LogKind::ChangeStaySubject { from: from.clone(), to: to.clone(), housing: housing.clone() },
            LogKind::ChangeStayDates { subject, housing, from, to } => LogKind::ChangeStayDates { subject: subject.clone(), housing: housing.clone(), from: from.clone(), to: to.clone() },
            LogKind::LoadedExample => LogKind::LoadedExample,
            LogKind::LoadedFile { name } => LogKind::LoadedFile { name: name.clone() },
            LogKind::LoadedFileNoHistory { name } => LogKind::LoadedFileNoHistory { name: name.clone() },
            LogKind::Undo { undoes } => LogKind::Undo { undoes: *undoes },
        }
    }
}

/// The id counters' starting value, for plans stored before the change journal.
pub fn default_next_log_id() -> (r: u64)
    ensures
        r == 1,
{
    1
}

/// The whole planning document. This is the unit of persistence.
#[derive(Debug)]
pub struct Plan {
    pub housings: Vec<Housing>,
    pub groups: Vec<Group>,
    pub persons: Vec<Person>,
    pub stays: Vec<Stay>,
    /// The next id [`Plan::new_id`] hands out.
    pub next_id: Id,
    /// Append-only change journal.
    pub changelog: Vec<LogEntry>,
    /// The next id [`Plan::new_log_id`] hands out.
    pub next_log_id: u64,
}

/// The mathematical content of a [`Plan`].
pub struct PlanModel {
    pub housings: Seq<Housing>,
    pub groups: Seq<Group>,
    pub persons: Seq<Person>,
    pub stays: Seq<Stay>,
    pub changelog: Seq<LogEntry>,
    /// The next id [`Plan::new_id`] hands out.
    pub next_id: Id,
    /// The next id [`Plan::new_log_id`] hands out.
    pub next_log_id: u64,
}

impl View for Plan {
    type V = PlanModel;

    open spec fn view(&self) -> PlanModel {
        PlanModel {
            housings: self.housings@,
            groups: self.groups@,
            persons: self.persons@,
            stays: self.stays@,
            changelog: self.changelog@,
            next_id: self.next_id,
            next_log_id: self.next_log_id,
        }
    }
}

impl Default for Plan {
    fn default() -> (r: Self)
        ensures
            r@.housings.len() == 0,
            r@.groups.len() == 0,
            r@.persons.len() == 0,
            r@.stays.len() == 0,
            r@.changelog.len() == 0,
            r@.next_id == 1,
            r@.next_log_id == 1,
    {
        Plan {
            housings: Vec::new(),
            groups: Vec::new(),
            persons: Vec::new(),
            stays: Vec::new(),
            next_id: 1,
            changelog: Vec::new(),
            next_log_id: default_next_log_id(),
        }
    }
}

impl Clone for Plan {
    fn clone(&self) -> (r: Self)
        ensures
            r@ == self@,
    {
        let r = Plan {
            housings: self.housings.clone(),
            groups: self.groups.clone(),
            persons: self.persons.clone(),
            stays: self.stays.clone(),
            next_id: self.next_id,
            changelog: self.changelog.clone(),
            next_log_id: self.next_log_id,
        };
        assert(r.housings@ =~= self.housings@);
        assert(r.groups@ =~= self.groups@);
        assert(r.persons@ =~= self.persons@);
        assert(r.stays@ =~= self.stays@);
        assert(r.changelog@ =~= self.changelog@);
        r
    }
}

/// Matches the housing with id `id`.
pub open spec fn housing_has_id(id: Id) -> spec_fn(Housing) -> bool {
    |x: Housing| x.id == id
}

/// The position of the first housing with id `id`, or -1 if there is none.
pub open spec fn housing_pos(s: Seq<Housing>, id: Id) -> int {
    first_index(s, housing_has_id(id))
}

/// The first housing with id `id`, if any.
pub open spec fn find_housing(s: Seq<Housing>, id: Id) -> Option<Housing> {
    let k = housing_pos(s, id);
    if k >= 0 {
        Some(s[k])
    } else {
        None
    }
}

/// What [`housing_pos`] says: -1 exactly when no housing has the id, else the first that has it.
pub proof fn lemma_housing_pos(s: Seq<Housing>, id: Id)
    ensures
        housing_pos(s, id) == -1 <==> (forall|j: int| 0 <= j < s.len() ==> (#[trigger] s[j]).id != id),
        housing_pos(s, id) != -1 ==> 0 <= housing_pos(s, id) < s.len() && s[housing_pos(s, id)].id == id
            && (forall|j: int| 0 <= j < housing_pos(s, id) ==> (#[trigger] s[j]).id != id),
{
    lemma_first_index_cases(s, housing_has_id(id));
    assert(forall|j: int| 0 <= j < s.len() ==> (housing_has_id(id)(#[trigger] s[j]) <==> s[j].id == id));
}

/// The position of the first housing in `s` with id `id`.
pub fn housing_index(s: &Vec<Housing>, id: Id) -> (r: Option<usize>)
    ensures
        match r {
            Some(i) => housing_pos(s@, id) == i as int,
            None => housing_pos(s@, id) == -1,
        },
{
    let mut i: usize = 0;
    while i < s.len()
        invariant
            i <= s.len(),
            forall|j: int| 0 <= j < i ==> (#[trigger] s@[j]).id != id,
        decreases s.len() - i,
    {
        if s[i].id == id {
            proof {
                assert(is_first_match(s@, housing_has_id(id), i as int));
                lemma_first_index_is(s@, housing_has_id(id), i as int);
            }
            return Some(i);
        }
        i += 1;
    }
    proof { lemma_first_index_none(s@, housing_has_id(id)); }
    None
}

/// Matches the group with id `id`.
pub open spec fn group_has_id(id: Id) -> spec_fn(Group) -> bool {
    |x: Group| x.id == id
}

/// The position of the first group with id `id`, or -1 if there is none.
pub open spec fn group_pos(s: Seq<Group>, id: Id) -> int {
    first_index(s, group_has_id(id))
}

/// The first group with id `id`, if any.
pub open spec fn find_group(s: Seq<Group>, id: Id) -> Option<Group> {
    let k = group_pos(s, id);
    if k >= 0 {
        Some(s[k])
    } else {
        None
    }
}

/// What [`group_pos`] says: -1 exactly when no group has the id, else the first that has it.
pub proof fn lemma_group_pos(s: Seq<Group>, id: Id)
    ensures
        group_pos(s, id) == -1 <==> (forall|j: int| 0 <= j < s.len() ==> (#[trigger] s[j]).id != id),
        group_pos(s, id) != -1 ==> 0 <= group_pos(s, id) < s.len() && s[group_pos(s, id)].id == id
            && (forall|j: int| 0 <= j < group_pos(s, id) ==> (#[trigger] s[j]).id != id),
{
    lemma_first_index_cases(s, group_has_id(id));
    assert(forall|j: int| 0 <= j < s.len() ==> (group_has_id(id)(#[trigger] s[j]) <==> s[j].id == id));
}

/// The position of the first group in `s` with id `id`.
pub fn group_index(s: &Vec<Group>, id: Id) -> (r: Option<usize>)
    ensures
        match r {
            Some(i) => group_pos(s@, id) == i as int,
            None => group_pos(s@, id) == -1,
        },
{
    let mut i: usize = 0;
    while i < s.len()
        invariant
            i <= s.len(),
            forall|j: int| 0 <= j < i ==> (#[trigger] s@[j]).id != id,
        decreases s.len() - i,
    {
        if s[i].id == id {
            proof {
                assert(is_first_match(s@, group_has_id(id), i as int));
                lemma_first_index_is(s@, group_has_id(id), i as int);
            }
            return Some(i);
        }
        i += 1;
    }
    proof { lemma_first_index_none(s@, group_has_id(id)); }
    None
}

/// Matches the person with id `id`.
pub open spec fn person_has_id(id: Id) -> spec_fn(Person) -> bool {
    |x: Person| x.id == id
}

/// The position of the first person with id `id`, or -1 if there is none.
pub open spec fn person_pos(s: Seq<Person>, id: Id) -> int {
    first_index(s, person_has_id(id))
}

/// The first person with id `id`, if any.
pub open spec fn find_person(s: Seq<Person>, id: Id) -> Option<Person> {
    let k = person_pos(s, id);
    if k >= 0 {
        Some(s[k])
    } else {
        None
    }
}

/// What [`person_pos`] says: -1 exactly when no person has the id, else the first that has it.
pub proof fn lemma_person_pos(s: Seq<Person>, id: Id)
    ensures
        person_pos(s, id) == -1 <==> (forall|j: int| 0 <= j < s.len() ==> (#[trigger] s[j]).id != id),
        person_pos(s, id) != -1 ==> 0 <= person_pos(s, id) < s.len() && s[person_pos(s, id)].id == id
            && (forall|j: int| 0 <= j < person_pos(s, id) ==> (#[trigger] s[j]).id != id),
{
    lemma_first_index_cases(s, person_has_id(id));
    assert(forall|j: int| 0 <= j < s.len() ==> (person_has_id(id)(#[trigger] s[j]) <==> s[j].id == id));
}

/// The position of the first person in `s` with id `id`.
pub fn person_index(s: &Vec<Person>, id: Id) -> (r: Option<usize>)
    ensures
        match r {
            Some(i) => person_pos(s@, id) == i as int,
            None => person_pos(s@, id) == -1,
        },
{
    let mut i: usize = 0;
    while i < s.len()
        invariant
            i <= s.len(),
            forall|j: int| 0 <= j < i ==> (#[trigger] s@[j]).id != id,
        decreases s.len() - i,
    {
        if s[i].id == id {
            proof {
                assert(is_first_match(s@, person_has_id(id), i as int));
                lemma_first_index_is(s@, person_has_id(id), i as int);
            }
            return Some(i);
        }
        i += 1;
    }
    proof { lemma_first_index_none(s@, person_has_id(id)); }
    None
}

/// Matches the stay with id `id`.
pub open spec fn stay_has_id(id: Id) -> spec_fn(Stay) -> bool {
    |x: Stay| x.id == id
}

/// The position of the first stay with id `id`, or -1 if there is none.
pub open spec fn stay_pos(s: Seq<Stay>, id: Id) -> int {
    first_index(s, stay_has_id(id))
}

/// The first stay with id `id`, if any.
pub open spec fn find_stay(s: Seq<Stay>, id: Id) -> Option<Stay> {
    let k = stay_pos(s, id);
    if k >= 0 {
        Some(s[k])
    } else {
        None
    }
}

/// What [`stay_pos`] says: -1 exactly when no stay has the id, else the first that has it.
pub proof fn lemma_stay_pos(s: Seq<Stay>, id: Id)
    ensures
        stay_pos(s, id) == -1 <==> (forall|j: int| 0 <= j < s.len() ==> (#[trigger] s[j]).id != id),
        stay_pos(s, id) != -1 ==> 0 <= stay_pos(s, id) < s.len() && s[stay_pos(s, id)].id == id
            && (forall|j: int| 0 <= j < stay_pos(s, id) ==> (#[trigger] s[j]).id != id),
{
    lemma_first_index_cases(s, stay_has_id(id));
    assert(forall|j: int| 0 <= j < s.len() ==> (stay_has_id(id)(#[trigger] s[j]) <==> s[j].id == id));
}

/// The position of the first stay in `s` with id `id`.
pub fn stay_index(s: &Vec<Stay>, id: Id) -> (r: Option<usize>)
    ensures
        match r {
            Some(i) => stay_pos(s@, id) == i as int,
            None => stay_pos(s@, id) == -1,
        },
{
    let mut i: usize = 0;
    while i < s.len()
        invariant
            i <= s.len(),
            forall|j: int| 0 <= j < i ==> (#[trigger] s@[j]).id != id,
        decreases s.len() - i,
    {
        if s[i].id == id {
            proof {
                assert(is_first_match(s@, stay_has_id(id), i as int));
                lemma_first_index_is(s@, stay_has_id(id), i as int);
            }
            return Some(i);
        }
        i += 1;
    }
    proof { lemma_first_index_none(s@, stay_has_id(id)); }
    None
}

/// Fallback bar color for subjects without a group.
pub const DEFAULT_BAR_COLOR: [u8; 3] = [110, 140, 200];

/// A small palette cycled through when creating new groups.
pub const GROUP_PALETTE: [[u8; 3]; 8] = [
    [231, 76, 60],  // red
    [46, 204, 113], // green
    [52, 152, 219], // blue
    [241, 196, 15], // yellow
    [155, 89, 182], // purple
    [230, 126, 34], // orange
    [26, 188, 156], // teal
    [233, 30, 99],  // pink
];

/// The persons of `ps` that belong to group `gid`, in order.
pub open spec fn members_of(ps: Seq<Person>, gid: Id) -> Seq<Person>
    decreases ps.len(),
{
    if ps.len() == 0 {
        Seq::empty()
    } else {
        let rest = members_of(ps.drop_last(), gid);
        if ps.last().group == Some(gid) {
            rest.push(ps.last())
        } else {
            rest
        }
    }
}

/// The ids of the persons of `ps` that belong to group `gid`, in order.
pub open spec fn member_ids(ps: Seq<Person>, gid: Id) -> Seq<Id>
    decreases ps.len(),
{
    if ps.len() == 0 {
        Seq::empty()
    } else {
        let rest = member_ids(ps.drop_last(), gid);
        if ps.last().group == Some(gid) {
            rest.push(ps.last().id)
        } else {
            rest
        }
    }
}

/// How many people a subject represents: one for a person, the member count for a group.
pub open spec fn headcount(ps: Seq<Person>, subject: Subject) -> nat {
    match subject {
        Subject::Person(_) => 1,
        Subject::Group(gid) => members_of(ps, gid).len(),
    }
}

/// The persons a subject puts in a housing: the person itself, or a group's members.
pub open spec fn subject_person_ids(ps: Seq<Person>, subject: Subject) -> Seq<Id> {
    match subject {
        Subject::Person(id) => seq![id],
        Subject::Group(gid) => member_ids(ps, gid),
    }
}

/// True if `stay` covers `date`: arrival inclusive, departure exclusive.
pub open spec fn covers(stay: Stay, date: Date) -> bool {
    stay.arrival@ <= date@ && date@ < stay.departure@
}

/// Total headcount of the stays of `ss` in housing `hid` that cover `date`.
pub open spec fn occupancy_of(ss: Seq<Stay>, ps: Seq<Person>, hid: Id, date: Date) -> nat
    decreases ss.len(),
{
    if ss.len() == 0 {
        0
    } else {
        let s = ss.last();
        occupancy_of(ss.drop_last(), ps, hid, date) + if s.housing == hid && covers(s, date) {
            (#[verifier::truncate] (headcount(ps, s.subject) as u32)) as nat
        } else {
            0
        }
    }
}

/// Two stays put some person in two different housings on overlapping dates.
pub open spec fn clash(ps: Seq<Person>, a: Stay, b: Stay) -> bool {
    &&& a.housing != b.housing
    &&& a.arrival@ < b.departure@
    &&& b.arrival@ < a.departure@
    &&& exists|p: Id|
        #![trigger subject_person_ids(ps, a.subject).contains(p), subject_person_ids(ps, b.subject).contains(p)]
        subject_person_ids(ps, a.subject).contains(p) && subject_person_ids(ps, b.subject).contains(p)
}

/// The ids of the stays of `m` that clash with some other stay of `m`.
pub open spec fn double_booked(m: PlanModel) -> Set<Id> {
    Set::new(
        |id: Id|
            exists|i: int, j: int|
                0 <= i < m.stays.len() && 0 <= j < m.stays.len() && i != j && (#[trigger] m.stays[i]).id
                    == id && clash(m.persons, m.stays[i], #[trigger] m.stays[j]),
    )
}

/// The largest element of `s`, or 0 for an empty sequence.
pub open spec fn max_of(s: Seq<u64>) -> u64
    decreases s.len(),
{
    if s.len() == 0 {
        0
    } else {
        let rest = max_of(s.drop_last());
        if s.last() > rest {
            s.last()
        } else {
            rest
        }
    }
}

/// The ids of every housing, group, person and stay of `m`, in that order.
pub open spec fn entity_ids(m: PlanModel) -> Seq<Id> {
    m.housings.map_values(|h: Housing| h.id) + m.groups.map_values(|g: Group| g.id)
        + m.persons.map_values(|p: Person| p.id) + m.stays.map_values(|s: Stay| s.id)
}

/// The ids of the entries of a change journal, in order.
pub open spec fn log_ids(log: Seq<LogEntry>) -> Seq<u64> {
    log.map_values(|e: LogEntry| e.id)
}

/// `max_of` bounds every element and is one of them (or 0).
pub proof fn lemma_max_of(s: Seq<u64>)
    ensures
        forall|i: int| 0 <= i < s.len() ==> s[i] <= max_of(s),
        max_of(s) == 0 || s.contains(max_of(s)),
    decreases s.len(),
{
    if s.len() > 0 {
        lemma_max_of(s.drop_last());
        assert(forall|i: int| 0 <= i < s.len() - 1 ==> s[i] == s.drop_last()[i]);
        if max_of(s) != 0 && max_of(s) != s.last() {
            let k = choose|k: int| 0 <= k < s.drop_last().len() && s.drop_last()[k] == max_of(s);
            assert(s[k] == max_of(s));
        }
    }
}

/// `max_of` over a sequence extended by one element.
pub proof fn lemma_max_of_push(s: Seq<u64>, x: u64)
    ensures
        max_of(s.push(x)) == if x > max_of(s) { x } else { max_of(s) },
{
    assert(s.push(x).drop_last() =~= s);
}

/// Membership in `members_of` / `member_ids`.
pub proof fn lemma_member_ids(ps: Seq<Person>, gid: Id)
    ensures
        member_ids(ps, gid).len() == members_of(ps, gid).len(),
        forall|k: int|
            0 <= k < member_ids(ps, gid).len() ==> (#[trigger] member_ids(ps, gid)[k]) == members_of(
                ps,
                gid,
            )[k].id,
        forall|p: Id|
            member_ids(ps, gid).contains(p) <==> exists|i: int|
                0 <= i < ps.len() && (#[trigger] ps[i]).id == p && ps[i].group == Some(gid),
    decreases ps.len(),
{
    if ps.len() > 0 {
        lemma_member_ids(ps.drop_last(), gid);
        let rest = member_ids(ps.drop_last(), gid);
        assert forall|p: Id|
            member_ids(ps, gid).contains(p) <==> exists|i: int|
                0 <= i < ps.len() && (#[trigger] ps[i]).id == p && ps[i].group == Some(gid) by {
            if member_ids(ps, gid).contains(p) {
                let k = choose|k: int| 0 <= k < member_ids(ps, gid).len() && member_ids(ps, gid)[k] == p;
                if k < rest.len() {
                    assert(rest[k] == p);
                    assert(rest.contains(p));
                    let i = choose|i: int|
                        0 <= i < ps.drop_last().len() && (#[trigger] ps.drop_last()[i]).id == p
                            && ps.drop_last()[i].group == Some(gid);
                    assert(ps[i] == ps.drop_last()[i]);
                } else {
                    assert(ps[ps.len() - 1].id == p);
                }
            }
            if exists|i: int| 0 <= i < ps.len() && (#[trigger] ps[i]).id == p && ps[i].group == Some(gid) {
                let i = choose|i: int| 0 <= i < ps.len() && (#[trigger] ps[i]).id == p && ps[i].group == Some(gid);
                if i < ps.len() - 1 {
                    assert(ps.drop_last()[i] == ps[i]);
                    assert(rest.contains(p));
                    let k = choose|k: int| 0 <= k < rest.len() && rest[k] == p;
                    assert(member_ids(ps, gid)[k] == p);
                } else {
                    assert(member_ids(ps, gid).last() == p);
                }
            }
        }
    }
}

/// Reads the local clock as an RFC 3339 timestamp: calls chrono's
/// `Local::now().to_rfc3339()`. The result depends on the clock, so nothing is
/// stated about it.
#[verifier::external_body]
fn local_now_rfc3339() -> (r: String) {
    chrono::Local::now().to_rfc3339()
}

impl Plan {
    /// Allocate a fresh unique id.
    pub fn new_id(&mut self) -> (r: Id)
        requires
            old(self).next_id < u64::MAX,
        ensures
            r == old(self).next_id,
            final(self)@ == (PlanModel { next_id: (r + 1) as u64, ..old(self)@ }),
    {
        let id = self.next_id;
        self.next_id = self.next_id + 1;
        id
    }

    /// Allocate a fresh change-journal id.
    pub fn new_log_id(&mut self) -> (r: u64)
        requires
            old(self).next_log_id < u64::MAX,
        ensures
            r == old(self).next_log_id,
            final(self)@ == (PlanModel { next_log_id: (r + 1) as u64, ..old(self)@ }),
    {
        let id = self.next_log_id;
        self.next_log_id = self.next_log_id + 1;
        id
    }

    /// Append a journal entry for `kind` stamped with id and the given time; returns its id.
    pub fn push_log_at(&mut self, kind: LogKind, time: String) -> (r: u64)
        requires
            old(self).next_log_id < u64::MAX,
        ensures
            r == old(self).next_log_id,
            final(self)@ == (PlanModel {
                next_log_id: (r + 1) as u64,
                changelog: old(self)@.changelog.push(LogEntry { id: r, time, kind }),
                ..old(self)@
            }),
    {
        let id = self.new_log_id();
        self.changelog.push(LogEntry { id, time, kind });
        id
    }

    /// Append a journal entry for `kind` (stamping id + local time); returns its id.
    pub fn push_log(&mut self, kind: LogKind) -> (r: u64)
        requires
            old(self).next_log_id < u64::MAX,
        ensures
            r == old(self).next_log_id,
            final(self)@.next_log_id == r + 1,
            final(self)@.changelog.len() == old(self)@.changelog.len() + 1,
            final(self)@.changelog.drop_last() == old(self)@.changelog,
            final(self)@.changelog.last().id == r,
            final(self)@.changelog.last().kind == kind,
            final(self)@.housings == old(self)@.housings,
            final(self)@.groups == old(self)@.groups,
            final(self)@.persons == old(self)@.persons,
            final(self)@.stays == old(self)@.stays,
            final(self)@.next_id == old(self)@.next_id,
    {
        let time = local_now_rfc3339();
        let r = self.push_log_at(kind, time);
        assert(self.changelog@.drop_last() =~= old(self).changelog@);
        r
    }

    /// The first housing with id `id`.
    pub fn housing(&self, id: Id) -> (r: Option<&Housing>)
        ensures
            match r {
                Some(h) => find_housing(self.housings@, id) == Some(*h),
                None => find_housing(self.housings@, id) is None,
            },
    {
        match housing_index(&self.housings, id) {
            Some(i) => Some(&self.housings[i]),
            None => None,
        }
    }

    /// The first group with id `id`.
    pub fn group(&self, id: Id) -> (r: Option<&Group>)
        ensures
            match r {
                Some(g) => find_group(self.groups@, id) == Some(*g),
                None => find_group(self.groups@, id) is None,
            },
    {
        match group_index(&self.groups, id) {
            Some(i) => Some(&self.groups[i]),
            None => None,
        }
    }

    /// The first person with id `id`.
    pub fn person(&self, id: Id) -> (r: Option<&Person>)
        ensures
            match r {
                Some(p) => find_person(self.persons@, id) == Some(*p),
                None => find_person(self.persons@, id) is None,
            },
    {
        match person_index(&self.persons, id) {
            Some(i) => Some(&self.persons[i]),
            None => None,
        }
    }

    /// How many people a subject represents (a group counts its members).
    pub fn subject_headcount(&self, subject: Subject) -> (r: u32)
        ensures
            r == #[verifier::truncate] (headcount(self.persons@, subject) as u32),
    {
        match subject {
            Subject::Person(_) => 1,
            Subject::Group(id) => {
                let mut n: usize = 0;
                let mut i: usize = 0;
                while i < self.persons.len()
                    invariant
                        i <= self.persons.len(),
                        n <= i,
                        n == members_of(self.persons@.take(i as int), id).len(),
                    decreases self.persons.len() - i,
                {
                    proof {
                        assert(self.persons@.take(i + 1).drop_last() =~= self.persons@.take(i as int));
                    }
                    if self.persons[i].group == Some(id) {
                        n = n + 1;
                    }
                    i += 1;
                }
                proof {
                    assert(self.persons@.take(i as int) =~= self.persons@);
                }
                #[verifier::truncate] (n as u32)
            }
        }
    }
}

/// The color a subject's stays are drawn with: its group's color, else the default.
pub open spec fn color_of(gs: Seq<Group>, ps: Seq<Person>, subject: Subject) -> [u8; 3] {
    let gid = match subject {
        Subject::Group(id) => Some(id),
        Subject::Person(id) => match find_person(ps, id) {
            Some(p) => p.group,
            None => None,
        },
    };
    match gid {
        Some(g) => match find_group(gs, g) {
            Some(x) => x.color,
            None => DEFAULT_BAR_COLOR,
        },
        None => DEFAULT_BAR_COLOR,
    }
}

/// True if `stay` puts `person` in a housing, directly or via the person's group.
pub open spec fn includes_person(ps: Seq<Person>, stay: Stay, person: Id) -> bool {
    match stay.subject {
        Subject::Person(id) => id == person,
        Subject::Group(gid) => match find_person(ps, person) {
            Some(p) => p.group == Some(gid),
            None => false,
        },
    }
}

/// A prefix never has more occupancy than the whole.
pub proof fn lemma_occupancy_prefix(ss: Seq<Stay>, ps: Seq<Person>, hid: Id, date: Date, i: int)
    requires
        0 <= i <= ss.len(),
    ensures
        occupancy_of(ss.take(i), ps, hid, date) <= occupancy_of(ss, ps, hid, date),
    decreases ss.len(),
{
    if i == ss.len() {
        assert(ss.take(i) =~= ss);
    } else {
        lemma_occupancy_prefix(ss.drop_last(), ps, hid, date, i);
        assert(ss.drop_last().take(i) =~= ss.take(i));
    }
}

/// A clash holds either way round.
pub proof fn lemma_clash_symmetric(ps: Seq<Person>, a: Stay, b: Stay)
    ensures
        clash(ps, a, b) == clash(ps, b, a),
{
    if clash(ps, a, b) {
        let p = choose|p: Id|
            subject_person_ids(ps, a.subject).contains(p) && subject_person_ids(ps, b.subject).contains(p);
        assert(subject_person_ids(ps, b.subject).contains(p) && subject_person_ids(ps, a.subject).contains(p));
    }
    if clash(ps, b, a) {
        let p = choose|p: Id|
            subject_person_ids(ps, b.subject).contains(p) && subject_person_ids(ps, a.subject).contains(p);
        assert(subject_person_ids(ps, a.subject).contains(p) && subject_person_ids(ps, b.subject).contains(p));
    }
}

/// True if some element of `s` equals `x`.
pub(crate) fn ids_contain(s: &Vec<Id>, x: Id) -> (r: bool)
    ensures
        r == s@.contains(x),
{
    let mut i: usize = 0;
    while i < s.len()
        invariant
            i <= s.len(),
            forall|j: int| 0 <= j < i ==> s@[j] != x,
        decreases s.len() - i,
    {
        if s[i] == x {
            assert(s@[i as int] == x);
            return true;
        }
        i += 1;
    }
    false
}

/// True if the two id lists have an element in common.
fn ids_intersect(a: &Vec<Id>, b: &Vec<Id>) -> (r: bool)
    ensures
        r == exists|p: Id| #![trigger a@.contains(p), b@.contains(p)] a@.contains(p) && b@.contains(p),
{
    let mut i: usize = 0;
    while i < a.len()
        invariant
            i <= a.len(),
            forall|j: int| 0 <= j < i ==> !b@.contains(#[trigger] a@[j]),
        decreases a.len() - i,
    {
        if ids_contain(b, a[i]) {
            assert(a@.contains(a@[i as int]));
            return true;
        }
        i += 1;
    }
    assert forall|p: Id| a@.contains(p) implies !b@.contains(p) by {
        let j = choose|j: int| 0 <= j < a@.len() && a@[j] == p;
        assert(!b@.contains(a@[j]));
    }
    false
}

impl Plan {
    /// The color a stay should be drawn with, derived from its subject's group.
    pub fn subject_color(&self, subject: Subject) -> (r: [u8; 3])
        ensures
            r == color_of(self.groups@, self.persons@, subject),
    {
        let group_id = match subject {
            Subject::Group(id) => Some(id),
            Subject::Person(id) => match self.person(id) {
                Some(p) => p.group,
                None => None,
            },
        };
        match group_id {
            Some(id) => match self.group(id) {
                Some(g) => g.color,
                None => DEFAULT_BAR_COLOR,
            },
            None => DEFAULT_BAR_COLOR,
        }
    }

    /// True if `stay` covers `date` (arrival inclusive, departure exclusive).
    pub fn stay_covers(stay: &Stay, date: Date) -> (r: bool)
        ensures
            r == covers(*stay, date),
    {
        !date.is_before(stay.arrival) && date.is_before(stay.departure)
    }

    /// Total headcount occupying a housing on a given date.
    pub fn occupancy(&self, housing: Id, date: Date) -> (r: u32)
        requires
            occupancy_of(self.stays@, self.persons@, housing, date) <= u32::MAX,
        ensures
            r == occupancy_of(self.stays@, self.persons@, housing, date),
    {
        let mut total: u32 = 0;
        let mut i: usize = 0;
        while i < self.stays.len()
            invariant
                i <= self.stays.len(),
                total == occupancy_of(self.stays@.take(i as int), self.persons@, housing, date),
                occupancy_of(self.stays@, self.persons@, housing, date) <= u32::MAX,
            decreases self.stays.len() - i,
        {
            proof {
                assert(self.stays@.take(i + 1).drop_last() =~= self.stays@.take(i as int));
                lemma_occupancy_prefix(self.stays@, self.persons@, housing, date, i + 1);
            }
            let s = &self.stays[i];
            if s.housing == housing && Self::stay_covers(s, date) {
                total = total + self.subject_headcount(s.subject);
            }
            i += 1;
        }
        proof {
            assert(self.stays@.take(i as int) =~= self.stays@);
        }
        total
    }

    /// True if the headcount occupying a housing on a given date exceeds `capacity`.
    pub fn occupancy_exceeds(&self, housing: Id, date: Date, capacity: u32) -> (r: bool)
        ensures
            r == (occupancy_of(self.stays@, self.persons@, housing, date) > capacity),
    {
        let mut total: u64 = 0;
        let mut i: usize = 0;
        while i < self.stays.len()
            invariant
                i <= self.stays.len(),
                total == occupancy_of(self.stays@.take(i as int), self.persons@, housing, date),
                total <= capacity,
            decreases self.stays.len() - i,
        {
            proof {
                assert(self.stays@.take(i + 1).drop_last() =~= self.stays@.take(i as int));
            }
            let s = &self.stays[i];
            if s.housing == housing && Self::stay_covers(s, date) {
                total = total + self.subject_headcount(s.subject) as u64;
            }
            if total > capacity as u64 {
                proof {
                    lemma_occupancy_prefix(self.stays@, self.persons@, housing, date, i + 1);
                }
                return true;
            }
            i += 1;
        }
        proof {
            assert(self.stays@.take(i as int) =~= self.stays@);
        }
        false
    }

    /// Earliest arrival across all stays, if any.
    pub fn earliest_arrival(&self) -> (r: Option<Date>)
        ensures
            r is None <==> self.stays@.len() == 0,
            r matches Some(d) ==> (exists|i: int| 0 <= i < self.stays@.len() && self.stays@[i].arrival == d)
                && (forall|i: int| 0 <= i < self.stays@.len() ==> d@ <= (#[trigger] self.stays@[i]).arrival@),
    {
        if self.stays.len() == 0 {
            return None;
        }
        let mut best: Date = self.stays[0].arrival;
        let mut i: usize = 1;
        while i < self.stays.len()
            invariant
                1 <= i <= self.stays.len(),
                exists|k: int| 0 <= k < self.stays@.len() && self.stays@[k].arrival == best,
                forall|k: int| 0 <= k < i ==> best@ <= (#[trigger] self.stays@[k]).arrival@,
            decreases self.stays.len() - i,
        {
            if self.stays[i].arrival.is_before(best) {
                best = self.stays[i].arrival;
            }
            i += 1;
        }
        Some(best)
    }

    /// The set of persons a stay's subject puts in a housing (a group expands to
    /// its current members).
    fn stay_persons(&self, subject: Subject) -> (r: Vec<Id>)
        ensures
            r@ == subject_person_ids(self.persons@, subject),
    {
        match subject {
            Subject::Person(id) => {
                let mut v: Vec<Id> = Vec::new();
                v.push(id);
                assert(v@ =~= seq![id]);
                v
            },
            Subject::Group(gid) => {
                let mut v: Vec<Id> = Vec::new();
                let mut i: usize = 0;
                while i < self.persons.len()
                    invariant
                        i <= self.persons.len(),
                        v@ == member_ids(self.persons@.take(i as int), gid),
                    decreases self.persons.len() - i,
                {
                    proof {
                        assert(self.persons@.take(i + 1).drop_last() =~= self.persons@.take(i as int));
                    }
                    if self.persons[i].group == Some(gid) {
                        v.push(self.persons[i].id);
                    }
                    i += 1;
                }
                proof {
                    assert(self.persons@.take(i as int) =~= self.persons@);
                }
                v
            },
        }
    }

    /// True if `stay` puts `person` in a housing — directly, or via a group the
    /// person belongs to.
    pub fn stay_includes_person(&self, stay: &Stay, person: Id) -> (r: bool)
        ensures
            r == includes_person(self.persons@, *stay, person),
    {
        match stay.subject {
            Subject::Person(id) => id == person,
            Subject::Group(gid) => match self.person(person) {
                Some(p) => p.group == Some(gid),
                None => false,
            },
        }
    }

    /// The persons that belong to a group, in declaration order.
    pub fn persons_in_group(&self, gid: Id) -> (r: Vec<&Person>)
        ensures
            r@.len() == members_of(self.persons@, gid).len(),
            forall|k: int| 0 <= k < r@.len() ==> *(#[trigger] r@[k]) == members_of(self.persons@, gid)[k],
    {
        let mut v: Vec<&Person> = Vec::new();
        let mut i: usize = 0;
        while i < self.persons.len()
            invariant
                i <= self.persons.len(),
                v@.len() == members_of(self.persons@.take(i as int), gid).len(),
                forall|k: int|
                    0 <= k < v@.len() ==> *(#[trigger] v@[k]) == members_of(self.persons@.take(i as int), gid)[k],
            decreases self.persons.len() - i,
        {
            proof {
                assert(self.persons@.take(i + 1).drop_last() =~= self.persons@.take(i as int));
            }
            if self.persons[i].group == Some(gid) {
                v.push(&self.persons[i]);
            }
            i += 1;
        }
        proof {
            assert(self.persons@.take(i as int) =~= self.persons@);
        }
        v
    }

    /// Ids of stays that put the same person in more than one housing at the
    /// same time. A person can't be in two places at once, so both stays of each
    /// clashing pair are returned. Groups are expanded to members, so an
    /// individual stay overlapping that person's group elsewhere is caught too.
    pub fn subject_double_bookings(&self) -> (r: std::collections::HashSet<Id>)
        ensures
            r@ == double_booked(self@),
    {
        broadcast use vstd::std_specs::hash::group_hash_axioms;
        let n = self.stays.len();
        let mut persons: Vec<Vec<Id>> = Vec::new();
        let mut k: usize = 0;
        while k < n
            invariant
                k <= n == self.stays@.len(),
                persons@.len() == k,
                forall|t: int| 0 <= t < k ==> (#[trigger] persons@[t])@ == subject_person_ids(self.persons@, self.stays@[t].subject),
            decreases n - k,
        {
            persons.push(self.stay_persons(self.stays[k].subject));
            k += 1;
        }
        let ghost m = self@;
        let mut conflicted: std::collections::HashSet<Id> = std::collections::HashSet::new();
        let mut i: usize = 0;
        while i < n
            invariant
                i <= n == m.stays.len(),
                m == self@,
                persons@.len() == n,
                forall|t: int| 0 <= t < n ==> (#[trigger] persons@[t])@ == subject_person_ids(m.persons, m.stays[t].subject),
                forall|id: Id| conflicted@.contains(id) <==> exists|a: int, b: int|
                    0 <= a < b < n && a < i && clash(m.persons, m.stays[a], m.stays[b])
                        && (#[trigger] pair_id(m.stays, a, b, id)),
            decreases n - i,
        {
            let mut j: usize = i + 1;
            while j < n
                invariant
                    i < n == m.stays.len(),
                    i + 1 <= j <= n,
                    m == self@,
                    persons@.len() == n,
                    forall|t: int| 0 <= t < n ==> (#[trigger] persons@[t])@ == subject_person_ids(m.persons, m.stays[t].subject),
                    forall|id: Id| conflicted@.contains(id) <==> exists|a: int, b: int|
                        0 <= a < b < n && (a < i || (a == i && b < j)) && clash(m.persons, m.stays[a], m.stays[b])
                            && (#[trigger] pair_id(m.stays, a, b, id)),
                decreases n - j,
            {
                let a = &self.stays[i];
                let b = &self.stays[j];
                let overlapping = a.arrival.is_before(b.departure) && b.arrival.is_before(a.departure);
                if a.housing != b.housing && overlapping && ids_intersect(&persons[i], &persons[j]) {
                    let ghost before = conflicted@;
                    conflicted.insert(a.id);
                    conflicted.insert(b.id);
                    assert forall|id: Id| conflicted@.contains(id) <==> exists|x: int, y: int|
                        0 <= x < y < n && (x < i || (x == i && y < j + 1)) && clash(m.persons, m.stays[x], m.stays[y])
                            && (#[trigger] pair_id(m.stays, x, y, id)) by {
                        if id == a.id {
                            assert(pair_id(m.stays, i as int, j as int, id));
                        } else if id == b.id {
                            assert(pair_id(m.stays, i as int, j as int, id));
                        }
                    }
                } else {
                    assert(!clash(m.persons, m.stays[i as int], m.stays[j as int]));
                }
                j += 1;
            }
            i += 1;
        }
        proof {
            assert forall|id: Id| conflicted@.contains(id) <==> double_booked(m).contains(id) by {
                if conflicted@.contains(id) {
                    let (a, b) = choose|a: int, b: int|
                        0 <= a < b < n && clash(m.persons, m.stays[a], m.stays[b]) && pair_id(m.stays, a, b, id);
                    if m.stays[a].id == id {
                        assert(m.stays[a].id == id && clash(m.persons, m.stays[a], m.stays[b]));
                    } else {
                        lemma_clash_symmetric(m.persons, m.stays[a], m.stays[b]);
                        assert(m.stays[b].id == id && clash(m.persons, m.stays[b], m.stays[a]));
                    }
                }
                if double_booked(m).contains(id) {
                    let (x, y) = choose|x: int, y: int|
                        0 <= x < m.stays.len() && 0 <= y < m.stays.len() && x != y && (#[trigger] m.stays[x]).id
                            == id && clash(m.persons, m.stays[x], #[trigger] m.stays[y]);
                    if x < y {
                        assert(pair_id(m.stays, x, y, id));
                    } else {
                        lemma_clash_symmetric(m.persons, m.stays[x], m.stays[y]);
                        assert(pair_id(m.stays, y, x, id));
                    }
                }
            }
            assert(conflicted@ =~= double_booked(m));
        }
        conflicted
    }

    /// True if nothing has been entered yet.
    pub fn is_empty(&self) -> (r: bool)
        ensures
            r == (self.housings@.len() == 0 && self.persons@.len() == 0 && self.groups@.len() == 0),
    {
        self.housings.len() == 0 && self.persons.len() == 0 && self.groups.len() == 0
    }
}

/// `id` is the id of one of the two stays at positions `a` and `b`.
pub open spec fn pair_id(ss: Seq<Stay>, a: int, b: int, id: Id) -> bool {
    ss[a].id == id || ss[b].id == id
}

/// `m` with its id counters moved past every id in use (and otherwise unchanged).
pub open spec fn reseeded(m: PlanModel) -> PlanModel {
    PlanModel {
        next_id: if m.next_id <= max_of(entity_ids(m)) {
            (max_of(entity_ids(m)) + 1) as u64
        } else {
            m.next_id
        },
        next_log_id: if m.next_log_id <= max_of(log_ids(m.changelog)) {
            (max_of(log_ids(m.changelog)) + 1) as u64
        } else {
            m.next_log_id
        },
        ..m
    }
}

impl Plan {
    /// The largest entity id and the largest journal id in use (0 where there
    /// is none).
    pub fn largest_ids(&self) -> (r: (u64, u64))
        ensures
            r.0 == max_of(entity_ids(self@)),
            r.1 == max_of(log_ids(self@.changelog)),
    {
        let ghost mut seen: Seq<u64> = Seq::empty();
        let mut max: u64 = 0;
        let mut i: usize = 0;
        while i < self.housings.len()
            invariant
                i <= self.housings.len(),
                seen == Seq::empty() + self.housings@.take(i as int).map_values(|x: Housing| x.id),
                max == max_of(seen),
            decreases self.housings.len() - i,
        {
            let id = self.housings[i].id;
            proof {
                lemma_max_of_push(seen, id);
                seen = seen.push(id);
                assert(self.housings@.take(i + 1).map_values(|x: Housing| x.id) =~= self.housings@.take(i as int).map_values(|x: Housing| x.id).push(id));
                assert(Seq::empty() + self.housings@.take(i + 1).map_values(|x: Housing| x.id) =~= (Seq::empty() + self.housings@.take(i as int).map_values(|x: Housing| x.id)).push(id));
            }
            if id > max {
                max = id;
            }
            i += 1;
        }
        proof {
            assert(self.housings@.take(i as int) =~= self.housings@);
        }
        let mut i: usize = 0;
        while i < self.groups.len()
            invariant
                i <= self.groups.len(),
                seen == self.housings@.map_values(|x: Housing| x.id) + self.groups@.take(i as int).map_values(|x: Group| x.id),
                max == max_of(seen),
            decreases self.groups.len() - i,
        {
            let id = self.groups[i].id;
            proof {
                lemma_max_of_push(seen, id);
                seen = seen.push(id);
                assert(self.groups@.take(i + 1).map_values(|x: Group| x.id) =~= self.groups@.take(i as int).map_values(|x: Group| x.id).push(id));
                assert(self.housings@.map_values(|x: Housing| x.id) + self.groups@.take(i + 1).map_values(|x: Group| x.id) =~= (self.housings@.map_values(|x: Housing| x.id) + self.groups@.take(i as int).map_values(|x: Group| x.id)).push(id));
            }
            if id > max {
                max = id;
            }
            i += 1;
        }
        proof {
            assert(self.groups@.take(i as int) =~= self.groups@);
        }
        let mut i: usize = 0;
        while i < self.persons.len()
            invariant
                i <= self.persons.len(),
                seen == self.housings@.map_values(|x: Housing| x.id) + self.groups@.map_values(|x: Group| x.id) + self.persons@.take(i as int).map_values(|x: Person| x.id),
                max == max_of(seen),
            decreases self.persons.len() - i,
        {
            let id = self.persons[i].id;
            proof {
                lemma_max_of_push(seen, id);
                seen = seen.push(id);
                assert(self.persons@.take(i + 1).map_values(|x: Person| x.id) =~= self.persons@.take(i as int).map_values(|x: Person| x.id).push(id));
                assert(self.housings@.map_values(|x: Housing| x.id) + self.groups@.map_values(|x: Group| x.id) + self.persons@.take(i + 1).map_values(|x: Person| x.id) =~= (self.housings@.map_values(|x: Housing| x.id) + self.groups@.map_values(|x: Group| x.id) + self.persons@.take(i as int).map_values(|x: Person| x.id)).push(id));
            }
            if id > max {
                max = id;
            }
            i += 1;
        }
        proof {
            assert(self.persons@.take(i as int) =~= self.persons@);
        }
        let mut i: usize = 0;
        while i < self.stays.len()
            invariant
                i <= self.stays.len(),
                seen == self.housings@.map_values(|x: Housing| x.id) + self.groups@.map_values(|x: Group| x.id) + self.persons@.map_values(|x: Person| x.id) + self.stays@.take(i as int).map_values(|x: Stay| x.id),
                max == max_of(seen),
            decreases self.stays.len() - i,
        {
            let id = self.stays[i].id;
            proof {
                lemma_max_of_push(seen, id);
                seen = seen.push(id);
                assert(self.stays@.take(i + 1).map_values(|x: Stay| x.id) =~= self.stays@.take(i as int).map_values(|x: Stay| x.id).push(id));
                assert(self.housings@.map_values(|x: Housing| x.id) + self.groups@.map_values(|x: Group| x.id) + self.persons@.map_values(|x: Person| x.id) + self.stays@.take(i + 1).map_values(|x: Stay| x.id) =~= (self.housings@.map_values(|x: Housing| x.id) + self.groups@.map_values(|x: Group| x.id) + self.persons@.map_values(|x: Person| x.id) + self.stays@.take(i as int).map_values(|x: Stay| x.id)).push(id));
            }
            if id > max {
                max = id;
            }
            i += 1;
        }
        proof {
            assert(self.stays@.take(i as int) =~= self.stays@);
        }
        proof {
            assert(seen =~= entity_ids(self@));
        }
        let max_entity = max;
        let ghost mut seen: Seq<u64> = Seq::empty();
        let mut max: u64 = 0;
        let mut i: usize = 0;
        while i < self.changelog.len()
            invariant
                i <= self.changelog.len(),
                seen == Seq::empty() + self.changelog@.take(i as int).map_values(|x: LogEntry| x.id),
                max == max_of(seen),
            decreases self.changelog.len() - i,
        {
            let id = self.changelog[i].id;
            proof {
                lemma_max_of_push(seen, id);
                seen = seen.push(id);
                assert(self.changelog@.take(i + 1).map_values(|x: LogEntry| x.id) =~= self.changelog@.take(i as int).map_values(|x: LogEntry| x.id).push(id));
                assert(Seq::empty() + self.changelog@.take(i + 1).map_values(|x: LogEntry| x.id) =~= (Seq::empty() + self.changelog@.take(i as int).map_values(|x: LogEntry| x.id)).push(id));
            }
            if id > max {
                max = id;
            }
            i += 1;
        }
        proof {
            assert(self.changelog@.take(i as int) =~= self.changelog@);
        }
        proof {
            assert(seen =~= log_ids(self.changelog@));
        }
        (max_entity, max)
    }

    /// Ensure the id counter is past every id currently in use. Call this after
    /// loading a plan from an external file so freshly created entities can't
    /// collide with loaded ones.
    pub fn reseed_ids(&mut self)
        requires
            max_of(entity_ids(old(self)@)) < u64::MAX,
            max_of(log_ids(old(self)@.changelog)) < u64::MAX,
        ensures
            final(self)@ == reseeded(old(self)@),
    {
        let (max_entity, max_log) = self.largest_ids();
        if self.next_id <= max_entity {
            self.next_id = max_entity + 1;
        }
        if self.next_log_id <= max_log {
            self.next_log_id = max_log + 1;
        }
    }
}

/// `new` is `old` with the illustrative sample around `today` appended: two
/// housings, two groups, three persons and four stays, with ids handed out in
/// that order from `old.next_id`.
pub open spec fn sample_added(old: PlanModel, new: PlanModel, today: Date) -> bool {
    let n = old.next_id;
    let (cabin, lodge, smiths, crew) = (n, (n + 1) as u64, (n + 2) as u64, (n + 3) as u64);
    let (alice, bob, dana) = ((n + 4) as u64, (n + 5) as u64, (n + 6) as u64);
    let (s1, s2, s3, s4) = ((n + 7) as u64, (n + 8) as u64, (n + 9) as u64, (n + 10) as u64);
    let h = old.housings.len() as int;
    let g = old.groups.len() as int;
    let p = old.persons.len() as int;
    let s = old.stays.len() as int;
    &&& new.next_id == n + 11
    &&& new.next_log_id == old.next_log_id
    &&& new.changelog == old.changelog
    &&& new.housings.len() == h + 2
    &&& new.housings.take(h) == old.housings
    &&& new.housings[h].id == cabin && new.housings[h].name@ == "Cabin A"@
    &&& new.housings[h].capacity == 2 && new.housings[h].notes@ == Seq::<char>::empty()
    &&& new.housings[h + 1].id == lodge && new.housings[h + 1].name@ == "Lodge"@
    &&& new.housings[h + 1].capacity == 6 && new.housings[h + 1].notes@ == Seq::<char>::empty()
    &&& new.groups.len() == g + 2
    &&& new.groups.take(g) == old.groups
    &&& new.groups[g].id == smiths && new.groups[g].name@ == "Smith family"@
    &&& new.groups[g].color == GROUP_PALETTE[0]
    &&& new.groups[g + 1].id == crew && new.groups[g + 1].name@ == "Crew"@
    &&& new.groups[g + 1].color == GROUP_PALETTE[2]
    &&& new.persons.len() == p + 3
    &&& new.persons.take(p) == old.persons
    &&& new.persons[p].id == alice && new.persons[p].name@ == "Alice Smith"@
    &&& new.persons[p].group == Some(smiths)
    &&& new.persons[p + 1].id == bob && new.persons[p + 1].name@ == "Bob Smith"@
    &&& new.persons[p + 1].group == Some(smiths)
    &&& new.persons[p + 2].id == dana && new.persons[p + 2].name@ == "Dana"@
    &&& new.persons[p + 2].group == Some(crew)
    &&& new.stays.len() == s + 4
    &&& new.stays.take(s) == old.stays
    &&& sample_stay(new.stays[s], s1, Subject::Group(smiths), cabin, today, 0, 5)
    &&& sample_stay(new.stays[s + 1], s2, Subject::Person(dana), lodge, today, 2, 9)
    &&& sample_stay(new.stays[s + 2], s3, Subject::Group(crew), lodge, today, 6, 12)
    &&& sample_stay(new.stays[s + 3], s4, Subject::Person(dana), cabin, today, 2, 4)
}

/// A stay with the given fields whose dates are `from` and `to` days after `today`.
pub open spec fn sample_stay(st: Stay, id: Id, subject: Subject, housing: Id, today: Date, from: int, to: int) -> bool {
    &&& st.id == id
    &&& st.subject == subject
    &&& st.housing == housing
    &&& st.arrival@ == today@ + from
    &&& st.departure@ == today@ + to
}

/// The date `offset` days after `today`, which must be representable.
fn sample_day(today: Date, offset: i64) -> (r: Date)
    requires
        0 <= offset <= 12,
        today@ + 12 <= crate::date::MAX_DAY,
    ensures
        r@ == today@ + offset,
{
    match today.checked_add_days(offset) {
        Some(d) => d,
        None => today,
    }
}

impl Plan {
    /// Populate a small illustrative plan around `today`.
    pub fn load_sample_around(&mut self, today: Date)
        requires
            old(self).next_id <= u64::MAX - 11,
            today@ + 12 <= crate::date::MAX_DAY,
        ensures
            sample_added(old(self)@, final(self)@, today),
    {
        let cabin = self.new_id();
        let lodge = self.new_id();
        self.housings.push(Housing {
            id: cabin,
            name: String::from_str("Cabin A"),
            capacity: 2,
            notes: String::new(),
        });
        self.housings.push(Housing {
            id: lodge,
            name: String::from_str("Lodge"),
            capacity: 6,
            notes: String::new(),
        });

        let smiths = self.new_id();
        let crew = self.new_id();
        self.groups.push(Group {
            id: smiths,
            name: String::from_str("Smith family"),
            color: GROUP_PALETTE[0],
        });
        self.groups.push(Group {
            id: crew,
            name: String::from_str("Crew"),
            color: GROUP_PALETTE[2],
        });

        let alice = self.new_id();
        let bob = self.new_id();
        let dana = self.new_id();
        self.persons.push(Person {
            id: alice,
            name: String::from_str("Alice Smith"),
            group: Some(smiths),
        });
        self.persons.push(Person {
            id: bob,
            name: String::from_str("Bob Smith"),
            group: Some(smiths),
        });
        self.persons.push(Person {
            id: dana,
            name: String::from_str("Dana"),
            group: Some(crew),
        });

        let s1 = self.new_id();
        let s2 = self.new_id();
        let s3 = self.new_id();
        let s4 = self.new_id();
        self.stays.push(Stay {
            id: s1,
            subject: Subject::Group(smiths),
            housing: cabin,
            arrival: sample_day(today, 0),
            departure: sample_day(today, 5),
        });
        self.stays.push(Stay {
            id: s2,
            subject: Subject::Person(dana),
            housing: lodge,
            arrival: sample_day(today, 2),
            departure: sample_day(today, 9),
        });
        self.stays.push(Stay {
            id: s3,
            subject: Subject::Group(crew),
            housing: lodge,
            arrival: sample_day(today, 6),
            departure: sample_day(today, 12),
        });
        // Overlaps the Smiths in Cabin A (capacity 2) on days 2–4 → double booking.
        self.stays.push(Stay {
            id: s4,
            subject: Subject::Person(dana),
            housing: cabin,
            arrival: sample_day(today, 2),
            departure: sample_day(today, 4),
        });
        proof {
            assert(self.housings@.take(old(self).housings@.len() as int) =~= old(self).housings@);
            assert(self.groups@.take(old(self).groups@.len() as int) =~= old(self).groups@);
            assert(self.persons@.take(old(self).persons@.len() as int) =~= old(self).persons@);
            assert(self.stays@.take(old(self).stays@.len() as int) =~= old(self).stays@);
        }
    }

    /// Populate a small illustrative plan around today's date. The sample spans
    /// twelve days from its start; when today lies closer than that to the last
    /// date chrono can represent, the sample starts twelve days before that
    /// date instead.
    pub fn load_sample(&mut self)
        requires
            old(self).next_id <= u64::MAX - 11,
        ensures
            exists|start: Date| start@ + 12 <= crate::date::MAX_DAY && sample_added(old(self)@, final(self)@, start),
    {
        let today = Date::today();
        let start = if today.checked_add_days(12).is_some() {
            today
        } else {
            Date::from_day_number(crate::date::MAX_DAY - 12).unwrap()
        };
        self.load_sample_around(start);
    }
}

/// The label of a stay's subject in `lang`: the person's name, or the group's
/// name followed by the localized "(group)", or a localized "deleted" marker.
pub open spec fn subject_label_text(m: PlanModel, subject: Subject, lang: Lang) -> Seq<char> {
    match subject {
        Subject::Person(id) => match find_person(m.persons, id) {
            Some(p) => p.name@,
            None => translation(lang, "<deleted person>"@),
        },
        Subject::Group(id) => match find_group(m.groups, id) {
            Some(g) => g.name@ + " "@ + translation(lang, "(group)"@),
            None => translation(lang, "<deleted group>"@),
        },
    }
}

impl Plan {
    /// Human-readable label for a stay's subject, localized for `lang`.
    pub fn subject_label(&self, subject: Subject, lang: Lang) -> (r: String)
        ensures
            r@ == subject_label_text(self@, subject, lang),
    {
        match subject {
            Subject::Person(id) => match self.person(id) {
                Some(p) => p.name.clone(),
                None => String::from_str(tr(lang, "<deleted person>")),
            },
            Subject::Group(id) => match self.group(id) {
                Some(g) => {
                    let mut s = g.name.clone();
                    s.append(" ");
                    s.append(tr(lang, "(group)"));
                    s
                },
                None => String::from_str(tr(lang, "<deleted group>")),
            },
        }
    }
}

} // verus!
