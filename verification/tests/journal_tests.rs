use housingplanner::date::Date;
use housingplanner::i18n::Lang;
use housingplanner::journal::{
    apply_inverse, commit_changes, decimal, describe, diff, load_example, loaded_file_entry, short_time, undo_last, undone_ids, InverseOp,
};
use housingplanner::model::{Group, Housing, LogEntry, LogKind, Person, Plan, Stay, Subject};

fn d(n: u32) -> Date {
    Date::from_ymd(2026, 1, n).unwrap()
}

fn entry(id: u64, kind: LogKind) -> LogEntry {
    LogEntry { id, time: String::new(), kind }
}

#[test]
fn rename_group_diff_and_inverse() {
    let mut old = Plan::default();
    let g = old.new_id();
    old.groups.push(Group { id: g, name: "A".into(), color: [1, 2, 3] });
    let mut new = old.clone();
    new.groups[0].name = "B".into();

    let changes = diff(&old, &new);
    assert_eq!(changes.len(), 1);
    assert!(matches!(changes[0].kind, LogKind::RenameGroup { .. }));

    let mut reverted = new.clone();
    apply_inverse(&mut reverted, &changes[0].inverse);
    assert_eq!(reverted.groups[0].name, "A");
}

#[test]
fn delete_housing_folds_its_stays() {
    let mut old = Plan::default();
    let h = old.new_id();
    old.housings.push(Housing { id: h, name: "H".into(), capacity: 2, notes: String::new() });
    let p = old.new_id();
    old.persons.push(Person { id: p, name: "P".into(), group: None });
    let s = old.new_id();
    old.stays.push(Stay { id: s, subject: Subject::Person(p), housing: h, arrival: d(1), departure: d(3) });

    let mut new = old.clone();
    new.housings.clear();
    new.stays.clear();

    // One DeleteHousing — the cascaded stay is folded in, not a separate entry.
    let changes = diff(&old, &new);
    assert_eq!(changes.len(), 1);
    assert!(matches!(changes[0].kind, LogKind::DeleteHousing { .. }));

    // Its inverse restores both the housing and the stay.
    let mut reverted = new.clone();
    apply_inverse(&mut reverted, &changes[0].inverse);
    assert_eq!(reverted.housings.len(), 1);
    assert_eq!(reverted.stays.len(), 1);
}

#[test]
fn diff_of_identical_plans_is_empty() {
    let mut plan = Plan::default();
    plan.load_sample_around(d(5));
    assert!(diff(&plan, &plan.clone()).is_empty());
}

#[test]
fn diff_reports_housing_edits_in_order() {
    let mut old = Plan::default();
    old.housings.push(Housing { id: 1, name: "Hut".into(), capacity: 2, notes: String::new() });
    let mut new = old.clone();
    new.housings[0].name = "Hall".into();
    new.housings[0].capacity = 5;
    new.housings[0].notes = "wifi".into();
    new.housings.push(Housing { id: 2, name: "Barn".into(), capacity: 1, notes: String::new() });
    let changes = diff(&old, &new);
    let texts: Vec<String> = changes
        .iter()
        .map(|c| describe(&entry(1, c.kind.clone()), &[], Lang::English))
        .collect();
    assert_eq!(
        texts,
        vec![
            "Renamed housing: Hut → Hall",
            "Changed capacity of Hall: 2 → 5",
            "Edited notes of Hall",
            "Created housing: Barn",
        ]
    );
    // Undoing each edit in turn restores the old housing.
    let mut back = new.clone();
    for c in changes.iter().rev() {
        apply_inverse(&mut back, &c.inverse);
    }
    assert_eq!(back.housings.len(), 1);
    assert_eq!(back.housings[0], old.housings[0]);
}

#[test]
fn deleting_a_group_folds_members_and_stays() {
    let mut old = Plan::default();
    old.housings.push(Housing { id: 1, name: "H".into(), capacity: 4, notes: String::new() });
    old.groups.push(Group { id: 2, name: "Crew".into(), color: [1, 1, 1] });
    old.persons.push(Person { id: 3, name: "Ann".into(), group: Some(2) });
    old.stays.push(Stay { id: 4, subject: Subject::Group(2), housing: 1, arrival: d(1), departure: d(2) });
    let mut new = old.clone();
    new.delete_group(2);
    assert_eq!(new.persons[0].group, None);
    assert!(new.stays.is_empty());

    let changes = diff(&old, &new);
    assert_eq!(changes.len(), 1);
    assert_eq!(describe(&entry(1, changes[0].kind.clone()), &[], Lang::English), "Deleted group: Crew");
    match &changes[0].inverse {
        InverseOp::InsertGroup { members, stays, .. } => {
            assert_eq!(members, &vec![3]);
            assert_eq!(stays.len(), 1);
        }
        _ => panic!("expected InsertGroup"),
    }
    let mut back = new.clone();
    apply_inverse(&mut back, &changes[0].inverse);
    assert_eq!(back.groups.len(), 1);
    assert_eq!(back.persons[0].group, Some(2));
    assert_eq!(back.stays.len(), 1);
}

#[test]
fn stay_changes_use_names_and_dates() {
    let mut old = Plan::default();
    old.housings.push(Housing { id: 1, name: "Hut".into(), capacity: 4, notes: String::new() });
    old.housings.push(Housing { id: 2, name: "Barn".into(), capacity: 4, notes: String::new() });
    old.persons.push(Person { id: 3, name: "Ann".into(), group: None });
    old.persons.push(Person { id: 5, name: "Bo".into(), group: None });
    old.stays.push(Stay { id: 4, subject: Subject::Person(3), housing: 1, arrival: d(1), departure: d(2) });
    let mut new = old.clone();
    new.stays[0].housing = 2;
    new.stays[0].subject = Subject::Person(5);
    new.stays[0].departure = d(3);
    new.stays.push(Stay { id: 6, subject: Subject::Group(77), housing: 9, arrival: d(1), departure: d(2) });
    let changes = diff(&old, &new);
    let texts: Vec<String> = changes
        .iter()
        .map(|c| describe(&entry(1, c.kind.clone()), &[], Lang::English))
        .collect();
    assert_eq!(
        texts,
        vec![
            "Moved stay: Bo (Hut → Barn)",
            "Changed occupant of stay (Barn): Ann → Bo",
            "Changed dates of stay: Bo (Barn) 2026-01-01 – 2026-01-02 → 2026-01-01 – 2026-01-03",
            "Added stay: ? → ?",
        ]
    );
    let mut removed = old.clone();
    removed.stays.clear();
    let changes = diff(&old, &removed);
    assert_eq!(changes.len(), 1);
    assert_eq!(describe(&entry(1, changes[0].kind.clone()), &[], Lang::English), "Removed stay: Ann → Hut");
}

#[test]
fn moving_a_person_between_groups_is_logged_with_labels() {
    let mut old = Plan::default();
    old.groups.push(Group { id: 1, name: "Red".into(), color: [1, 0, 0] });
    old.persons.push(Person { id: 2, name: "Ann".into(), group: None });
    let mut new = old.clone();
    new.persons[0].group = Some(1);
    let changes = diff(&old, &new);
    assert_eq!(changes.len(), 1);
    assert_eq!(
        describe(&entry(1, changes[0].kind.clone()), &[], Lang::English),
        "Changed group of Ann: (no group) → Red"
    );
    assert_eq!(
        describe(&entry(1, changes[0].kind.clone()), &[], Lang::Swedish),
        "Ändrade grupp för Ann: (ingen grupp) → Red"
    );
}

#[test]
fn describe_an_undo_names_what_it_reverted() {
    let log = vec![
        entry(1, LogKind::AddPerson { name: "Ann".into() }),
        entry(2, LogKind::Undo { undoes: 1 }),
        entry(3, LogKind::Undo { undoes: 2 }),
        entry(4, LogKind::Undo { undoes: 42 }),
    ];
    assert_eq!(describe(&log[1], &log, Lang::English), "Undid: Added person: Ann");
    assert_eq!(describe(&log[2], &log, Lang::English), "Undid #2");
    assert_eq!(describe(&log[3], &log, Lang::English), "Undid #42");
    assert_eq!(describe(&log[0], &log, Lang::German), "Person hinzugefügt: Ann");
}

#[test]
fn describe_covers_every_kind_of_entry() {
    let cases: Vec<(LogKind, &str)> = vec![
        (LogKind::DeleteHousing { name: "H".into() }, "Deleted housing: H"),
        (LogKind::AddGroup { name: "G".into() }, "Created group: G"),
        (LogKind::RenameGroup { from: "A".into(), to: "B".into() }, "Renamed group: A → B"),
        (LogKind::SetGroupColor { name: "G".into() }, "Changed colour of G"),
        (LogKind::DeletePerson { name: "P".into() }, "Deleted person: P"),
        (LogKind::RenamePerson { from: "A".into(), to: "B".into() }, "Renamed person: A → B"),
        (LogKind::LoadedExample, "Loaded example data"),
        (LogKind::LoadedFile { name: "p.json".into() }, "Loaded plan from file: p.json"),
        (LogKind::LoadedFileNoHistory { name: "p.json".into() }, "Loaded a plan with no change history: p.json"),
        (LogKind::SetCapacity { name: "H".into(), from: 0, to: 4294967295 }, "Changed capacity of H: 0 → 4294967295"),
    ];
    for (kind, text) in cases {
        assert_eq!(describe(&entry(1, kind), &[], Lang::English), text);
    }
}

#[test]
fn decimal_writes_plain_digits() {
    assert_eq!(decimal(0), "0");
    assert_eq!(decimal(7), "7");
    assert_eq!(decimal(1204), "1204");
    assert_eq!(decimal(u64::MAX), "18446744073709551615");
}

#[test]
fn commit_then_undo_restores_the_plan() {
    let mut plan = Plan::default();
    let mut baseline = plan.clone();
    let mut undo: Vec<(u64, InverseOp)> = Vec::new();
    let h = plan.add_housing();
    plan.housings[0].name = "Hut".into();
    commit_changes(&mut plan, &mut baseline, &mut undo);
    assert_eq!(plan.changelog.len(), 1);
    assert_eq!(undo.len(), 1);
    assert_eq!(undo[0].0, plan.changelog[0].id);
    // A second commit without edits journals nothing.
    commit_changes(&mut plan, &mut baseline, &mut undo);
    assert_eq!(plan.changelog.len(), 1);

    plan.housings[0].capacity = 7;
    commit_changes(&mut plan, &mut baseline, &mut undo);
    assert_eq!(plan.changelog.len(), 2);

    undo_last(&mut plan, &mut baseline, &mut undo);
    assert_eq!(plan.housings[0].capacity, 2);
    assert_eq!(plan.changelog.len(), 3);
    assert_eq!(describe(&plan.changelog[2], &plan.changelog, Lang::English), "Undid: Changed capacity of Hut: 2 → 7");

    undo_last(&mut plan, &mut baseline, &mut undo);
    assert!(plan.housing(h).is_none());
    undo_last(&mut plan, &mut baseline, &mut undo);
    assert_eq!(plan.changelog.len(), 4);
}

#[test]
fn load_example_is_logged_once() {
    let mut plan = Plan::default();
    let mut baseline = Plan::default();
    load_example(&mut plan, &mut baseline);
    assert_eq!(plan.housings.len(), 2);
    assert_eq!(plan.changelog.len(), 1);
    assert!(matches!(plan.changelog[0].kind, LogKind::LoadedExample));
    assert!(diff(&baseline, &plan).is_empty());
}

#[test]
fn short_time_shows_month_day_hour_minute() {
    assert_eq!(short_time("2026-03-07T09:05:59+01:00"), "03-07 09:05");
    assert_eq!(short_time("2025-12-31T23:59:00.123456789-05:00"), "12-31 23:59");
}

#[test]
fn short_time_keeps_text_it_cannot_parse() {
    assert_eq!(short_time("yesterday"), "yesterday");
    assert_eq!(short_time(""), "");
}

#[test]
fn nothing_to_commit_at_the_last_log_id() {
    let mut plan = Plan::default();
    plan.next_log_id = u64::MAX;
    let mut baseline = plan.clone();
    let mut stack: Vec<(u64, InverseOp)> = Vec::new();
    commit_changes(&mut plan, &mut baseline, &mut stack);
    assert!(plan.changelog.is_empty());
    assert!(stack.is_empty());
    undo_last(&mut plan, &mut baseline, &mut stack);
    assert!(plan.changelog.is_empty());
    assert_eq!(plan.next_log_id, u64::MAX);
}

#[test]
fn last_change_can_take_the_last_log_id() {
    let mut baseline = Plan::default();
    let mut plan = baseline.clone();
    plan.next_log_id = u64::MAX - 1;
    baseline.next_log_id = u64::MAX - 1;
    plan.add_housing();
    let mut stack: Vec<(u64, InverseOp)> = Vec::new();
    commit_changes(&mut plan, &mut baseline, &mut stack);
    assert_eq!(plan.changelog.len(), 1);
    assert_eq!(plan.changelog[0].id, u64::MAX - 1);
    assert_eq!(plan.next_log_id, u64::MAX);
    assert_eq!(stack[0].0, u64::MAX - 1);
}

#[test]
fn undone_ids_lists_what_undo_entries_name() {
    let log = vec![
        entry(1, LogKind::AddGroup { name: "A".into() }),
        entry(2, LogKind::AddGroup { name: "B".into() }),
        entry(3, LogKind::Undo { undoes: 2 }),
        entry(4, LogKind::LoadedExample),
        entry(5, LogKind::Undo { undoes: 1 }),
    ];
    assert_eq!(undone_ids(&log), vec![2, 1]);
    assert!(undone_ids(&log[..2]).is_empty());
}

#[test]
fn loaded_file_entry_tells_history_apart() {
    assert!(matches!(loaded_file_entry("a.json".into(), true), LogKind::LoadedFile { name } if name == "a.json"));
    assert!(matches!(loaded_file_entry("b.json".into(), false), LogKind::LoadedFileNoHistory { name } if name == "b.json"));
}

#[test]
fn undoing_the_only_change_restores_every_entity() {
    let mut old = Plan::default();
    old.housings.push(Housing { id: 1, name: "H".into(), capacity: 4, notes: "n".into() });
    old.housings.push(Housing { id: 9, name: "K".into(), capacity: 2, notes: String::new() });
    old.groups.push(Group { id: 2, name: "Crew".into(), color: [1, 1, 1] });
    old.persons.push(Person { id: 3, name: "Ann".into(), group: Some(2) });
    old.persons.push(Person { id: 5, name: "Bo".into(), group: None });
    old.stays.push(Stay { id: 4, subject: Subject::Group(2), housing: 1, arrival: d(1), departure: d(2) });
    old.stays.push(Stay { id: 6, subject: Subject::Person(5), housing: 9, arrival: d(3), departure: d(5) });

    // One edit of each kind, each undone on its own.
    let edits: Vec<fn(&mut Plan)> = vec![
        |p| p.delete_group(2),
        |p| p.delete_housing(1),
        |p| p.delete_person(5),
        |p| p.delete_stay(6),
        |p| p.housings[1].capacity = 7,
        |p| p.persons[0].name = "Anna".into(),
        |p| p.stays[1].housing = 1,
        |p| {
            p.add_group();
        },
    ];
    for edit in edits {
        let mut new = old.clone();
        edit(&mut new);
        let changes = diff(&old, &new);
        assert_eq!(changes.len(), 1);
        let mut back = new.clone();
        apply_inverse(&mut back, &changes[0].inverse);
        for h in &old.housings {
            assert_eq!(back.housing(h.id), Some(h));
        }
        for g in &old.groups {
            assert_eq!(back.group(g.id), Some(g));
        }
        for p in &old.persons {
            assert_eq!(back.person(p.id), Some(p));
        }
        for s in &old.stays {
            assert_eq!(back.stays.iter().find(|x| x.id == s.id), Some(s));
        }
        assert_eq!(back.housings.len(), old.housings.len());
        assert_eq!(back.groups.len(), old.groups.len());
        assert_eq!(back.persons.len(), old.persons.len());
        assert_eq!(back.stays.len(), old.stays.len());
        assert_eq!(back.changelog.len(), new.changelog.len());
    }
}
