use housingplanner::date::Date;
use housingplanner::i18n::Lang;
use housingplanner::model::LogKind;
use housingplanner::model::{Group, Housing, Person, Plan, Stay, Subject, DEFAULT_BAR_COLOR, GROUP_PALETTE};

fn d(n: u32) -> Date {
    Date::from_ymd(2026, 1, n).unwrap()
}

fn housing(id: u64, name: &str, capacity: u32) -> Housing {
    Housing { id, name: name.into(), capacity, notes: String::new() }
}

#[test]
fn sample_has_an_over_capacity_day() {
    let mut plan = Plan::default();
    plan.load_sample();

    let cabin = plan
        .housings
        .iter()
        .find(|h| h.name == "Cabin A")
        .expect("cabin exists")
        .clone();
    let today = Date::today();
    // Smiths (2) overlap Dana (1) on day +2..+4 in a capacity-2 housing.
    let day = today.checked_add_days(2).unwrap();
    assert!(plan.occupancy(cabin.id, day) > cabin.capacity);
}

#[test]
fn detects_person_in_two_places() {
    let mut plan = Plan::default();
    let (h1, h2) = (plan.new_id(), plan.new_id());
    plan.housings.push(housing(h1, "A", 9));
    plan.housings.push(housing(h2, "B", 9));
    let p = plan.new_id();
    plan.persons.push(Person { id: p, name: "P".into(), group: None });

    let (s1, s2, s3) = (plan.new_id(), plan.new_id(), plan.new_id());
    // s1 & s2 overlap in different housings -> clash. s3 is later, no clash.
    plan.stays.push(Stay { id: s1, subject: Subject::Person(p), housing: h1, arrival: d(1), departure: d(5) });
    plan.stays.push(Stay { id: s2, subject: Subject::Person(p), housing: h2, arrival: d(3), departure: d(7) });
    plan.stays.push(Stay { id: s3, subject: Subject::Person(p), housing: h2, arrival: d(10), departure: d(12) });

    let clash = plan.subject_double_bookings();
    assert!(clash.contains(&s1) && clash.contains(&s2));
    assert!(!clash.contains(&s3));
}

#[test]
fn group_member_clashes_with_individual_booking() {
    let mut plan = Plan::default();
    let (h1, h2) = (plan.new_id(), plan.new_id());
    plan.housings.push(housing(h1, "A", 9));
    plan.housings.push(housing(h2, "B", 9));
    let g = plan.new_id();
    plan.groups.push(Group { id: g, name: "G".into(), color: [1, 2, 3] });
    let p = plan.new_id();
    plan.persons.push(Person { id: p, name: "P".into(), group: Some(g) });

    let (gs, ps) = (plan.new_id(), plan.new_id());
    // Group booked at A; the member booked individually at B, overlapping.
    plan.stays.push(Stay { id: gs, subject: Subject::Group(g), housing: h1, arrival: d(1), departure: d(5) });
    plan.stays.push(Stay { id: ps, subject: Subject::Person(p), housing: h2, arrival: d(2), departure: d(4) });

    let clash = plan.subject_double_bookings();
    assert!(clash.contains(&gs) && clash.contains(&ps));
}

#[test]
fn same_housing_overlap_is_not_a_double_location() {
    let mut plan = Plan::default();
    let h = plan.new_id();
    plan.housings.push(housing(h, "A", 9));
    let p = plan.new_id();
    plan.persons.push(Person { id: p, name: "P".into(), group: None });

    let (s1, s2) = (plan.new_id(), plan.new_id());
    plan.stays.push(Stay { id: s1, subject: Subject::Person(p), housing: h, arrival: d(1), departure: d(5) });
    plan.stays.push(Stay { id: s2, subject: Subject::Person(p), housing: h, arrival: d(3), departure: d(7) });

    assert!(plan.subject_double_bookings().is_empty());
}

#[test]
fn stay_includes_person_direct_and_via_group() {
    let mut plan = Plan::default();
    let h = plan.new_id();
    plan.housings.push(housing(h, "A", 9));
    let g = plan.new_id();
    plan.groups.push(Group { id: g, name: "G".into(), color: [1, 2, 3] });
    let member = plan.new_id();
    let outsider = plan.new_id();
    plan.persons.push(Person { id: member, name: "M".into(), group: Some(g) });
    plan.persons.push(Person { id: outsider, name: "O".into(), group: None });

    let own = Stay { id: plan.new_id(), subject: Subject::Person(member), housing: h, arrival: d(1), departure: d(3) };
    let grp = Stay { id: plan.new_id(), subject: Subject::Group(g), housing: h, arrival: d(1), departure: d(3) };

    assert!(plan.stay_includes_person(&own, member));
    assert!(!plan.stay_includes_person(&own, outsider));
    assert!(plan.stay_includes_person(&grp, member)); // via group
    assert!(!plan.stay_includes_person(&grp, outsider));

    assert_eq!(plan.persons_in_group(g).len(), 1);
}

#[test]
fn reseed_ids_avoids_collisions() {
    // A plan whose ids are high but whose next_id is stale.
    let mut plan = Plan::default();
    plan.housings.push(housing(50, "H", 2));
    plan.reseed_ids();
    let fresh = plan.new_id();
    assert!(fresh > 50, "new id {fresh} must not collide with loaded ids");
}

#[test]
fn reseed_ids_moves_journal_counter_past_logged_ids() {
    let mut plan = Plan::default();
    let id = plan.push_log(LogKind::LoadedExample);
    assert_eq!(id, 1);
    plan.next_log_id = 1;
    plan.reseed_ids();
    assert_eq!(plan.new_log_id(), 2);
}

#[test]
fn reseed_ids_keeps_a_counter_that_is_already_ahead() {
    let mut plan = Plan::default();
    plan.housings.push(housing(3, "H", 2));
    plan.next_id = 10;
    plan.reseed_ids();
    assert_eq!(plan.new_id(), 10);
}

#[test]
fn new_ids_count_up_from_one() {
    let mut plan = Plan::default();
    assert_eq!(plan.new_id(), 1);
    assert_eq!(plan.new_id(), 2);
    assert_eq!(plan.new_log_id(), 1);
    assert_eq!(plan.new_log_id(), 2);
}

#[test]
fn push_log_appends_entries_with_increasing_ids() {
    let mut plan = Plan::default();
    let a = plan.push_log(LogKind::LoadedExample);
    let b = plan.push_log(LogKind::AddGroup { name: "Crew".into() });
    assert_eq!((a, b), (1, 2));
    assert_eq!(plan.changelog.len(), 2);
    assert_eq!(plan.changelog[1].id, 2);
    assert!(!plan.changelog[1].time.is_empty());
}

#[test]
fn headcount_color_and_label_follow_the_group() {
    let mut plan = Plan::default();
    let g = plan.new_id();
    plan.groups.push(Group { id: g, name: "Crew".into(), color: [9, 8, 7] });
    let a = plan.new_id();
    let b = plan.new_id();
    let loner = plan.new_id();
    plan.persons.push(Person { id: a, name: "Ann".into(), group: Some(g) });
    plan.persons.push(Person { id: b, name: "Ben".into(), group: Some(g) });
    plan.persons.push(Person { id: loner, name: "Lo".into(), group: None });

    assert_eq!(plan.subject_headcount(Subject::Group(g)), 2);
    assert_eq!(plan.subject_headcount(Subject::Person(a)), 1);
    assert_eq!(plan.subject_color(Subject::Group(g)), [9, 8, 7]);
    assert_eq!(plan.subject_color(Subject::Person(a)), [9, 8, 7]);
    assert_eq!(plan.subject_color(Subject::Person(loner)), DEFAULT_BAR_COLOR);
    assert_eq!(plan.subject_color(Subject::Group(999)), DEFAULT_BAR_COLOR);

    assert_eq!(plan.subject_label(Subject::Person(a), Lang::English), "Ann");
    assert_eq!(plan.subject_label(Subject::Group(g), Lang::English), "Crew (group)");
    assert_eq!(plan.subject_label(Subject::Group(g), Lang::Swedish), "Crew (grupp)");
    assert_eq!(plan.subject_label(Subject::Person(999), Lang::English), "<deleted person>");
    assert_eq!(plan.subject_label(Subject::Group(999), Lang::Swedish), "<borttagen grupp>");
}

#[test]
fn occupancy_counts_arrival_day_but_not_departure_day() {
    let mut plan = Plan::default();
    let h = plan.new_id();
    plan.housings.push(housing(h, "A", 1));
    let p = plan.new_id();
    plan.persons.push(Person { id: p, name: "P".into(), group: None });
    plan.stays.push(Stay { id: 7, subject: Subject::Person(p), housing: h, arrival: d(2), departure: d(4) });

    assert_eq!(plan.occupancy(h, d(1)), 0);
    assert_eq!(plan.occupancy(h, d(2)), 1);
    assert_eq!(plan.occupancy(h, d(3)), 1);
    assert_eq!(plan.occupancy(h, d(4)), 0);
    assert!(Plan::stay_covers(&plan.stays[0], d(2)));
    assert!(!Plan::stay_covers(&plan.stays[0], d(4)));
    assert!(!plan.occupancy_exceeds(h, d(3), 1));
    assert!(plan.occupancy_exceeds(h, d(3), 0));
}

#[test]
fn earliest_arrival_is_the_minimum() {
    let mut plan = Plan::default();
    assert_eq!(plan.earliest_arrival(), None);
    plan.stays.push(Stay { id: 1, subject: Subject::Person(1), housing: 1, arrival: d(9), departure: d(10) });
    plan.stays.push(Stay { id: 2, subject: Subject::Person(1), housing: 1, arrival: d(3), departure: d(10) });
    plan.stays.push(Stay { id: 3, subject: Subject::Person(1), housing: 1, arrival: d(5), departure: d(10) });
    assert_eq!(plan.earliest_arrival(), Some(d(3)));
}

#[test]
fn lookups_find_the_first_match() {
    let mut plan = Plan::default();
    plan.housings.push(housing(4, "first", 1));
    plan.housings.push(housing(4, "second", 1));
    assert_eq!(plan.housing(4).unwrap().name, "first");
    assert!(plan.housing(5).is_none());
    assert!(plan.group(1).is_none());
    assert!(plan.person(1).is_none());
    assert!(plan.is_empty() == false);
    assert!(Plan::default().is_empty());
}

#[test]
fn load_sample_around_builds_the_illustrative_plan() {
    let today = d(10);
    let mut plan = Plan::default();
    plan.load_sample_around(today);
    assert_eq!(plan.housings.len(), 2);
    assert_eq!(plan.groups.len(), 2);
    assert_eq!(plan.persons.len(), 3);
    assert_eq!(plan.stays.len(), 4);
    assert_eq!(plan.housings[0].name, "Cabin A");
    assert_eq!(plan.groups[1].color, GROUP_PALETTE[2]);
    assert_eq!(plan.stays[3].arrival, d(12));
    assert_eq!(plan.stays[3].departure, d(14));
    assert_eq!(plan.new_id(), 12);
    // Dana is booked in the Lodge and Cabin A at once.
    let clash = plan.subject_double_bookings();
    assert!(clash.contains(&plan.stays[1].id) && clash.contains(&plan.stays[3].id));
}

#[test]
fn largest_ids_looks_at_every_list() {
    let mut plan = Plan::default();
    assert_eq!(plan.largest_ids(), (0, 0));
    plan.housings.push(housing(4, "A", 1));
    plan.groups.push(Group { id: 9, name: "G".into(), color: [0, 0, 0] });
    plan.persons.push(Person { id: 2, name: "P".into(), group: None });
    plan.stays.push(Stay { id: 7, subject: Subject::Person(2), housing: 4, arrival: d(1), departure: d(2) });
    plan.changelog.push(housingplanner::model::LogEntry { id: 12, time: String::new(), kind: LogKind::LoadedExample });
    plan.changelog.push(housingplanner::model::LogEntry { id: 3, time: String::new(), kind: LogKind::LoadedExample });
    assert_eq!(plan.largest_ids(), (9, 12));
}

#[test]
fn load_sample_always_adds_the_sample() {
    let mut plan = Plan::default();
    plan.load_sample();
    assert_eq!(plan.housings.len(), 2);
    assert_eq!(plan.groups.len(), 2);
    assert_eq!(plan.persons.len(), 3);
    assert_eq!(plan.stays.len(), 4);
    assert_eq!(plan.new_id(), 12);
    // Around today's date: the earliest arrival lies within the sample's span.
    let today = Date::today();
    let first = plan.earliest_arrival().unwrap();
    assert!(today.days_until(first).abs() <= 12);
}
