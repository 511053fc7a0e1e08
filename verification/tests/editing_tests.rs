use housingplanner::date::Date;
use housingplanner::editing::{default_subject, ensure_selection};
use housingplanner::model::{Housing, Person, Plan, Stay, Subject, GROUP_PALETTE};
use housingplanner::timeline::{over_capacity, row_lanes, stay_visible};

fn d(n: u32) -> Date {
    Date::from_ymd(2026, 3, n).unwrap()
}

#[test]
fn new_entities_are_numbered_and_get_palette_colors() {
    let mut plan = Plan::default();
    let h = plan.add_housing();
    let g1 = plan.add_group();
    let g2 = plan.add_group();
    let p = plan.add_person(Some(g1));
    assert_eq!(plan.housings[0].name, "Housing 1");
    assert_eq!(plan.housings[0].capacity, 2);
    assert_eq!(plan.groups[1].name, "Group 2");
    assert_eq!(plan.groups[0].color, GROUP_PALETTE[0]);
    assert_eq!(plan.groups[1].color, GROUP_PALETTE[1]);
    assert_eq!(plan.persons[0].name, "Person 1");
    assert_eq!(plan.persons[0].group, Some(g1));
    assert_eq!((h, g1, g2, p), (1, 2, 3, 4));
    let s = plan.add_stay(Subject::Person(p), h, d(1));
    assert_eq!(plan.stays[0].id, s);
    assert_eq!(plan.stays[0].departure, d(8));
}

#[test]
fn deleting_cascades_to_dependents() {
    let mut plan = Plan::default();
    let h = plan.add_housing();
    let g = plan.add_group();
    let p = plan.add_person(Some(g));
    plan.add_stay(Subject::Group(g), h, d(1));
    plan.add_stay(Subject::Person(p), h, d(2));
    let mut a = plan.clone();
    a.delete_group(g);
    assert!(a.groups.is_empty());
    assert_eq!(a.persons[0].group, None);
    assert_eq!(a.stays.len(), 1);
    let mut b = plan.clone();
    b.delete_person(p);
    assert!(b.persons.is_empty());
    assert_eq!(b.stays.len(), 1);
    let mut c = plan.clone();
    c.delete_housing(h);
    assert!(c.housings.is_empty() && c.stays.is_empty());
    let mut e = plan.clone();
    let sid = e.stays[0].id;
    e.delete_stay(sid);
    assert_eq!(e.stays.len(), 1);
    e.set_person_group(p, None);
    assert_eq!(e.persons[0].group, None);
}

#[test]
fn departure_snaps_to_arrival() {
    let mut s = Stay { id: 1, subject: Subject::Person(1), housing: 1, arrival: d(5), departure: d(3) };
    s.keep_dates_ordered();
    assert_eq!(s.departure, d(5));
    let mut t = Stay { id: 1, subject: Subject::Person(1), housing: 1, arrival: d(5), departure: d(9) };
    t.keep_dates_ordered();
    assert_eq!(t.departure, d(9));
}

#[test]
fn selection_follows_the_list() {
    let mut sel = Some(5);
    ensure_selection(&mut sel, &[1, 5]);
    assert_eq!(sel, Some(5));
    ensure_selection(&mut sel, &[2, 3]);
    assert_eq!(sel, Some(2));
    ensure_selection(&mut sel, &[]);
    assert_eq!(sel, None);
}

#[test]
fn default_subject_prefers_persons() {
    let mut plan = Plan::default();
    assert_eq!(default_subject(&plan), None);
    let g = plan.add_group();
    assert_eq!(default_subject(&plan), Some(Subject::Group(g)));
    plan.persons.push(Person { id: 9, name: "P".into(), group: None });
    assert_eq!(default_subject(&plan), Some(Subject::Person(9)));
}

#[test]
fn rows_are_sorted_by_arrival_and_stable() {
    let mut plan = Plan::default();
    plan.stays.push(Stay { id: 1, subject: Subject::Person(1), housing: 7, arrival: d(5), departure: d(6) });
    plan.stays.push(Stay { id: 2, subject: Subject::Person(1), housing: 8, arrival: d(1), departure: d(6) });
    plan.stays.push(Stay { id: 3, subject: Subject::Person(1), housing: 7, arrival: d(2), departure: d(6) });
    plan.stays.push(Stay { id: 4, subject: Subject::Person(1), housing: 7, arrival: d(5), departure: d(9) });
    let ids: Vec<u64> = plan.row_stays(7).iter().map(|s| s.id).collect();
    assert_eq!(ids, vec![3, 1, 4]);
}

#[test]
fn visibility_and_over_capacity_use_the_window() {
    let mut plan = Plan::default();
    let h = plan.add_housing();
    let p = plan.add_person(None);
    let q = plan.add_person(None);
    let r = plan.add_person(None);
    plan.add_stay(Subject::Person(p), h, d(10));
    plan.add_stay(Subject::Person(q), h, d(12));
    plan.add_stay(Subject::Person(r), h, d(16));
    let housing = plan.housings[0].clone();
    assert!(!over_capacity(&plan, &housing, d(1), 12));
    assert!(!over_capacity(&plan, &housing, d(1), 15));
    assert!(over_capacity(&plan, &housing, d(1), 16));
    assert!(stay_visible(&plan.stays[0], d(1), d(11)));
    assert!(!stay_visible(&plan.stays[0], d(1), d(10)));
    assert!(!stay_visible(&plan.stays[0], d(17), d(20)));
}

#[test]
fn tabs_show_the_stays_and_rows_of_their_subject() {
    let mut plan = Plan::default();
    let (h1, h2, h3) = (plan.new_id(), plan.new_id(), plan.new_id());
    for (id, name) in [(h1, "A"), (h2, "B"), (h3, "C")] {
        plan.housings.push(Housing { id, name: name.into(), capacity: 4, notes: String::new() });
    }
    let g = plan.new_id();
    let (alice, bob) = (plan.new_id(), plan.new_id());
    plan.persons.push(Person { id: alice, name: "Alice".into(), group: Some(g) });
    plan.persons.push(Person { id: bob, name: "Bob".into(), group: None });
    let (s1, s2, s3) = (plan.new_id(), plan.new_id(), plan.new_id());
    plan.stays.push(Stay { id: s1, subject: Subject::Person(bob), housing: h1, arrival: d(1), departure: d(3) });
    plan.stays.push(Stay { id: s2, subject: Subject::Group(g), housing: h3, arrival: d(1), departure: d(3) });
    plan.stays.push(Stay { id: s3, subject: Subject::Person(alice), housing: h2, arrival: d(5), departure: d(6) });

    let group_stays = plan.stays_of_subject(Subject::Group(g));
    assert_eq!(group_stays, vec![s2]);
    assert_eq!(plan.housings_holding(&group_stays), vec![h3]);

    // Alice's own stay and her group's stay; rows in plan order.
    let alice_stays = plan.stays_including_person(alice);
    assert_eq!(alice_stays, vec![s2, s3]);
    assert_eq!(plan.housings_holding(&alice_stays), vec![h2, h3]);

    assert_eq!(plan.stays_including_person(bob), vec![s1]);
    assert!(plan.stays_of_subject(Subject::Person(999)).is_empty());
    assert!(plan.housings_holding(&Vec::new()).is_empty());
}

#[test]
fn overlapping_stays_get_their_own_lanes() {
    let stay = |id: u64, a: u32, b: u32| Stay {
        id,
        subject: Subject::Person(1),
        housing: 1,
        arrival: d(a),
        departure: d(b),
    };
    // 1..5 and 3..7 overlap; 5..9 fits after the first; 6..8 overlaps both
    // open lanes and takes a third; 9..10 fits back in the first.
    let row = vec![stay(1, 1, 5), stay(2, 3, 7), stay(3, 5, 9), stay(4, 6, 8), stay(5, 9, 10)];
    assert_eq!(row_lanes(&row), vec![0, 1, 0, 2, 0]);
    // Back-to-back stays (checkout day = next arrival) share a lane.
    assert_eq!(row_lanes(&vec![stay(1, 1, 3), stay(2, 3, 5)]), vec![0, 0]);
    assert!(row_lanes(&Vec::new()).is_empty());
}

#[test]
fn edited_stays_keep_their_dates_ordered() {
    let mut plan = Plan::default();
    let stay = |id: u64, a: u32, b: u32| Stay { id, subject: Subject::Person(1), housing: 1, arrival: d(a), departure: d(b) };
    plan.stays.push(stay(1, 5, 3));
    plan.stays.push(stay(2, 5, 3));
    plan.stays.push(stay(3, 2, 4));
    plan.keep_dates_ordered_for(&vec![1, 3]);
    assert_eq!(plan.stays[0].departure, d(5));
    // Not shown by the editor: left as it was.
    assert_eq!(plan.stays[1].departure, d(3));
    assert_eq!(plan.stays[2].departure, d(4));
}

#[test]
fn the_view_starts_two_days_before_the_first_arrival() {
    let mut plan = Plan::default();
    let today = d(20);
    assert_eq!(plan.view_start(today), today);
    plan.stays.push(Stay { id: 1, subject: Subject::Person(1), housing: 1, arrival: d(10), departure: d(12) });
    plan.stays.push(Stay { id: 2, subject: Subject::Person(1), housing: 1, arrival: d(6), departure: d(8) });
    assert_eq!(plan.view_start(today), d(4));
}
