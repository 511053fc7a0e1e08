# housingplanner

A planner for who stays where, and when: housings with a capacity, groups,
persons, and stays that book a person or a whole group into a housing from an
arrival day (the first night) to a departure day (checkout). A timeline shows
each housing as a row of colored bars; over-capacity days and persons booked in
two places at once are flagged. Every edit is journaled in a changelog, and the
session can undo its changes one by one.

## Layout

- `src/` — the library, verified with Verus:
  - `date.rs` — calendar days as day numbers, with chrono doing the calendar.
  - `model.rs` — the plan, its view, lookups, occupancy, double bookings,
    id counters and the example plan.
  - `editing.rs` — creating and deleting entities (with their cascades) and
    the editor helpers.
  - `journal.rs` — diffing two plans into journal entries with their inverses,
    undo, and the localized descriptions of entries.
  - `timeline.rs` — what the timeline draws: which rows and stays a tab
    shows, their order, the sub-lanes of overlapping stays, visibility and
    over-capacity.
  - `i18n.rs` — the interface languages and their translation tables.
  - `laws.rs` — properties relating several operations (undo reverts a change,
    fresh ids never collide, rows are ordered, overlapping stays never share a
    lane, double bookings are flagged on both stays, …).
- `app/` — the egui/eframe desktop program around the library: widgets,
  drawing, file dialogs, JSON persistence.
- `tests/` — tests of the library on concrete values.
