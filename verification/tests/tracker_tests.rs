use habit_tracker::tracker::Tracker;

fn step(t: &mut Tracker, line: &str) -> Vec<String> {
    t.step_on(line.to_string(), "2024-01-01".to_string())
}

fn step_on_date(t: &mut Tracker, line: &str, date: &str) -> Vec<String> {
    t.step_on(line.to_string(), date.to_string())
}

#[test]
fn menu_is_shown_before_the_first_read() {
    let t = Tracker::new();
    let lines = t.pre_lines();
    assert_eq!(
        lines,
        vec![
            "".to_string(),
            "--- Habit Tracker ---".to_string(),
            "1. Add a habit".to_string(),
            "2. Add an entry".to_string(),
            "3. List all habits".to_string(),
            "4. List all entries of a habit".to_string(),
            "5. Exit".to_string(),
        ]
    );
    assert_eq!(t.prompt(), "Choose an option: ".to_string());
}

#[test]
fn scenario_add_habit_then_list() {
    let mut t = Tracker::new();
    assert_eq!(step(&mut t, "1"), Vec::<String>::new());
    assert_eq!(t.prompt(), "Enter habit name: ".to_string());
    assert_eq!(step(&mut t, "Reading"), vec!["Habit added!".to_string()]);
    let out = step(&mut t, "3");
    assert_eq!(out, vec!["Your habits:".to_string(), "- Reading".to_string()]);
}

#[test]
fn scenario_add_entry_then_list_entries() {
    let mut t = Tracker::new();
    step(&mut t, "1");
    step(&mut t, "Reading");
    assert_eq!(step(&mut t, "2"), Vec::<String>::new());
    let selection = t.pre_lines();
    assert_eq!(
        selection,
        vec!["Select a habit:".to_string(), "1: Reading".to_string()]
    );
    assert_eq!(t.prompt(), "Enter number: ".to_string());
    assert_eq!(step(&mut t, "1"), Vec::<String>::new());
    assert_eq!(t.prompt(), "Enter your entry: ".to_string());
    assert_eq!(
        step_on_date(&mut t, "Read 10 pages", "2024-01-01"),
        vec!["Entry added!".to_string()]
    );
    step(&mut t, "4");
    assert_eq!(
        t.pre_lines(),
        vec![
            "Select a habit to view entries:".to_string(),
            "1: Reading".to_string(),
        ]
    );
    let out = step(&mut t, "1");
    assert_eq!(out, vec!["2024-01-01: Read 10 pages".to_string()]);
}

#[test]
fn scenario_add_entry_with_no_habits_reports_and_returns_to_menu() {
    let mut t = Tracker::new();
    let out = step(&mut t, "2");
    assert_eq!(out, vec!["No habits found. Add one first.".to_string()]);
    // Straight back to the menu: no selection or text prompt follows.
    assert_eq!(t.prompt(), "Choose an option: ".to_string());
    assert_eq!(t.pre_lines().len(), 7);
}

#[test]
fn scenario_non_numeric_selection_is_invalid() {
    let mut t = Tracker::new();
    step(&mut t, "1");
    step(&mut t, "Reading");
    step(&mut t, "4");
    let out = step(&mut t, "abc");
    assert_eq!(out, vec!["Invalid selection.".to_string()]);
    // No entry listing was shown and the menu is back.
    assert_eq!(t.prompt(), "Choose an option: ".to_string());
}

#[test]
fn scenario_exit_prints_goodbye_and_ends() {
    let mut t = Tracker::new();
    let out = step(&mut t, "5");
    assert_eq!(out, vec!["Goodbye!".to_string()]);
    assert!(t.is_done());
}

#[test]
fn boundary_selections_all_fail_alike_and_change_nothing() {
    for bad in ["0", "abc", "2", "-1"] {
        let mut t = Tracker::new();
        step(&mut t, "1");
        step(&mut t, "Reading");
        step(&mut t, "2");
        let out = step(&mut t, bad);
        assert_eq!(out, vec!["Invalid selection.".to_string()], "input {bad:?}");
        // The collection is unmodified: still exactly one habit with no
        // entries.
        assert_eq!(t.habits.len(), 1);
        assert_eq!(t.habits[0].name, "Reading".to_string());
        assert_eq!(t.habits[0].entries.len(), 0);
    }
}

#[test]
fn habits_are_listed_in_insertion_order() {
    let mut t = Tracker::new();
    for name in ["Reading", "Gym", "Reading"] {
        step(&mut t, "1");
        step(&mut t, name);
    }
    assert_eq!(t.habits.len(), 3);
    let out = step(&mut t, "3");
    assert_eq!(
        out,
        vec![
            "Your habits:".to_string(),
            "- Reading".to_string(),
            "- Gym".to_string(),
            "- Reading".to_string(),
        ]
    );
    assert_eq!(
        t.pre_lines()[0..1],
        ["".to_string()],
        "back at the menu after listing"
    );
}

#[test]
fn selection_list_numbers_habits_from_one() {
    let mut t = Tracker::new();
    for name in ["Reading", "Gym"] {
        step(&mut t, "1");
        step(&mut t, name);
    }
    step(&mut t, "2");
    assert_eq!(
        t.pre_lines(),
        vec![
            "Select a habit:".to_string(),
            "1: Reading".to_string(),
            "2: Gym".to_string(),
        ]
    );
}

#[test]
fn listing_habits_when_none_exist_reports_so() {
    let mut t = Tracker::new();
    let out = step(&mut t, "3");
    assert_eq!(out, vec!["No habits yet.".to_string()]);
}

#[test]
fn viewing_entries_with_no_habits_reports_so() {
    let mut t = Tracker::new();
    let out = step(&mut t, "4");
    assert_eq!(out, vec!["No habits found.".to_string()]);
    assert_eq!(t.prompt(), "Choose an option: ".to_string());
}

#[test]
fn unrecognized_option_is_reported_and_loop_continues() {
    let mut t = Tracker::new();
    let out = step(&mut t, "six");
    assert_eq!(out, vec!["Invalid option, try again.".to_string()]);
    assert!(!t.is_done());
    assert_eq!(t.prompt(), "Choose an option: ".to_string());
}

#[test]
fn empty_habit_name_is_accepted() {
    let mut t = Tracker::new();
    step(&mut t, "1");
    assert_eq!(step(&mut t, ""), vec!["Habit added!".to_string()]);
    let out = step(&mut t, "3");
    assert_eq!(out, vec!["Your habits:".to_string(), "- ".to_string()]);
}

#[test]
fn entry_dates_come_from_the_given_date_string() {
    let mut t = Tracker::new();
    step(&mut t, "1");
    step(&mut t, "Walking");
    step(&mut t, "2");
    step(&mut t, "1");
    step_on_date(&mut t, "around the block", "2023-12-31");
    step(&mut t, "2");
    step(&mut t, "1");
    step_on_date(&mut t, "to the store", "2024-01-01");
    step(&mut t, "4");
    let out = step(&mut t, "1");
    assert_eq!(
        out,
        vec![
            "2023-12-31: around the block".to_string(),
            "2024-01-01: to the store".to_string(),
        ]
    );
}
