//! The interactive menu as a state machine.
//!
//! A [`Tracker`] owns the habit collection and the phase of the
//! dialogue: showing the menu, waiting for a habit name, waiting for
//! a 1-based selection, or waiting for an entry's text. One call to
//! [`Tracker::step_on`] consumes one line of input and yields the
//! lines to print in response; [`Tracker::pre_lines`] and
//! [`Tracker::prompt`] say what to print before reading the next
//! line. A front end only moves text between these functions and the
//! terminal.

use vstd::prelude::*;
use vstd::string::StringExecFns;
use crate::habit::EntryModel;
use crate::habit::Habit;
use crate::habit::HabitModel;
use crate::habit::lines_view;
use crate::habit::list_entries_lines;
use crate::numbers::dec_digits;
use crate::numbers::parse_selection;
use crate::numbers::parse_selection_spec;
use crate::numbers::usize_to_string;

verus! {

/// The phase of the dialogue: what the next line of input will mean.
#[derive(Clone, Copy)]
pub enum Mode {
    /// The menu is shown; the next line picks one of the five actions.
    Menu,
    /// The next line names a habit to append to the collection.
    AwaitName,
    /// The next line is a 1-based selection; `adding` tells whether it
    /// chooses the habit to extend or the habit to display.
    AwaitSelection { adding: bool },
    /// The next line is the text of a new entry for the habit at
    /// `index` (0-based).
    AwaitEntryText { index: usize },
    /// The farewell has been printed; the dialogue is over.
    Done,
}

/// The in-memory state of one run: the habit collection, in insertion
/// order, and the dialogue phase.
pub struct Tracker {
    pub habits: Vec<Habit>,
    pub mode: Mode,
}

/// The mathematical value of a [`Tracker`].
#[verifier::ext_equal]
pub struct TrackerModel {
    pub habits: Seq<HabitModel>,
    pub mode: Mode,
}

impl View for Tracker {
    type V = TrackerModel;

    open spec fn view(&self) -> TrackerModel {
        TrackerModel { habits: self.habits@.map_values(|h: Habit| h@), mode: self.mode }
    }
}

/// A tracker is well formed when a remembered selection still lies
/// inside the collection. Habits are never removed, so every
/// transition preserves this.
pub open spec fn wf(t: TrackerModel) -> bool {
    t.mode matches Mode::AwaitEntryText { index } ==> index < t.habits.len()
}

/// Appending one habit: the collection keeps every habit it had, in
/// order, and gains the named one, with no entries, at the end.
pub open spec fn with_new_habit(habits: Seq<HabitModel>, name: Seq<char>) -> Seq<HabitModel> {
    habits.push(HabitModel { name, entries: Seq::<EntryModel>::empty() })
}

/// The bullet line shown for one habit by the list-all action.
pub open spec fn bullet_line(name: Seq<char>) -> Seq<char> {
    "- "@ + name
}

/// The bullet lines for the whole collection, in order.
pub open spec fn habit_bullets(habits: Seq<HabitModel>) -> Seq<Seq<char>> {
    habits.map_values(|h: HabitModel| bullet_line(h.name))
}

/// What the list-all action prints: a header and one bullet per
/// habit, or a notice when there are none.
pub open spec fn list_habits_lines(habits: Seq<HabitModel>) -> Seq<Seq<char>> {
    if habits.len() == 0 {
        seq!["No habits yet."@]
    } else {
        seq!["Your habits:"@] + habit_bullets(habits)
    }
}

/// The line shown for one habit in the selection list: its 1-based
/// number, `": "`, and its name.
pub open spec fn numbered_line(n: int, name: Seq<char>) -> Seq<char> {
    dec_digits(n) + ": "@ + name
}

/// The lines printed before a selection is read: a header naming the
/// purpose, then every habit with its 1-based number.
pub open spec fn selection_lines(habits: Seq<HabitModel>, adding: bool) -> Seq<Seq<char>> {
    seq![
        if adding {
            "Select a habit:"@
        } else {
            "Select a habit to view entries:"@
        },
    ] + Seq::new(habits.len(), |i: int| numbered_line(i + 1, habits[i].name))
}

/// The fixed menu: a blank line, the banner, and the five options.
pub open spec fn menu_lines() -> Seq<Seq<char>> {
    seq![
        ""@,
        "--- Habit Tracker ---"@,
        "1. Add a habit"@,
        "2. Add an entry"@,
        "3. List all habits"@,
        "4. List all entries of a habit"@,
        "5. Exit"@,
    ]
}

/// The lines to print before reading the next line of input.
pub open spec fn pre_lines_spec(t: TrackerModel) -> Seq<Seq<char>> {
    match t.mode {
        Mode::Menu => menu_lines(),
        Mode::AwaitName => Seq::<Seq<char>>::empty(),
        Mode::AwaitSelection { adding } => selection_lines(t.habits, adding),
        Mode::AwaitEntryText { .. } => Seq::<Seq<char>>::empty(),
        Mode::Done => Seq::<Seq<char>>::empty(),
    }
}

/// The prompt printed, without a line break, right before reading.
pub open spec fn prompt_spec(t: TrackerModel) -> Seq<char> {
    match t.mode {
        Mode::Menu => "Choose an option: "@,
        Mode::AwaitName => "Enter habit name: "@,
        Mode::AwaitSelection { .. } => "Enter number: "@,
        Mode::AwaitEntryText { .. } => "Enter your entry: "@,
        Mode::Done => ""@,
    }
}

/// One transition of the dialogue: from a state and one line of input
/// (with the calendar date the clock shows at that moment) to the
/// next state and the lines printed in response.
pub open spec fn spec_step(t: TrackerModel, line: Seq<char>, date: Seq<char>) -> (
    TrackerModel,
    Seq<Seq<char>>,
) {
    match t.mode {
        Mode::Menu => {
            if line == "1"@ {
                (TrackerModel { mode: Mode::AwaitName, ..t }, Seq::<Seq<char>>::empty())
            } else if line == "2"@ {
                if t.habits.len() == 0 {
                    (t, seq!["No habits found. Add one first."@])
                } else {
                    (
                        TrackerModel { mode: Mode::AwaitSelection { adding: true }, ..t },
                        Seq::<Seq<char>>::empty(),
                    )
                }
            } else if line == "3"@ {
                (t, list_habits_lines(t.habits))
            } else if line == "4"@ {
                if t.habits.len() == 0 {
                    (t, seq!["No habits found."@])
                } else {
                    (
                        TrackerModel { mode: Mode::AwaitSelection { adding: false }, ..t },
                        Seq::<Seq<char>>::empty(),
                    )
                }
            } else if line == "5"@ {
                (TrackerModel { mode: Mode::Done, ..t }, seq!["Goodbye!"@])
            } else {
                (t, seq!["Invalid option, try again."@])
            }
        },
        Mode::AwaitName => (
            TrackerModel { habits: with_new_habit(t.habits, line), mode: Mode::Menu },
            seq!["Habit added!"@],
        ),
        Mode::AwaitSelection { adding } => {
            let n = parse_selection_spec(line);
            if n == 0 || n > t.habits.len() {
                (TrackerModel { mode: Mode::Menu, ..t }, seq!["Invalid selection."@])
            } else if adding {
                (
                    TrackerModel { mode: Mode::AwaitEntryText { index: (n - 1) as usize }, ..t },
                    Seq::<Seq<char>>::empty(),
                )
            } else {
                (TrackerModel { mode: Mode::Menu, ..t }, list_entries_lines(t.habits[n - 1]))
            }
        },
        Mode::AwaitEntryText { index } => {
            let h0 = t.habits[index as int];
            let h1 = HabitModel {
                name: h0.name,
                entries: h0.entries.push(EntryModel { date, text: line }),
            };
            (
                TrackerModel { habits: t.habits.update(index as int, h1), mode: Mode::Menu },
                seq!["Entry added!"@],
            )
        },
        Mode::Done => (t, Seq::<Seq<char>>::empty()),
    }
}

/// Whether one observed transition is the one [`spec_step`] gives for
/// some date string.
pub open spec fn step_matches(
    pre: TrackerModel,
    post: TrackerModel,
    out: Seq<Seq<char>>,
    line: Seq<char>,
    date: Seq<char>,
) -> bool {
    post == spec_step(pre, line, date).0 && out == spec_step(pre, line, date).1
}

impl Tracker {
    /// A fresh run: no habits, menu about to be shown.
    pub fn new() -> (t: Tracker)
        ensures
            t@.habits =~= Seq::<HabitModel>::empty(),
            t@.mode == Mode::Menu,
            wf(t@),
    {
        Tracker { habits: Vec::new(), mode: Mode::Menu }
    }

    /// Whether the dialogue has ended.
    pub fn is_done(&self) -> (r: bool)
        ensures
            r == (self@.mode matches Mode::Done),
    {
        match self.mode {
            Mode::Done => true,
            _ => false,
        }
    }

    /// The lines to print before reading the next line of input.
    pub fn pre_lines(&self) -> (out: Vec<String>)
        ensures
            lines_view(out@) == pre_lines_spec(self@),
    {
        let mut out: Vec<String> = Vec::new();
        match self.mode {
            Mode::Menu => {
                out.push(String::from_str(""));
                out.push(String::from_str("--- Habit Tracker ---"));
                out.push(String::from_str("1. Add a habit"));
                out.push(String::from_str("2. Add an entry"));
                out.push(String::from_str("3. List all habits"));
                out.push(String::from_str("4. List all entries of a habit"));
                out.push(String::from_str("5. Exit"));
                proof {
                    assert(lines_view(out@) =~= menu_lines());
                }
            },
            Mode::AwaitSelection { adding } => {
                if adding {
                    out.push(String::from_str("Select a habit:"));
                } else {
                    out.push(String::from_str("Select a habit to view entries:"));
                }
                let n = self.habits.len();
                let mut i: usize = 0;
                while i < n
                    invariant
                        n == self.habits.len(),
                        i <= n,
                        lines_view(out@) =~= seq![
                            if adding {
                                "Select a habit:"@
                            } else {
                                "Select a habit to view entries:"@
                            },
                        ] + Seq::new(i as nat, |j: int| numbered_line(j + 1, self@.habits[j].name)),
                    decreases n - i,
                {
                    let mut l = usize_to_string(i + 1);
                    l.append(": ");
                    l.append(self.habits[i].name.as_str());
                    proof {
                        assert(l@ == numbered_line(i + 1, self@.habits[i as int].name));
                    }
                    let ghost ll: Seq<char> = l@;
                    let ghost prev: Seq<String> = out@;
                    out.push(l);
                    i = i + 1;
                    proof {
                        assert(lines_view(out@) =~= lines_view(prev).push(ll));
                        assert(lines_view(out@) =~= seq![
                            if adding {
                                "Select a habit:"@
                            } else {
                                "Select a habit to view entries:"@
                            },
                        ] + Seq::new(i as nat, |j: int| numbered_line(j + 1, self@.habits[j].name)));
                    }
                }
                proof {
                    assert(lines_view(out@) =~= selection_lines(self@.habits, adding));
                }
            },
            _ => {
            },
        }
        proof {
            assert(lines_view(out@) =~= pre_lines_spec(self@));
        }
        out
    }

    /// The prompt printed, without a line break, right before reading.
    pub fn prompt(&self) -> (r: String)
        ensures
            r@ == prompt_spec(self@),
    {
        match self.mode {
            Mode::Menu => String::from_str("Choose an option: "),
            Mode::AwaitName => String::from_str("Enter habit name: "),
            Mode::AwaitSelection { .. } => String::from_str("Enter number: "),
            Mode::AwaitEntryText { .. } => String::from_str("Enter your entry: "),
            Mode::Done => String::from_str(""),
        }
    }

    /// One transition on a given date string: exactly the step
    /// [`spec_step`] describes. Takes the date as an argument so that
    /// the whole transition is pinned down; [`Tracker::step`] feeds it
    /// the clock's date.
    pub fn step_on(&mut self, line: String, date: String) -> (out: Vec<String>)
        requires
            wf(old(self)@),
        ensures
            wf(final(self)@),
            final(self)@ == spec_step(old(self)@, line@, date@).0,
            lines_view(out@) == spec_step(old(self)@, line@, date@).1,
    {
        let ghost pre: TrackerModel = self@;
        let ghost lv: Seq<char> = line@;
        let ghost dv: Seq<char> = date@;
        let mut out: Vec<String> = Vec::new();
        let mode = self.mode;
        match mode {
            Mode::Menu => {
                if line == String::from_str("1") {
                    self.mode = Mode::AwaitName;
                } else if line == String::from_str("2") {
                    if self.habits.len() == 0 {
                        out.push(String::from_str("No habits found. Add one first."));
                    } else {
                        self.mode = Mode::AwaitSelection { adding: true };
                    }
                } else if line == String::from_str("3") {
                    if self.habits.len() == 0 {
                        out.push(String::from_str("No habits yet."));
                    } else {
                        out.push(String::from_str("Your habits:"));
                        let n = self.habits.len();
                        let mut i: usize = 0;
                        while i < n
                            invariant
                                n == self.habits.len(),
                                i <= n,
                                lines_view(out@) =~= seq!["Your habits:"@] + habit_bullets(
                                    self@.habits.take(i as int),
                                ),
                            decreases n - i,
                        {
                            let ghost i0: int = i as int;
                            let mut l = String::from_str("- ");
                            l.append(self.habits[i].name.as_str());
                            proof {
                                assert(l@ == bullet_line(self@.habits[i0].name));
                            }
                            let ghost ll: Seq<char> = l@;
                            let ghost prev: Seq<String> = out@;
                            out.push(l);
                            i = i + 1;
                            proof {
                                assert(lines_view(out@) =~= lines_view(prev).push(ll));
                                assert(self@.habits.take(i0 + 1) =~= self@.habits.take(i0).push(
                                    self@.habits[i0],
                                ));
                                assert(habit_bullets(self@.habits.take(i0 + 1)) =~= habit_bullets(
                                    self@.habits.take(i0),
                                ).push(bullet_line(self@.habits[i0].name)));
                                assert(lines_view(out@) =~= seq!["Your habits:"@] + habit_bullets(
                                    self@.habits.take(i as int),
                                ));
                            }
                        }
                        proof {
                            assert(self@.habits.take(n as int) =~= self@.habits);
                        }
                    }
                } else if line == String::from_str("4") {
                    if self.habits.len() == 0 {
                        out.push(String::from_str("No habits found."));
                    } else {
                        self.mode = Mode::AwaitSelection { adding: false };
                    }
                } else if line == String::from_str("5") {
                    self.mode = Mode::Done;
                    out.push(String::from_str("Goodbye!"));
                } else {
                    out.push(String::from_str("Invalid option, try again."));
                }
            },
            Mode::AwaitName => {
                self.habits.push(Habit::new(line));
                self.mode = Mode::Menu;
                out.push(String::from_str("Habit added!"));
                proof {
                    assert(self@.habits =~= with_new_habit(pre.habits, lv));
                }
            },
            Mode::AwaitSelection { adding } => {
                let n = parse_selection(line.as_str());
                if n == 0 || n > self.habits.len() {
                    self.mode = Mode::Menu;
                    out.push(String::from_str("Invalid selection."));
                } else if adding {
                    self.mode = Mode::AwaitEntryText { index: n - 1 };
                } else {
                    out = self.habits[n - 1].list_entries();
                    self.mode = Mode::Menu;
                }
            },
            Mode::AwaitEntryText { index } => {
                let mut h = self.habits.remove(index);
                h.add_entry_on(date, line);
                self.habits.insert(index, h);
                self.mode = Mode::Menu;
                out.push(String::from_str("Entry added!"));
                proof {
                    let h1 = HabitModel {
                        name: pre.habits[index as int].name,
                        entries: pre.habits[index as int].entries.push(
                            EntryModel { date: dv, text: lv },
                        ),
                    };
                    assert(self@.habits =~~= pre.habits.update(index as int, h1));
                }
            },
            Mode::Done => {
            },
        }
        proof {
            assert(self@ =~~= spec_step(pre, lv, dv).0);
            assert(lines_view(out@) =~~= spec_step(pre, lv, dv).1);
        }
        out
    }

    /// One transition on the date the clock shows now: the step
    /// [`spec_step`] describes for that date. Which date the clock
    /// gave is not pinned, so the contract says the transition matches
    /// some date string.
    pub fn step(&mut self, line: String) -> (out: Vec<String>)
        requires
            wf(old(self)@),
        ensures
            wf(final(self)@),
            exists|d: Seq<char>| #[trigger] step_matches(
                old(self)@,
                final(self)@,
                lines_view(out@),
                line@,
                d,
            ),
    {
        let date = crate::habit::today_string();
        let ghost dv: Seq<char> = date@;
        let out = self.step_on(line, date);
        proof {
            assert(step_matches(old(self)@, self@, lines_view(out@), line@, dv));
        }
        out
    }
}

} // verus!
