//! The data model: a habit with a name and an append-only log of
//! dated entries.

use vstd::prelude::*;
use vstd::string::StringExecFns;

verus! {

/// One dated note in a habit's log. Immutable once created.
pub struct Entry {
    pub date: String,
    pub text: String,
}

/// The mathematical value of an [`Entry`]: its two strings as
/// sequences of characters.
pub struct EntryModel {
    pub date: Seq<char>,
    pub text: Seq<char>,
}

impl View for Entry {
    type V = EntryModel;

    open spec fn view(&self) -> EntryModel {
        EntryModel { date: self.date@, text: self.text@ }
    }
}

/// A named habit owning an ordered, append-only sequence of entries.
pub struct Habit {
    pub name: String,
    pub entries: Vec<Entry>,
}

/// The mathematical value of a [`Habit`].
pub struct HabitModel {
    pub name: Seq<char>,
    pub entries: Seq<EntryModel>,
}

impl View for Habit {
    type V = HabitModel;

    open spec fn view(&self) -> HabitModel {
        HabitModel { name: self.name@, entries: self.entries@.map_values(|e: Entry| e@) }
    }
}

/// The line shown for one entry: its date, a separating `": "`, and
/// its text.
pub open spec fn entry_line(e: EntryModel) -> Seq<char> {
    e.date + ": "@ + e.text
}

/// The notice shown when a habit's log is empty, naming the habit.
pub open spec fn no_entries_line(name: Seq<char>) -> Seq<char> {
    "No entries yet for '"@ + name + "'."@
}

/// The lines for a sequence of entries, one per entry, in order.
pub open spec fn entry_lines(entries: Seq<EntryModel>) -> Seq<Seq<char>> {
    entries.map_values(|e: EntryModel| entry_line(e))
}

/// The full listing of a habit's log: one line per entry in insertion
/// order, or the single empty-log notice.
pub open spec fn list_entries_lines(h: HabitModel) -> Seq<Seq<char>> {
    if h.entries.len() == 0 {
        seq![no_entries_line(h.name)]
    } else {
        entry_lines(h.entries)
    }
}

/// The views of a vector of lines.
pub open spec fn lines_view(v: Seq<String>) -> Seq<Seq<char>> {
    v.map_values(|s: String| s@)
}

/// Relies on chrono's `Local::now` and `DateTime::format` with the
/// pattern `%Y-%m-%d`: the call renders the machine's local calendar
/// date. The result depends on the system clock and time zone, so
/// nothing is promised of it; callers state what holds of every
/// outcome. Should the platform fail to supply a local time, the
/// call aborts the process: a corrupt date is never produced.
#[verifier::external_body]
pub(crate) fn today_string() -> String {
    chrono::Local::now().format("%Y-%m-%d").to_string()
}

impl Habit {
    /// Constructs a habit with the given name and no entries.
    /// Any name is accepted, including the empty string.
    pub fn new(name: String) -> (h: Habit)
        ensures
            h@.name == name@,
            h@.entries =~= Seq::<EntryModel>::empty(),
    {
        Habit { name, entries: Vec::new() }
    }

    /// Appends one entry carrying the given date string and text.
    /// The name and all earlier entries are untouched.
    pub fn add_entry_on(&mut self, date: String, text: String)
        ensures
            final(self)@.name == old(self)@.name,
            final(self)@.entries =~= old(self)@.entries.push(EntryModel { date: date@, text: text@ }),
    {
        self.entries.push(Entry { date, text });
    }

    /// Appends one entry whose date is the local calendar date at the
    /// moment of the call and whose text is the given string. Which
    /// date that is depends on the clock, so the contract leaves the
    /// new entry's date open and pins everything else.
    pub fn add_entry(&mut self, text: String)
        ensures
            final(self)@.name == old(self)@.name,
            final(self)@.entries.len() == old(self)@.entries.len() + 1,
            final(self)@.entries =~= old(self)@.entries.push(
                EntryModel { date: final(self)@.entries.last().date, text: text@ },
            ),
    {
        let date = today_string();
        self.add_entry_on(date, text);
    }

    /// Produces the display lines for this habit's log, in insertion
    /// order, or the single empty-log notice. Read-only: the result is
    /// a function of the habit's value alone.
    pub fn list_entries(&self) -> (out: Vec<String>)
        ensures
            lines_view(out@) =~= list_entries_lines(self@),
    {
        let mut out: Vec<String> = Vec::new();
        if self.entries.len() == 0 {
            let mut line = String::from_str("No entries yet for '");
            line.append(self.name.as_str());
            line.append("'.");
            out.push(line);
            proof {
                assert(lines_view(out@) =~= seq![no_entries_line(self@.name)]);
            }
        } else {
            let n = self.entries.len();
            let mut i: usize = 0;
            while i < n
                invariant
                    n == self.entries.len(),
                    i <= n,
                    lines_view(out@) =~= entry_lines(self@.entries.take(i as int)),
                decreases n - i,
            {
                let ghost i0: int = i as int;
                let e = &self.entries[i];
                let mut line = e.date.clone();
                line.append(": ");
                line.append(e.text.as_str());
                proof {
                    assert(line@ == entry_line(self@.entries[i0]));
                }
                let ghost l: Seq<char> = line@;
                let ghost prev: Seq<String> = out@;
                out.push(line);
                i = i + 1;
                proof {
                    assert(lines_view(out@) =~= lines_view(prev).push(l));
                    assert(self@.entries.take(i0 + 1) =~= self@.entries.take(i0).push(
                        self@.entries[i0],
                    ));
                    assert(entry_lines(self@.entries.take(i0 + 1)) =~= entry_lines(
                        self@.entries.take(i0),
                    ).push(entry_line(self@.entries[i0])));
                    assert(lines_view(out@) =~= entry_lines(self@.entries.take(i as int)));
                }
            }
            proof {
                assert(self@.entries.take(n as int) =~= self@.entries);
            }
        }
        out
    }
}

} // verus!
