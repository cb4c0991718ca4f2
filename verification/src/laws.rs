//! Properties that hold of the tracker across calls, stated once and
//! proved from the contracts and transition function alone.

use vstd::prelude::*;
use crate::habit::EntryModel;
use crate::habit::HabitModel;
use crate::habit::list_entries_lines;
use crate::numbers::is_dec_digits;
use crate::numbers::parse_selection_spec;
use crate::tracker::Mode;
use crate::tracker::TrackerModel;
use crate::tracker::bullet_line;
use crate::tracker::list_habits_lines;
use crate::tracker::spec_step;
use crate::tracker::wf;
use crate::tracker::with_new_habit;

verus! {

/// Appending one habit after another: the collection after a whole
/// sequence of additions.
pub open spec fn with_new_habits(habits: Seq<HabitModel>, names: Seq<Seq<char>>) -> Seq<
    HabitModel,
>
    decreases names.len(),
{
    if names.len() == 0 {
        habits
    } else {
        with_new_habits(with_new_habit(habits, names[0]), names.skip(1))
    }
}

/// Any sequence of habit additions grows the collection by exactly
/// one habit per addition, keeps every habit already present
/// untouched, and places the new habits, each empty, in call order at
/// the end.
pub proof fn lemma_habits_added_in_order(habits: Seq<HabitModel>, names: Seq<Seq<char>>)
    ensures
        with_new_habits(habits, names).len() == habits.len() + names.len(),
        forall|i: int| 0 <= i < habits.len() ==> with_new_habits(habits, names)[i] == habits[i],
        forall|i: int|
            0 <= i < names.len() ==> with_new_habits(habits, names)[habits.len() + i] == (
            HabitModel { name: names[i], entries: Seq::<EntryModel>::empty() }),
    decreases names.len(),
{
    if names.len() > 0 {
        let once = with_new_habit(habits, names[0]);
        lemma_habits_added_in_order(once, names.skip(1));
        assert forall|i: int| 0 <= i < habits.len() implies with_new_habits(habits, names)[i]
            == habits[i] by {
            assert(with_new_habits(habits, names)[i] == once[i]);
        }
        assert forall|i: int| 0 <= i < names.len() implies with_new_habits(habits, names)[
            habits.len() + i
        ] == (HabitModel { name: names[i], entries: Seq::<EntryModel>::empty() }) by {
            if i == 0 {
                assert(with_new_habits(habits, names)[habits.len() as int] == once[habits.len() as int]);
            } else {
                assert(names.skip(1)[i - 1] == names[i]);
                assert(with_new_habits(habits, names)[once.len() + (i - 1)] == (HabitModel {
                    name: names.skip(1)[i - 1],
                    entries: Seq::<EntryModel>::empty(),
                }));
            }
        }
    }
}

/// The one menu action that adds a habit: from the menu, the line
/// `"1"` prints nothing, and the following line becomes the name of
/// one new, empty habit at the end of an otherwise untouched
/// collection.
pub proof fn lemma_add_habit_action(t: TrackerModel, name: Seq<char>, d1: Seq<char>, d2: Seq<char>)
    requires
        t.mode == Mode::Menu,
    ensures
        ({
            let mid = spec_step(t, "1"@, d1).0;
            &&& spec_step(t, "1"@, d1).1 == Seq::<Seq<char>>::empty()
            &&& mid.habits == t.habits
            &&& spec_step(mid, name, d2).0.habits == with_new_habit(t.habits, name)
            &&& spec_step(mid, name, d2).0.mode == Mode::Menu
            &&& spec_step(mid, name, d2).1 == seq!["Habit added!"@]
        }),
{
}

/// The list-all action shows the collection in its exact order: a
/// header, then one bullet per habit, each carrying that habit's
/// name, in position.
pub proof fn lemma_list_habits_reflects_order(habits: Seq<HabitModel>)
    requires
        habits.len() > 0,
    ensures
        list_habits_lines(habits).len() == habits.len() + 1,
        list_habits_lines(habits)[0] == "Your habits:"@,
        forall|i: int|
            0 <= i < habits.len() ==> list_habits_lines(habits)[i + 1] == bullet_line(
                habits[i].name,
            ),
{
}

/// A successful entry addition grows the chosen habit's log by
/// exactly one entry, whose date is the date string the clock gave at
/// that moment and whose text is the input line; every earlier entry,
/// the habit's name, and every other habit stay as they were.
pub proof fn lemma_entry_added(t: TrackerModel, text: Seq<char>, date: Seq<char>, index: usize)
    requires
        wf(t),
        t.mode == (Mode::AwaitEntryText { index }),
    ensures
        ({
            let post = spec_step(t, text, date).0;
            let pre_entries = t.habits[index as int].entries;
            &&& spec_step(t, text, date).1 == seq!["Entry added!"@]
            &&& post.mode == Mode::Menu
            &&& post.habits.len() == t.habits.len()
            &&& post.habits[index as int].name == t.habits[index as int].name
            &&& post.habits[index as int].entries.len() == pre_entries.len() + 1
            &&& post.habits[index as int].entries.last() == (EntryModel { date, text })
            &&& post.habits[index as int].entries.take(pre_entries.len() as int) == pre_entries
            &&& forall|j: int|
                0 <= j < t.habits.len() && j != index ==> post.habits[j] == t.habits[j]
        }),
{
    let post = spec_step(t, text, date).0;
    let pre_entries = t.habits[index as int].entries;
    assert(post.habits[index as int].entries.take(pre_entries.len() as int) =~= pre_entries);
}

/// Listing a habit's entries is idempotent: the output is a function
/// of the habit's value alone, so two listings of an unmodified habit
/// are identical.
pub proof fn lemma_list_entries_idempotent(
    h: HabitModel,
    first: Seq<Seq<char>>,
    second: Seq<Seq<char>>,
)
    requires
        first == list_entries_lines(h),
        second == list_entries_lines(h),
    ensures
        first == second,
{
}

/// Selecting `0`, or anything past the end of the collection, is
/// answered with the single invalid-selection notice, returns to the
/// menu, and leaves the collection unmodified.
pub proof fn lemma_invalid_selection(
    t: TrackerModel,
    line: Seq<char>,
    date: Seq<char>,
    adding: bool,
)
    requires
        t.mode == (Mode::AwaitSelection { adding }),
        parse_selection_spec(line) == 0 || parse_selection_spec(line) > t.habits.len(),
    ensures
        spec_step(t, line, date).0.habits == t.habits,
        spec_step(t, line, date).0.mode == Mode::Menu,
        spec_step(t, line, date).1 == seq!["Invalid selection."@],
{
}

/// A non-numeric selection is read as `0`: a character that is no
/// digit anywhere but a leading `+` makes the whole line parse to
/// `0`, which then falls into the invalid-selection path.
pub proof fn lemma_non_numeric_selection(line: Seq<char>, i: int)
    requires
        0 <= i < line.len(),
        !('0' <= line[i] && line[i] <= '9'),
        i == 0 ==> line[i] != '+',
    ensures
        parse_selection_spec(line) == 0,
{
    if line.len() > 0 && line[0] == '+' {
        let body = line.skip(1);
        assert(body[i - 1] == line[i]);
        assert(!is_dec_digits(body));
    } else {
        assert(!is_dec_digits(line));
    }
}

} // verus!
