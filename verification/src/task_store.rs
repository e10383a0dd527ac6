//! Dated tasks, and the day that is looked at: today moved by a number of
//! days.

use chrono::{Datelike, NaiveDate, TimeDelta};
use vstd::prelude::*;
use vstd::string::*;

verus! {

/// A calendar date: year, month of the year and day of the month.
#[derive(Clone, Copy, Debug, PartialEq, Eq, Structural)]
pub struct Date {
    pub year: i32,
    pub month: u32,
    pub day: u32,
}

/// The calendar date that lies `days` days after `date`, earlier for a
/// negative number, as `chrono` computes it; none where `date` is no date of
/// the calendar or the result lies outside the years that `chrono` holds.
pub uninterp spec fn day_shifted(date: Date, days: int) -> Option<Date>;

/// `NaiveDate::checked_add_signed` of `chrono`, on a date made by
/// `NaiveDate::from_ymd_opt` and a span made by `TimeDelta::try_days`: the
/// date a whole number of days away, which depends on the date and the
/// number alone. `from_ymd_opt` gives no date for a day that the calendar
/// lacks, `checked_add_signed` none beyond the last or before the first year.
#[verifier::external_body]
pub(crate) fn shift_date(date: Date, days: i32) -> (shifted: Option<Date>)
    ensures
        shifted == day_shifted(date, days as int),
{
    let start = NaiveDate::from_ymd_opt(date.year, date.month, date.day)?;
    let moved = start.checked_add_signed(TimeDelta::try_days(i64::from(days))?)?;
    Some(Date { year: moved.year(), month: moved.month(), day: moved.day() })
}

/// One task of the planner.
#[derive(Debug)]
pub struct Task {
    /// The day on which the task is due.
    pub date: Date,
    /// The time of day as it is shown; the store does not read it.
    pub time_label: String,
    /// What is to be done.
    pub text: String,
    /// Whether it has been done.
    pub done: bool,
}

/// What a task stands for: its fields, the two strings as their characters.
pub struct TaskView {
    pub date: Date,
    pub time_label: Seq<char>,
    pub text: Seq<char>,
    pub done: bool,
}

impl View for Task {
    type V = TaskView;

    open spec fn view(&self) -> TaskView {
        TaskView {
            date: self.date,
            time_label: self.time_label@,
            text: self.text@,
            done: self.done,
        }
    }
}

impl Task {
    /// The line that shows the task in a list.
    pub fn item_line(&self) -> (line: String)
        ensures
            line@ == self@.item_line(),
    {
        let mut line = String::from_str(
            if self.done {
                "\u{2713}"
            } else {
                " "
            },
        );
        line.append(" ");
        line.append(self.text.as_str());
        line
    }
}

impl Clone for Task {
    fn clone(&self) -> (copy: Self)
        ensures
            copy == *self,
    {
        Task {
            date: self.date,
            time_label: self.time_label.clone(),
            text: self.text.clone(),
            done: self.done,
        }
    }
}

impl TaskView {
    /// The task with its `done` mark turned over.
    pub open spec fn toggled(self) -> TaskView {
        TaskView { date: self.date, time_label: self.time_label, text: self.text, done: !self.done }
    }

    /// The line that shows the task in a list: a tick for a task that is
    /// done, a blank for one that is not, then a blank and the task's text.
    pub open spec fn item_line(self) -> Seq<char> {
        (if self.done {
            "\u{2713}"@
        } else {
            " "@
        }) + " "@ + self.text
    }
}

/// What each of the given tasks stands for, in the same order.
pub open spec fn task_views(tasks: Seq<Task>) -> Seq<TaskView> {
    tasks.map_values(|task: Task| task@)
}

/// Whether a task is due on `day`; none is where there is no such day.
pub open spec fn due_on(day: Option<Date>) -> spec_fn(TaskView) -> bool {
    |task: TaskView| day == Some(task.date)
}

/// The name of the day that lies `offset` days from today.
pub open spec fn day_label(offset: int) -> Seq<char> {
    if offset == 0 {
        "Today"@
    } else if offset == -1 {
        "Yesterday"@
    } else if offset == 1 {
        "Tomorrow"@
    } else {
        "Selected Day"@
    }
}

/// What a task store stands for: the tasks in the order in which they were
/// added, and the number of days from today to the day that is looked at.
pub struct Agenda {
    pub tasks: Seq<TaskView>,
    pub day_offset: int,
}

impl Agenda {
    /// The day that is looked at when today is `today`.
    pub open spec fn selected_day(self, today: Date) -> Option<Date> {
        day_shifted(today, self.day_offset)
    }

    /// The tasks that are due on `day`, in the order of the store.
    pub open spec fn due(self, day: Option<Date>) -> Seq<TaskView> {
        self.tasks.filter(due_on(day))
    }

    /// The tasks of the day that is looked at when today is `today`.
    pub open spec fn visible(self, today: Date) -> Seq<TaskView> {
        self.due(self.selected_day(today))
    }

    /// The store looking `delta` days further on.
    pub open spec fn advance(self, delta: int) -> Agenda {
        Agenda { tasks: self.tasks, day_offset: self.day_offset + delta }
    }

    /// The store with `task` added behind all others.
    pub open spec fn add(self, task: TaskView) -> Agenda {
        Agenda { tasks: self.tasks.push(task), day_offset: self.day_offset }
    }

    /// The store with the `done` mark of the task with the given index turned
    /// over; the store itself where it has no such task.
    pub open spec fn toggle(self, index: int) -> Agenda {
        if 0 <= index < self.tasks.len() {
            Agenda {
                tasks: self.tasks.update(index, self.tasks[index].toggled()),
                day_offset: self.day_offset,
            }
        } else {
            self
        }
    }

    /// The store without the task with the given index; the store itself
    /// where it has no such task.
    pub open spec fn delete(self, index: int) -> Agenda {
        if 0 <= index < self.tasks.len() {
            Agenda { tasks: self.tasks.remove(index), day_offset: self.day_offset }
        } else {
            self
        }
    }

    /// The number of tasks due on `day` among the first `count` tasks.
    pub open spec fn due_before(self, day: Option<Date>, count: int) -> nat {
        self.tasks.take(count).filter(due_on(day)).len()
    }
}

/// All tasks, in the order in which they were added, and the day that is
/// looked at, counted in days from today.
pub struct TaskStore {
    pub tasks: Vec<Task>,
    pub day_offset: i32,
}

impl View for TaskStore {
    type V = Agenda;

    open spec fn view(&self) -> Agenda {
        Agenda { tasks: task_views(self.tasks@), day_offset: self.day_offset as int }
    }
}

impl TaskStore {
    /// A store without tasks that looks at today.
    pub fn new() -> (store: TaskStore)
        ensures
            store@ == (Agenda { tasks: Seq::empty(), day_offset: 0 }),
    {
        let store = TaskStore { tasks: Vec::new(), day_offset: 0 };
        assert(store@.tasks =~= Seq::empty());
        store
    }

    /// The day that is looked at: `today` moved by the day offset. None where
    /// the calendar has no such day.
    pub fn selected_day(&self, today: Date) -> (day: Option<Date>)
        ensures
            day == self@.selected_day(today),
    {
        shift_date(today, self.day_offset)
    }

    /// Copies of the tasks that are due on `day`, in the order of the store.
    pub fn tasks_on(&self, day: Option<Date>) -> (found: Vec<Task>)
        ensures
            task_views(found@) == self@.due(day),
    {
        let mut found: Vec<Task> = Vec::new();
        let mut i: usize = 0;
        proof {
            reveal(Seq::filter);
            assert(task_views(found@) =~= Seq::empty());
            assert(self@.tasks.take(0) =~= Seq::empty());
        }
        while i < self.tasks.len()
            invariant
                i <= self.tasks@.len(),
                task_views(found@) == self@.tasks.take(i as int).filter(due_on(day)),
            decreases self.tasks@.len() - i,
        {
            let task = &self.tasks[i];
            let due = match day {
                Some(d) => d == task.date,
                None => false,
            };
            let ghost before = found@;
            if due {
                found.push(task.clone());
            }
            proof {
                reveal(Seq::filter);
                assert(self@.tasks.take(i + 1).drop_last() =~= self@.tasks.take(i as int));
                assert(self@.tasks.take(i + 1).last() == task@);
                if due {
                    assert(task_views(found@) =~= task_views(before).push(task@));
                }
            }
            i = i + 1;
        }
        proof {
            assert(self@.tasks.take(i as int) =~= self@.tasks);
        }
        found
    }

    /// Copies of the tasks that are due on the day that is looked at, in the
    /// order of the store.
    pub fn visible_tasks(&self, today: Date) -> (visible: Vec<Task>)
        ensures
            task_views(visible@) == self@.visible(today),
    {
        self.tasks_on(self.selected_day(today))
    }

    /// The index in the store of the task that stands at `position` among
    /// those due on `day`; none where fewer tasks are due on that day.
    pub fn position_on(&self, day: Option<Date>, position: usize) -> (index: Option<usize>)
        ensures
            position < self@.due(day).len() ==> index is Some && index->0 < self@.tasks.len()
                && due_on(day)(self@.tasks[index->0 as int]) && self@.due_before(
                day,
                index->0 as int,
            ) == position,
            position >= self@.due(day).len() ==> index is None,
    {
        let mut passed: usize = 0;
        let mut i: usize = 0;
        proof {
            reveal(Seq::filter);
            assert(self@.tasks.take(0) =~= Seq::empty());
        }
        while i < self.tasks.len()
            invariant
                i <= self.tasks@.len(),
                passed == self@.due_before(day, i as int),
                passed <= position,
                passed <= i,
            decreases self.tasks@.len() - i,
        {
            let task = &self.tasks[i];
            let due = match day {
                Some(d) => d == task.date,
                None => false,
            };
            proof {
                reveal(Seq::filter);
                assert(self@.tasks.take(i + 1).drop_last() =~= self@.tasks.take(i as int));
                assert(self@.tasks.take(i + 1).last() == task@);
                assert(self@.tasks.take(self@.tasks.len() as int) =~= self@.tasks);
                self@.tasks.lemma_filter_take_len(due_on(day), i + 1);
            }
            if due {
                if passed == position {
                    return Some(i);
                }
                passed = passed + 1;
            }
            i = i + 1;
        }
        proof {
            assert(self@.tasks.take(i as int) =~= self@.tasks);
        }
        None
    }

    /// The lines that show the given tasks in a list, one for each.
    pub fn item_lines(tasks: &Vec<Task>) -> (lines: Vec<String>)
        ensures
            lines@.len() == tasks@.len(),
            forall|k: int|
                0 <= k < tasks@.len() ==> (#[trigger] lines@[k])@ == tasks@[k]@.item_line(),
    {
        let mut lines: Vec<String> = Vec::new();
        let mut i: usize = 0;
        while i < tasks.len()
            invariant
                i <= tasks@.len(),
                lines@.len() == i,
                forall|k: int| 0 <= k < i ==> (#[trigger] lines@[k])@ == tasks@[k]@.item_line(),
            decreases tasks@.len() - i,
        {
            let line = tasks[i].item_line();
            lines.push(line);
            i = i + 1;
        }
        lines
    }

    /// The lines that show the tasks of the day that is looked at.
    pub fn day_items(&self, today: Date) -> (lines: Vec<String>)
        ensures
            lines@.len() == self@.visible(today).len(),
            forall|k: int|
                0 <= k < lines@.len() ==> (#[trigger] lines@[k])@ == self@.visible(
                    today,
                )[k].item_line(),
    {
        let visible = self.visible_tasks(today);
        let lines = Self::item_lines(&visible);
        proof {
            assert forall|k: int| 0 <= k < lines@.len() implies (#[trigger] lines@[k])@
                == self@.visible(today)[k].item_line() by {
                assert(task_views(visible@)[k] == visible@[k]@);
            }
        }
        lines
    }

    /// Moves the day that is looked at by `delta` days.
    pub fn advance_day(&mut self, delta: i32)
        requires
            i32::MIN <= old(self).day_offset + delta <= i32::MAX,
        ensures
            final(self)@ == old(self)@.advance(delta as int),
    {
        self.day_offset = self.day_offset + delta;
    }

    /// The name of the day that is looked at.
    pub fn label_for_offset(&self) -> (label: &'static str)
        ensures
            label@ == day_label(self@.day_offset),
    {
        if self.day_offset == 0 {
            "Today"
        } else if self.day_offset == -1 {
            "Yesterday"
        } else if self.day_offset == 1 {
            "Tomorrow"
        } else {
            "Selected Day"
        }
    }

    /// Adds a task behind all others.
    pub fn add(&mut self, task: Task)
        ensures
            final(self)@ == old(self)@.add(task@),
    {
        self.tasks.push(task);
        proof {
            assert(task_views(self.tasks@) =~= task_views(old(self).tasks@).push(task@));
        }
    }

    /// Turns over the `done` mark of the task with the given index in the
    /// store. An index beyond the last task changes nothing.
    pub fn toggle_done(&mut self, index: usize)
        ensures
            final(self)@ == old(self)@.toggle(index as int),
    {
        if index < self.tasks.len() {
            let done = self.tasks[index].done;
            self.tasks[index].done = !done;
            proof {
                assert(task_views(self.tasks@) =~= task_views(old(self).tasks@).update(
                    index as int,
                    old(self).tasks@[index as int]@.toggled(),
                ));
            }
        }
    }

    /// Takes the task with the given index out of the store and hands it
    /// back; the tasks behind it move up. An index beyond the last task
    /// changes nothing.
    pub fn delete(&mut self, index: usize) -> (removed: Option<Task>)
        ensures
            final(self)@ == old(self)@.delete(index as int),
            index < old(self)@.tasks.len() ==> removed is Some && removed->0@ == old(
                self,
            )@.tasks[index as int],
            index >= old(self)@.tasks.len() ==> removed is None,
    {
        if index < self.tasks.len() {
            let removed = self.tasks.remove(index);
            proof {
                assert(task_views(self.tasks@) =~= task_views(old(self).tasks@).remove(
                    index as int,
                ));
            }
            Some(removed)
        } else {
            None
        }
    }
}

/// A day forward and a day back lead to the day that was looked at before,
/// with the same tasks in view.
pub proof fn law_forward_then_back(agenda: Agenda, today: Date)
    ensures
        agenda.advance(1).advance(-1) == agenda,
        agenda.advance(1).advance(-1).selected_day(today) == agenda.selected_day(today),
        agenda.advance(1).advance(-1).visible(today) == agenda.visible(today),
{
}

/// Looking at another day changes no task, and neither adding, marking nor
/// deleting a task changes the day that is looked at.
pub proof fn law_day_and_tasks_apart(agenda: Agenda, delta: int, task: TaskView, index: int)
    ensures
        agenda.advance(delta).tasks == agenda.tasks,
        agenda.add(task).day_offset == agenda.day_offset,
        agenda.toggle(index).day_offset == agenda.day_offset,
        agenda.delete(index).day_offset == agenda.day_offset,
{
}

} // verus!
