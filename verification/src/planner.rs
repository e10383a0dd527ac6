//! The day planner: its pages, its tasks, the list of the day's tasks and the
//! form for a new one, owned together and changed one key at a time.

use crate::keys::KeyPress;
use crate::navigation::{InputMode, Key, NavigationState, Page, Transition};
use crate::selectable_list::{
    kept_selection, next_selection, previous_selection, valid_selection, SelectableList,
};
use crate::task_store::{task_views, Agenda, Date, Task, TaskStore, TaskView};
use crate::text_buffer::{Line, TextBuffer};
use crate::width::{capped, text_columns};
use vstd::prelude::*;
use vstd::string::*;

verus! {

/// The form for a new task: the day and the time it is filed under, and the
/// line into which its text is typed.
pub struct TaskForm {
    pub date: Date,
    pub time_label: String,
    pub text: TextBuffer,
}

/// The planner's parts under one owner.
///
/// `list` holds copies of the tasks of the day that is looked at. It is made
/// anew from `store` by every operation that takes the date of today, and is
/// never changed by itself.
pub struct Planner {
    pub nav: NavigationState,
    pub store: TaskStore,
    pub list: SelectableList<Task>,
    pub form: TaskForm,
}

/// What a planner stands for. The items of the list are left out: they
/// follow from the tasks, the day offset and the date of today.
pub struct PlannerView {
    pub nav: NavigationState,
    pub agenda: Agenda,
    pub selection: Option<int>,
    pub line: Line,
    pub form_date: Date,
    pub form_time: Seq<char>,
}

impl PlannerView {
    /// The planner as it starts on the day `today`: the day page, no task,
    /// today looked at, an empty form for nine o'clock today.
    pub open spec fn initial(today: Date) -> PlannerView {
        PlannerView {
            nav: NavigationState { page: Page::Day, input_mode: InputMode::Normal },
            agenda: Agenda { tasks: Seq::empty(), day_offset: 0 },
            selection: None,
            line: Line::blank(),
            form_date: today,
            form_time: "09:00"@,
        }
    }

    /// The number of tasks in the list when today is `today`.
    pub open spec fn listed(self, today: Date) -> int {
        self.agenda.visible(today).len() as int
    }

    /// The planner with the selection that the list of `today` allows.
    pub open spec fn refreshed(self, today: Date) -> PlannerView {
        PlannerView { selection: kept_selection(self.selection, self.listed(today)), ..self }
    }

    /// The task that the form holds: not done, due on the form's day, with
    /// the typed line as its text.
    pub open spec fn new_task(self) -> TaskView {
        TaskView {
            date: self.form_date,
            time_label: self.form_time,
            text: self.line.text,
            done: false,
        }
    }

    /// The planner after its parts have carried out `transition`. The day
    /// offset stays where the machine's integers end; an empty line makes no
    /// task.
    pub open spec fn perform(self, transition: Transition, today: Date) -> PlannerView {
        match transition {
            Transition::StartInput | Transition::CancelInput => PlannerView {
                line: Line::blank(),
                ..self
            },
            Transition::SubmitInput => PlannerView {
                agenda: if self.line.text.len() > 0 {
                    self.agenda.add(self.new_task())
                } else {
                    self.agenda
                },
                line: Line::blank(),
                ..self
            },
            Transition::Edit(edit) => PlannerView { line: self.line.apply(edit), ..self },
            Transition::PreviousDay => PlannerView {
                agenda: if self.agenda.day_offset > i32::MIN {
                    self.agenda.advance(-1)
                } else {
                    self.agenda
                },
                ..self
            },
            Transition::NextDay => PlannerView {
                agenda: if self.agenda.day_offset < i32::MAX {
                    self.agenda.advance(1)
                } else {
                    self.agenda
                },
                ..self
            },
            Transition::SelectPrevious => PlannerView {
                selection: previous_selection(self.selection, self.listed(today)),
                ..self
            },
            Transition::SelectNext => PlannerView {
                selection: next_selection(self.selection, self.listed(today)),
                ..self
            },
            Transition::Ignored | Transition::Quit | Transition::Show(_) => self,
        }
    }

    /// The planner after `key` on the day `today`. The quit key changes no
    /// part. Any other key has the list made anew before and after the parts
    /// carry out what it brings about.
    pub open spec fn step(self, key: Key, today: Date) -> PlannerView {
        let transition = self.nav.transition_for(key);
        let moved = PlannerView { nav: self.nav.after(key), ..self };
        if transition is Quit {
            moved
        } else {
            moved.refreshed(today).perform(transition, today).refreshed(today)
        }
    }
}

impl View for Planner {
    type V = PlannerView;

    open spec fn view(&self) -> PlannerView {
        PlannerView {
            nav: self.nav,
            agenda: self.store@,
            selection: self.list.selection(),
            line: self.form.text@,
            form_date: self.form.date,
            form_time: self.form.time_label@,
        }
    }
}

impl Planner {
    /// The list holds the tasks of the day that is looked at when today is
    /// `today`, and its selection names one of them or none.
    pub open spec fn in_sync(&self, today: Date) -> bool {
        &&& task_views(self.list.items@) == self@.agenda.visible(today)
        &&& self.list.wf()
    }

    /// A planner that starts on the day `today`.
    pub fn new(today: Date) -> (planner: Planner)
        ensures
            planner@ == PlannerView::initial(today),
            planner.in_sync(today),
    {
        let mut planner = Planner {
            nav: NavigationState::new(),
            store: TaskStore::new(),
            list: SelectableList::new(Vec::new()),
            form: TaskForm {
                date: today,
                time_label: String::from_str("09:00"),
                text: TextBuffer::new(),
            },
        };
        planner.refresh(today);
        planner
    }

    /// Makes the list anew from the store: the tasks of the day that is
    /// looked at, and the selection as far as they allow it.
    pub fn refresh(&mut self, today: Date)
        ensures
            final(self)@ == old(self)@.refreshed(today),
            final(self).in_sync(today),
    {
        let visible = self.store.visible_tasks(today);
        self.list.replace_items(visible);
    }

    /// Takes one key by its meaning: moves between the pages and has the
    /// part that is live on the page carry out what the key brings about.
    pub fn dispatch(&mut self, key: Key, today: Date) -> (transition: Transition)
        ensures
            transition == old(self)@.nav.transition_for(key),
            final(self)@ == old(self)@.step(key, today),
            final(self)@.nav.wf(),
            transition is Quit ==> final(self).list.items == old(self).list.items,
            !(transition is Quit) ==> final(self).in_sync(today),
    {
        let transition = self.nav.dispatch(key);
        if let Transition::Quit = transition {
            return transition;
        }
        self.refresh(today);
        match transition {
            Transition::StartInput | Transition::CancelInput => {
                self.form.text.clear();
            },
            Transition::SubmitInput => {
                match self.form.text.submit() {
                    Some(text) => {
                        let task = Task {
                            date: self.form.date,
                            time_label: self.form.time_label.clone(),
                            text,
                            done: false,
                        };
                        self.store.add(task);
                    },
                    None => {},
                }
            },
            Transition::Edit(edit) => {
                self.form.text.apply(edit);
            },
            Transition::PreviousDay => {
                if self.store.day_offset > i32::MIN {
                    self.store.advance_day(-1);
                }
            },
            Transition::NextDay => {
                if self.store.day_offset < i32::MAX {
                    self.store.advance_day(1);
                }
            },
            Transition::SelectPrevious => {
                self.list.previous();
            },
            Transition::SelectNext => {
                self.list.next();
            },
            _ => {},
        }
        self.refresh(today);
        transition
    }

    /// Takes one event of the keyboard: reads its meaning in the state the
    /// planner is in, and dispatches it.
    pub fn handle(&mut self, event: KeyPress, today: Date) -> (transition: Transition)
        ensures
            transition == old(self)@.nav.transition_for(old(self)@.nav.binding(event)),
            final(self)@ == old(self)@.step(old(self)@.nav.binding(event), today),
            final(self)@.nav.wf(),
            transition is Quit ==> final(self).list.items == old(self).list.items,
            !(transition is Quit) ==> final(self).in_sync(today),
    {
        let key = self.nav.bind(event);
        self.dispatch(key, today)
    }

    /// Where the cursor is to be shown while text is typed: the row and the
    /// column inside the input line, the column being the columns that the
    /// text before the cursor takes. None while no text is typed.
    pub fn cursor_hint(&self) -> (hint: Option<(usize, usize)>)
        ensures
            self@.nav.spec_is_editing() ==> hint == Some(
                (0usize, capped(text_columns(self@.line.text.take(self@.line.place())))),
            ),
            !self@.nav.spec_is_editing() ==> hint is None,
    {
        if self.nav.is_editing() {
            Some((0, self.form.text.cursor_column()))
        } else {
            None
        }
    }
}

/// Whatever the planner's state, the quit key ends the application and
/// changes no part of a planner whose pages are in order.
pub proof fn law_quit_changes_nothing(planner: PlannerView, today: Date)
    requires
        planner.nav.wf(),
    ensures
        planner.nav.transition_for(Key::Quit) == Transition::Quit,
        planner.step(Key::Quit, today) == planner,
{
}

/// Whatever the planner's state, after any key its selection names one of
/// the tasks in the list or none, and none where the list is empty.
pub proof fn law_selection_follows_list(planner: PlannerView, key: Key, today: Date)
    requires
        key != Key::Quit,
        planner.selection matches Some(i) ==> 0 <= i,
    ensures
        valid_selection(
            planner.step(key, today).selection,
            planner.step(key, today).listed(today),
        ),
{
}

/// Leaving the input page by the escape key leads to the day page with an
/// empty input line and the tasks as they were.
pub proof fn law_escape_discards_input(planner: PlannerView, today: Date)
    requires
        planner.nav.page == Page::Input,
    ensures
        planner.step(Key::Escape, today).nav == NavigationState::new_spec(),
        planner.step(Key::Escape, today).line == Line::blank(),
        planner.step(Key::Escape, today).agenda == planner.agenda,
{
}

} // verus!
