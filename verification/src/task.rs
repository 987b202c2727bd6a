//! A single to-do item.

use vstd::prelude::*;

use crate::naive_date_time_wrapper::{optional_view, DateTime, NaiveDateTimeWrapper};
use crate::task_status::TaskStatus;

verus! {

/// A to-do item. The collection that owns it gives it its `id`.
#[derive(Debug)]
pub struct Task {
    pub id: usize,
    pub title: String,
    pub description: Option<String>,
    pub due_date: Option<NaiveDateTimeWrapper>,
    pub status: TaskStatus,
}

/// What a task holds, with its texts as sequences of characters and its due
/// date as numbers.
pub struct TaskView {
    pub id: int,
    pub title: Seq<char>,
    pub description: Option<Seq<char>>,
    pub due_date: Option<DateTime>,
    pub status: TaskStatus,
}

impl TaskView {
    /// A task as it is created: the title alone, and not started.
    pub open spec fn fresh(id: int, title: Seq<char>) -> TaskView {
        TaskView { id, title, description: None, due_date: None, status: TaskStatus::NotStarted }
    }

    /// The same task with another description.
    pub open spec fn with_description(self, description: Seq<char>) -> TaskView {
        TaskView { description: Some(description), ..self }
    }

    /// The same task with another due date.
    pub open spec fn with_due_date(self, due_date: DateTime) -> TaskView {
        TaskView { due_date: Some(due_date), ..self }
    }

    /// The same task with another status.
    pub open spec fn with_status(self, status: TaskStatus) -> TaskView {
        TaskView { status, ..self }
    }
}

impl View for Task {
    type V = TaskView;

    open spec fn view(&self) -> TaskView {
        TaskView {
            id: self.id as int,
            title: self.title@,
            description: match self.description {
                Some(description) => Some(description@),
                None => None,
            },
            due_date: optional_view(self.due_date),
            status: self.status,
        }
    }
}

impl DeepView for Task {
    type V = TaskView;

    open spec fn deep_view(&self) -> TaskView {
        self@
    }
}

impl Task {
    /// A task with the given id and title, no description, no due date, and
    /// not started.
    pub fn new(id: usize, title: String) -> (res: Task)
        ensures
            res@ == TaskView::fresh(id as int, title@),
    {
        Task { id, title, description: None, due_date: None, status: TaskStatus::NotStarted }
    }

    /// Gives the task a description. There is no way back to a task without
    /// one.
    pub fn set_description(&mut self, description: String)
        ensures
            final(self)@ == old(self)@.with_description(description@),
    {
        self.description = Some(description);
    }

    /// Gives the task a due date.
    pub fn set_due_date(&mut self, due_date: NaiveDateTimeWrapper)
        ensures
            final(self)@ == old(self)@.with_due_date(due_date@),
    {
        self.due_date = Some(due_date);
    }

    /// Sets the status, whatever it was before.
    pub fn set_status(&mut self, status: TaskStatus)
        ensures
            final(self)@ == old(self)@.with_status(status),
    {
        self.status = status;
    }
}

impl Clone for Task {
    fn clone(&self) -> (res: Self)
        ensures
            res@ == self@,
    {
        Task {
            id: self.id,
            title: self.title.clone(),
            description: match &self.description {
                Some(description) => Some(description.clone()),
                None => None,
            },
            due_date: self.due_date,
            status: self.status.clone(),
        }
    }
}

} // verus!
