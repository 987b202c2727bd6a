//! The dialogue of the interactive shell, one line of input at a time.
//!
//! The shell asks a question, reads a line, and decides from the line what
//! to do to the task list, what to tell the user, and what to ask next. The
//! asking, the reading and the telling are the caller's; the deciding is
//! here: `read_input` takes a line for what it answers, and `apply` acts on
//! it.

use vstd::prelude::*;

use crate::command::SupportedCommand;
use crate::naive_date_time_wrapper::{
    entered_date_time,
    optional_view,
    DateTime,
    NaiveDateTimeWrapper,
};
use crate::task::TaskView;
use crate::task_list::{
    has_id,
    lemma_apply_keeps_well_formed,
    lemma_position_exists,
    position,
    ListOp,
    TaskList,
    TaskListView,
};
use crate::task_status::TaskStatus;
use crate::text::{lowercase, parse_usize, parse_usize_text, same_text, trimmed};

verus! {

/// The question that the shell has asked and waits to have answered.
#[derive(Clone, Copy, Debug, PartialEq, Eq, Structural)]
pub enum ShellState {
    /// Which command to run.
    Command,
    /// The title of a task to add.
    AddTitle,
    /// The description of the task that was just added.
    AddDescription { task_id: usize },
    /// The due date of the task that was just added.
    AddDueDate { task_id: usize },
    /// The id of the task to update.
    UpdateId,
    /// Which field of the task to update.
    UpdateField { task_id: usize },
    /// The new description of the task.
    UpdateDescription { task_id: usize },
    /// The new due date of the task.
    UpdateDueDate { task_id: usize },
    /// The new status of the task.
    UpdateStatus { task_id: usize },
    /// The id of the task to delete.
    DeleteId,
    /// Enter, to go on to the next command.
    Continue,
    /// Nothing: the shell has ended.
    Exited,
}

/// A field of a task that the update command can set.
#[derive(Clone, Copy, Debug, PartialEq, Eq, Structural)]
pub enum TaskField {
    Description,
    DueDate,
    Status,
}

impl TaskField {
    /// The field that a lowercase name stands for, if any.
    pub open spec fn parse(t: Seq<char>) -> Option<TaskField> {
        if t == "description"@ {
            Some(TaskField::Description)
        } else if t == "due date"@ {
            Some(TaskField::DueDate)
        } else if t == "status"@ {
            Some(TaskField::Status)
        } else {
            None
        }
    }

    /// Reads a field from its name: "description", "due date" or "status",
    /// in lower case. Any other text names no field.
    pub fn from_name(name: &str) -> (res: Option<TaskField>)
        ensures
            res == Self::parse(name@),
    {
        if same_text(name, "description") {
            Some(TaskField::Description)
        } else if same_text(name, "due date") {
            Some(TaskField::DueDate)
        } else if same_text(name, "status") {
            Some(TaskField::Status)
        } else {
            None
        }
    }
}

/// What was typed in for the due date of a new task.
#[derive(Clone, Copy, Debug, PartialEq, Eq, Structural)]
pub enum DueDateEntry {
    /// Nothing: the task gets no due date.
    Blank,
    /// A date and time.
    Valid(NaiveDateTimeWrapper),
    /// Something that is no date and time.
    Invalid,
}

/// `DueDateEntry` with the date and time as numbers.
pub enum DueDateEntryView {
    Blank,
    Valid(DateTime),
    Invalid,
}

impl View for DueDateEntry {
    type V = DueDateEntryView;

    open spec fn view(&self) -> DueDateEntryView {
        match self {
            DueDateEntry::Blank => DueDateEntryView::Blank,
            DueDateEntry::Valid(value) => DueDateEntryView::Valid(value@),
            DueDateEntry::Invalid => DueDateEntryView::Invalid,
        }
    }
}

/// What a typed due date of a new task stands for.
pub open spec fn due_date_entry(text: Seq<char>) -> DueDateEntryView {
    if text.len() == 0 {
        DueDateEntryView::Blank
    } else {
        match entered_date_time(text) {
            Some(value) => DueDateEntryView::Valid(value),
            None => DueDateEntryView::Invalid,
        }
    }
}

/// A line of input, taken for what it answers.
#[derive(Debug)]
pub enum ShellInput {
    /// A command as it was typed, and the command that it names in lower
    /// case, if it names one.
    Command { entered: String, command: Option<SupportedCommand> },
    /// The title of a task to add.
    Title { title: String },
    /// The description of the task that was just added.
    Description { task_id: usize, description: String },
    /// The due date of the task that was just added.
    DueDate { task_id: usize, entry: DueDateEntry },
    /// The id of the task to update, if the line is a number.
    UpdateId { id: Option<usize> },
    /// A field name in lower case, and the field that it names, if it names
    /// one.
    Field { task_id: usize, entered: String, field: Option<TaskField> },
    /// The new description of a task.
    NewDescription { task_id: usize, description: String },
    /// The new due date of a task, if the line is a date and time.
    NewDueDate { task_id: usize, due_date: Option<NaiveDateTimeWrapper> },
    /// The new status of a task, if the line names a status.
    NewStatus { task_id: usize, status: Option<TaskStatus> },
    /// The id of the task to delete, if the line is a number.
    DeleteId { id: Option<usize> },
    /// Enter, whatever was typed before it.
    Continue,
    /// A line that came after the shell had ended.
    Ignored,
}

/// `ShellInput` with its texts as sequences of characters and its dates as
/// numbers.
pub enum ShellInputView {
    Command { entered: Seq<char>, command: Option<SupportedCommand> },
    Title { title: Seq<char> },
    Description { task_id: int, description: Seq<char> },
    DueDate { task_id: int, entry: DueDateEntryView },
    UpdateId { id: Option<usize> },
    Field { task_id: int, entered: Seq<char>, field: Option<TaskField> },
    NewDescription { task_id: int, description: Seq<char> },
    NewDueDate { task_id: int, due_date: Option<DateTime> },
    NewStatus { task_id: int, status: Option<TaskStatus> },
    DeleteId { id: Option<usize> },
    Continue,
    Ignored,
}

impl View for ShellInput {
    type V = ShellInputView;

    open spec fn view(&self) -> ShellInputView {
        match self {
            ShellInput::Command { entered, command } => ShellInputView::Command {
                entered: entered@,
                command: *command,
            },
            ShellInput::Title { title } => ShellInputView::Title { title: title@ },
            ShellInput::Description { task_id, description } => ShellInputView::Description {
                task_id: *task_id as int,
                description: description@,
            },
            ShellInput::DueDate { task_id, entry } => ShellInputView::DueDate {
                task_id: *task_id as int,
                entry: entry@,
            },
            ShellInput::UpdateId { id } => ShellInputView::UpdateId { id: *id },
            ShellInput::Field { task_id, entered, field } => ShellInputView::Field {
                task_id: *task_id as int,
                entered: entered@,
                field: *field,
            },
            ShellInput::NewDescription { task_id, description } => ShellInputView::NewDescription {
                task_id: *task_id as int,
                description: description@,
            },
            ShellInput::NewDueDate { task_id, due_date } => ShellInputView::NewDueDate {
                task_id: *task_id as int,
                due_date: optional_view(*due_date),
            },
            ShellInput::NewStatus { task_id, status } => ShellInputView::NewStatus {
                task_id: *task_id as int,
                status: *status,
            },
            ShellInput::DeleteId { id } => ShellInputView::DeleteId { id: *id },
            ShellInput::Continue => ShellInputView::Continue,
            ShellInput::Ignored => ShellInputView::Ignored,
        }
    }
}

/// Something to tell the user. How it is worded and shown is the caller's.
#[derive(Debug)]
pub enum ShellMessage {
    /// The line names no command.
    InvalidCommand { entered: String },
    /// A task cannot have an empty title.
    EmptyTitle,
    /// The line is no date and time.
    InvalidDate,
    /// There are no tasks to list.
    NoTasksToList,
    /// All the tasks, in their order.
    TaskListing,
    /// There are no tasks to update.
    NoTasksToUpdate,
    /// The line is no id.
    InvalidTask,
    /// No task has the id.
    InvalidTaskId { id: usize },
    /// The task with the id, as it stands.
    TaskDetails { id: usize },
    /// The line names no field.
    InvalidField { entered: String },
    /// The statuses that a task can have.
    AvailableStatuses,
    /// The line names no status.
    InvalidStatus,
    /// There are no tasks to delete.
    NoTasksToDelete,
    /// The task was deleted.
    TaskDeleted,
    /// No task was deleted.
    DeleteFailed,
    /// The help text.
    Help,
    /// The tasks are to be saved now.
    SaveTasks,
    /// The shell ends.
    Exiting,
}

/// `ShellMessage` with its texts as sequences of characters.
pub enum ShellMessageView {
    InvalidCommand { entered: Seq<char> },
    EmptyTitle,
    InvalidDate,
    NoTasksToList,
    TaskListing,
    NoTasksToUpdate,
    InvalidTask,
    InvalidTaskId { id: int },
    TaskDetails { id: int },
    InvalidField { entered: Seq<char> },
    AvailableStatuses,
    InvalidStatus,
    NoTasksToDelete,
    TaskDeleted,
    DeleteFailed,
    Help,
    SaveTasks,
    Exiting,
}

impl View for ShellMessage {
    type V = ShellMessageView;

    open spec fn view(&self) -> ShellMessageView {
        match self {
            ShellMessage::InvalidCommand { entered } => ShellMessageView::InvalidCommand {
                entered: entered@,
            },
            ShellMessage::EmptyTitle => ShellMessageView::EmptyTitle,
            ShellMessage::InvalidDate => ShellMessageView::InvalidDate,
            ShellMessage::NoTasksToList => ShellMessageView::NoTasksToList,
            ShellMessage::TaskListing => ShellMessageView::TaskListing,
            ShellMessage::NoTasksToUpdate => ShellMessageView::NoTasksToUpdate,
            ShellMessage::InvalidTask => ShellMessageView::InvalidTask,
            ShellMessage::InvalidTaskId { id } => ShellMessageView::InvalidTaskId {
                id: *id as int,
            },
            ShellMessage::TaskDetails { id } => ShellMessageView::TaskDetails { id: *id as int },
            ShellMessage::InvalidField { entered } => ShellMessageView::InvalidField {
                entered: entered@,
            },
            ShellMessage::AvailableStatuses => ShellMessageView::AvailableStatuses,
            ShellMessage::InvalidStatus => ShellMessageView::InvalidStatus,
            ShellMessage::NoTasksToDelete => ShellMessageView::NoTasksToDelete,
            ShellMessage::TaskDeleted => ShellMessageView::TaskDeleted,
            ShellMessage::DeleteFailed => ShellMessageView::DeleteFailed,
            ShellMessage::Help => ShellMessageView::Help,
            ShellMessage::SaveTasks => ShellMessageView::SaveTasks,
            ShellMessage::Exiting => ShellMessageView::Exiting,
        }
    }
}

impl DeepView for ShellMessage {
    type V = ShellMessageView;

    open spec fn deep_view(&self) -> ShellMessageView {
        self@
    }
}

/// What a step of the dialogue comes to: the task list after it, what to
/// tell the user, in that order, and the question to ask next.
pub struct Outcome {
    pub list: TaskListView,
    pub messages: Seq<ShellMessageView>,
    pub state: ShellState,
}

/// What a line stands for when it answers the question of `state`. The
/// whitespace around the line does not count. A command and a field name are
/// read in lower case.
pub open spec fn interpret(state: ShellState, line: Seq<char>) -> ShellInputView {
    let text = trimmed(line);
    match state {
        ShellState::Command => ShellInputView::Command {
            entered: text,
            command: match SupportedCommand::parse(lowercase(text)) {
                Ok(command) => Some(command),
                Err(_) => None,
            },
        },
        ShellState::AddTitle => ShellInputView::Title { title: text },
        ShellState::AddDescription { task_id } => ShellInputView::Description {
            task_id: task_id as int,
            description: text,
        },
        ShellState::AddDueDate { task_id } => ShellInputView::DueDate {
            task_id: task_id as int,
            entry: due_date_entry(text),
        },
        ShellState::UpdateId => ShellInputView::UpdateId { id: parse_usize_text(text) },
        ShellState::UpdateField { task_id } => ShellInputView::Field {
            task_id: task_id as int,
            entered: lowercase(text),
            field: TaskField::parse(lowercase(text)),
        },
        ShellState::UpdateDescription { task_id } => ShellInputView::NewDescription {
            task_id: task_id as int,
            description: text,
        },
        ShellState::UpdateDueDate { task_id } => ShellInputView::NewDueDate {
            task_id: task_id as int,
            due_date: entered_date_time(text),
        },
        ShellState::UpdateStatus { task_id } => ShellInputView::NewStatus {
            task_id: task_id as int,
            status: match TaskStatus::parse(text) {
                Ok(status) => Some(status),
                Err(_) => None,
            },
        },
        ShellState::DeleteId => ShellInputView::DeleteId { id: parse_usize_text(text) },
        ShellState::Continue => ShellInputView::Continue,
        ShellState::Exited => ShellInputView::Ignored,
    }
}

/// What the shell does on an input: the rules of the dialogue.
pub open spec fn respond(list: TaskListView, input: ShellInputView) -> Outcome {
    match input {
        ShellInputView::Command { entered, command } => match command {
            None => Outcome {
                list,
                messages: seq![ShellMessageView::InvalidCommand { entered }],
                state: ShellState::Command,
            },
            Some(SupportedCommand::Add) => Outcome {
                list,
                messages: seq![],
                state: ShellState::AddTitle,
            },
            Some(SupportedCommand::List) => Outcome {
                list,
                messages: if list.tasks.len() == 0 {
                    seq![ShellMessageView::NoTasksToList]
                } else {
                    seq![ShellMessageView::TaskListing]
                },
                state: ShellState::Continue,
            },
            Some(SupportedCommand::Update) => if list.tasks.len() == 0 {
                Outcome {
                    list,
                    messages: seq![ShellMessageView::NoTasksToUpdate],
                    state: ShellState::Continue,
                }
            } else {
                Outcome { list, messages: seq![], state: ShellState::UpdateId }
            },
            Some(SupportedCommand::Delete) => if list.tasks.len() == 0 {
                Outcome {
                    list,
                    messages: seq![ShellMessageView::NoTasksToDelete],
                    state: ShellState::Continue,
                }
            } else {
                Outcome { list, messages: seq![], state: ShellState::DeleteId }
            },
            Some(SupportedCommand::Help) => Outcome {
                list,
                messages: seq![ShellMessageView::Help],
                state: ShellState::Continue,
            },
            Some(SupportedCommand::Exit) => Outcome {
                list,
                messages: seq![ShellMessageView::SaveTasks, ShellMessageView::Exiting],
                state: ShellState::Exited,
            },
        },
        ShellInputView::Title { title } => if title.len() == 0 {
            Outcome {
                list,
                messages: seq![ShellMessageView::EmptyTitle],
                state: ShellState::AddTitle,
            }
        } else {
            Outcome {
                list: list.add(title),
                messages: seq![],
                state: ShellState::AddDescription { task_id: list.next_id() as usize },
            }
        },
        ShellInputView::Description { task_id, description } => Outcome {
            list: if description.len() == 0 {
                list
            } else {
                list.update_description(task_id, description)
            },
            messages: seq![],
            state: ShellState::AddDueDate { task_id: task_id as usize },
        },
        ShellInputView::DueDate { task_id, entry } => match entry {
            DueDateEntryView::Blank => Outcome {
                list,
                messages: seq![],
                state: ShellState::Continue,
            },
            DueDateEntryView::Valid(value) => Outcome {
                list: list.update_due_date(task_id, value),
                messages: seq![],
                state: ShellState::Continue,
            },
            DueDateEntryView::Invalid => Outcome {
                list,
                messages: seq![ShellMessageView::InvalidDate],
                state: ShellState::AddDueDate { task_id: task_id as usize },
            },
        },
        ShellInputView::UpdateId { id } => match id {
            None => Outcome {
                list,
                messages: seq![ShellMessageView::InvalidTask],
                state: ShellState::Continue,
            },
            Some(id) => if has_id(list.tasks, id as int) {
                Outcome {
                    list,
                    messages: seq![ShellMessageView::TaskDetails { id: id as int }],
                    state: ShellState::UpdateField { task_id: id },
                }
            } else {
                Outcome {
                    list,
                    messages: seq![ShellMessageView::InvalidTaskId { id: id as int }],
                    state: ShellState::Continue,
                }
            },
        },
        ShellInputView::Field { task_id, entered, field } => match field {
            Some(TaskField::Description) => Outcome {
                list,
                messages: seq![],
                state: ShellState::UpdateDescription { task_id: task_id as usize },
            },
            Some(TaskField::DueDate) => Outcome {
                list,
                messages: seq![],
                state: ShellState::UpdateDueDate { task_id: task_id as usize },
            },
            Some(TaskField::Status) => Outcome {
                list,
                messages: seq![ShellMessageView::AvailableStatuses],
                state: ShellState::UpdateStatus { task_id: task_id as usize },
            },
            None => Outcome {
                list,
                messages: seq![ShellMessageView::InvalidField { entered }],
                state: ShellState::UpdateField { task_id: task_id as usize },
            },
        },
        ShellInputView::NewDescription { task_id, description } => Outcome {
            list: list.update_description(task_id, description),
            messages: seq![],
            state: ShellState::Continue,
        },
        ShellInputView::NewDueDate { task_id, due_date } => match due_date {
            Some(value) => Outcome {
                list: list.update_due_date(task_id, value),
                messages: seq![],
                state: ShellState::Continue,
            },
            None => Outcome {
                list,
                messages: seq![ShellMessageView::InvalidDate],
                state: ShellState::UpdateDueDate { task_id: task_id as usize },
            },
        },
        ShellInputView::NewStatus { task_id, status } => match status {
            Some(status) => Outcome {
                list: list.update_status(task_id, status),
                messages: seq![],
                state: ShellState::Continue,
            },
            None => Outcome {
                list,
                messages: seq![ShellMessageView::InvalidStatus],
                state: ShellState::UpdateField { task_id: task_id as usize },
            },
        },
        ShellInputView::DeleteId { id } => match id {
            None => Outcome {
                list,
                messages: seq![ShellMessageView::InvalidTask],
                state: ShellState::Continue,
            },
            Some(id) => Outcome {
                list: list.delete(id as int),
                messages: if has_id(list.tasks, id as int) {
                    seq![ShellMessageView::TaskDeleted]
                } else {
                    seq![ShellMessageView::DeleteFailed]
                },
                state: ShellState::Continue,
            },
        },
        ShellInputView::Continue => Outcome { list, messages: seq![], state: ShellState::Command },
        ShellInputView::Ignored => Outcome { list, messages: seq![], state: ShellState::Exited },
    }
}

/// The id of the task that a question is about, if it is about one.
pub open spec fn asked_task(state: ShellState) -> Option<int> {
    match state {
        ShellState::AddDescription { task_id } => Some(task_id as int),
        ShellState::AddDueDate { task_id } => Some(task_id as int),
        ShellState::UpdateField { task_id } => Some(task_id as int),
        ShellState::UpdateDescription { task_id } => Some(task_id as int),
        ShellState::UpdateDueDate { task_id } => Some(task_id as int),
        ShellState::UpdateStatus { task_id } => Some(task_id as int),
        _ => None,
    }
}

/// Whether the task that a question is about is in the list.
pub open spec fn asks_about_a_task_of(state: ShellState, list: TaskListView) -> bool {
    match asked_task(state) {
        Some(id) => has_id(list.tasks, id),
        None => true,
    }
}

/// Setting a field of a task leaves every id where it was.
proof fn lemma_replace_keeps_ids(list: TaskListView, id: int, task: TaskView, other: int)
    requires
        has_id(list.tasks, id) ==> task.id == id,
    ensures
        has_id(list.replace(id, task).tasks, other) == has_id(list.tasks, other),
{
    let after = list.replace(id, task);
    if has_id(list.tasks, id) {
        lemma_position_exists(list.tasks, id);
        let p = position(list.tasks, id);
        assert forall|i: int| 0 <= i < list.tasks.len() implies (#[trigger] after.tasks[i]).id
            == list.tasks[i].id by {}
        if has_id(list.tasks, other) {
            let k = choose|k: int|
                0 <= k < list.tasks.len() && (#[trigger] list.tasks[k]).id == other;
            assert(after.tasks[k].id == other);
        }
        if has_id(after.tasks, other) {
            let k = choose|k: int|
                0 <= k < after.tasks.len() && (#[trigger] after.tasks[k]).id == other;
            assert(list.tasks[k].id == other);
        }
    }
}

/// The dialogue never asks about a task that is not there: where the
/// question of `state` is about a task of the list, so is the question that
/// follows any line, about the list as the line leaves it.
pub proof fn lemma_dialogue_keeps_its_task(state: ShellState, list: TaskListView, line: Seq<char>)
    requires
        asks_about_a_task_of(state, list),
        0 <= list.counter < usize::MAX,
    ensures
        asks_about_a_task_of(
            respond(list, interpret(state, line)).state,
            respond(list, interpret(state, line)).list,
        ),
{
    let input = interpret(state, line);
    let after = respond(list, input);
    match input {
        ShellInputView::Title { title } => {
            if title.len() > 0 {
                let added = list.add(title);
                assert(added.tasks[list.tasks.len() as int].id == list.next_id());
            }
        },
        ShellInputView::Description { task_id, description } => {
            if has_id(list.tasks, task_id) {
                lemma_position_exists(list.tasks, task_id);
            }
            lemma_replace_keeps_ids(
                list,
                task_id,
                list.tasks[position(list.tasks, task_id)].with_description(description),
                task_id,
            );
        },
        _ => {},
    }
}

/// A step of the dialogue keeps the list well formed: whatever is typed,
/// no two tasks come to share an id.
pub proof fn lemma_respond_keeps_well_formed(list: TaskListView, input: ShellInputView)
    requires
        list.well_formed(),
    ensures
        respond(list, input).list.well_formed(),
{
    match input {
        ShellInputView::Title { title } => {
            lemma_apply_keeps_well_formed(list, ListOp::Add { title });
        },
        ShellInputView::Description { task_id, description } => {
            lemma_apply_keeps_well_formed(
                list,
                ListOp::UpdateDescription { id: task_id, description },
            );
        },
        ShellInputView::DueDate { task_id, entry } => {
            if let DueDateEntryView::Valid(due_date) = entry {
                lemma_apply_keeps_well_formed(
                    list,
                    ListOp::UpdateDueDate { id: task_id, due_date },
                );
            }
        },
        ShellInputView::NewDescription { task_id, description } => {
            lemma_apply_keeps_well_formed(
                list,
                ListOp::UpdateDescription { id: task_id, description },
            );
        },
        ShellInputView::NewDueDate { task_id, due_date } => {
            if let Some(due_date) = due_date {
                lemma_apply_keeps_well_formed(
                    list,
                    ListOp::UpdateDueDate { id: task_id, due_date },
                );
            }
        },
        ShellInputView::NewStatus { task_id, status } => {
            if let Some(status) = status {
                lemma_apply_keeps_well_formed(list, ListOp::UpdateStatus { id: task_id, status });
            }
        },
        ShellInputView::DeleteId { id } => {
            if let Some(id) = id {
                lemma_apply_keeps_well_formed(list, ListOp::Delete { id: id as int });
            }
        },
        _ => {},
    }
}

/// Takes what was typed for the due date of a new task: nothing, a date and
/// time as `NaiveDateTimeWrapper::parse_entry` reads it, or neither.
pub fn read_due_date_entry(text: &str) -> (res: DueDateEntry)
    ensures
        res@ == due_date_entry(text@),
{
    if text.is_empty() {
        DueDateEntry::Blank
    } else {
        match NaiveDateTimeWrapper::parse_entry(text) {
            Ok(value) => DueDateEntry::Valid(value),
            Err(_) => DueDateEntry::Invalid,
        }
    }
}

/// Takes a line of input for what it answers in `state`. The whitespace
/// around the line is dropped first. A command and a field name are read in
/// lower case, an id as a decimal number, a due date as it is typed in, and
/// a status in any letter case.
pub fn read_input(state: ShellState, line: &str) -> (res: ShellInput)
    ensures
        res@ == interpret(state, line@),
{
    let text = line.trim();
    match state {
        ShellState::Command => {
            let lowered = text.to_lowercase();
            let command = match SupportedCommand::from_str(lowered.as_str()) {
                Ok(command) => Some(command),
                Err(_) => None,
            };
            ShellInput::Command { entered: text.to_owned(), command }
        },
        ShellState::AddTitle => ShellInput::Title { title: text.to_owned() },
        ShellState::AddDescription { task_id } => ShellInput::Description {
            task_id,
            description: text.to_owned(),
        },
        ShellState::AddDueDate { task_id } => ShellInput::DueDate {
            task_id,
            entry: read_due_date_entry(text),
        },
        ShellState::UpdateId => ShellInput::UpdateId { id: parse_usize(text) },
        ShellState::UpdateField { task_id } => {
            let lowered = text.to_lowercase();
            let field = TaskField::from_name(lowered.as_str());
            ShellInput::Field { task_id, entered: lowered, field }
        },
        ShellState::UpdateDescription { task_id } => ShellInput::NewDescription {
            task_id,
            description: text.to_owned(),
        },
        ShellState::UpdateDueDate { task_id } => {
            let due_date = match NaiveDateTimeWrapper::parse_entry(text) {
                Ok(value) => Some(value),
                Err(_) => None,
            };
            ShellInput::NewDueDate { task_id, due_date }
        },
        ShellState::UpdateStatus { task_id } => {
            let status = match TaskStatus::from_str(text) {
                Ok(status) => Some(status),
                Err(_) => None,
            };
            ShellInput::NewStatus { task_id, status }
        },
        ShellState::DeleteId => ShellInput::DeleteId { id: parse_usize(text) },
        ShellState::Continue => ShellInput::Continue,
        ShellState::Exited => ShellInput::Ignored,
    }
}

/// Nothing to tell.
fn no_message() -> (res: Vec<ShellMessage>)
    ensures
        res.deep_view() == Seq::<ShellMessageView>::empty(),
{
    let res: Vec<ShellMessage> = Vec::new();
    assert(res.deep_view() =~= Seq::<ShellMessageView>::empty());
    res
}

/// One thing to tell.
fn one_message(message: ShellMessage) -> (res: Vec<ShellMessage>)
    ensures
        res.deep_view() == seq![message@],
{
    let mut res: Vec<ShellMessage> = Vec::new();
    res.push(message);
    assert(res.deep_view() =~= seq![message@]);
    res
}

/// Two things to tell, in their order.
fn two_messages(first: ShellMessage, second: ShellMessage) -> (res: Vec<ShellMessage>)
    ensures
        res.deep_view() == seq![first@, second@],
{
    let mut res: Vec<ShellMessage> = Vec::new();
    res.push(first);
    res.push(second);
    assert(res.deep_view() =~= seq![first@, second@]);
    res
}

/// Acts on an input: changes the task list as the input asks, and returns
/// the question to ask next and what to tell the user first. `respond`
/// states the rules. An id that was typed in is looked up before anything
/// is asked about its task, so the fields of a task that is not there are
/// never asked for. A title that is not empty is the one input that makes a
/// new id: for it the counter has to be below the highest number there is.
pub fn apply(list: &mut TaskList, input: ShellInput) -> (res: (ShellState, Vec<ShellMessage>))
    requires
        (input@ matches ShellInputView::Title { title } && title.len() > 0) ==> old(
            list,
        )@.counter < usize::MAX,
    ensures
        (Outcome { list: final(list)@, messages: res.1.deep_view(), state: res.0 }) == respond(
            old(list)@,
            input@,
        ),
        old(list)@.well_formed() ==> final(list)@.well_formed(),
{
    match input {
        ShellInput::Command { entered, command } => match command {
            None => (ShellState::Command, one_message(ShellMessage::InvalidCommand { entered })),
            Some(SupportedCommand::Add) => (ShellState::AddTitle, no_message()),
            Some(SupportedCommand::List) => if list.is_empty() {
                (ShellState::Continue, one_message(ShellMessage::NoTasksToList))
            } else {
                (ShellState::Continue, one_message(ShellMessage::TaskListing))
            },
            Some(SupportedCommand::Update) => if list.is_empty() {
                (ShellState::Continue, one_message(ShellMessage::NoTasksToUpdate))
            } else {
                (ShellState::UpdateId, no_message())
            },
            Some(SupportedCommand::Delete) => if list.is_empty() {
                (ShellState::Continue, one_message(ShellMessage::NoTasksToDelete))
            } else {
                (ShellState::DeleteId, no_message())
            },
            Some(SupportedCommand::Help) => (
                ShellState::Continue,
                one_message(ShellMessage::Help),
            ),
            Some(SupportedCommand::Exit) => (
                ShellState::Exited,
                two_messages(ShellMessage::SaveTasks, ShellMessage::Exiting),
            ),
        },
        ShellInput::Title { title } => if title.as_str().is_empty() {
            (ShellState::AddTitle, one_message(ShellMessage::EmptyTitle))
        } else {
            let task_id = list.add_task(title);
            (ShellState::AddDescription { task_id }, no_message())
        },
        ShellInput::Description { task_id, description } => {
            if !description.as_str().is_empty() {
                list.update_task_description(task_id, description);
            }
            (ShellState::AddDueDate { task_id }, no_message())
        },
        ShellInput::DueDate { task_id, entry } => match entry {
            DueDateEntry::Blank => (ShellState::Continue, no_message()),
            DueDateEntry::Valid(value) => {
                list.update_task_due_date(task_id, value);
                (ShellState::Continue, no_message())
            },
            DueDateEntry::Invalid => (
                ShellState::AddDueDate { task_id },
                one_message(ShellMessage::InvalidDate),
            ),
        },
        ShellInput::UpdateId { id } => match id {
            None => (ShellState::Continue, one_message(ShellMessage::InvalidTask)),
            Some(id) => if list.get_task_by_id(id).is_some() {
                (
                    ShellState::UpdateField { task_id: id },
                    one_message(ShellMessage::TaskDetails { id }),
                )
            } else {
                (ShellState::Continue, one_message(ShellMessage::InvalidTaskId { id }))
            },
        },
        ShellInput::Field { task_id, entered, field } => match field {
            Some(TaskField::Description) => (
                ShellState::UpdateDescription { task_id },
                no_message(),
            ),
            Some(TaskField::DueDate) => (ShellState::UpdateDueDate { task_id }, no_message()),
            Some(TaskField::Status) => (
                ShellState::UpdateStatus { task_id },
                one_message(ShellMessage::AvailableStatuses),
            ),
            None => (
                ShellState::UpdateField { task_id },
                one_message(ShellMessage::InvalidField { entered }),
            ),
        },
        ShellInput::NewDescription { task_id, description } => {
            list.update_task_description(task_id, description);
            (ShellState::Continue, no_message())
        },
        ShellInput::NewDueDate { task_id, due_date } => match due_date {
            Some(value) => {
                list.update_task_due_date(task_id, value);
                (ShellState::Continue, no_message())
            },
            None => (ShellState::UpdateDueDate { task_id }, one_message(ShellMessage::InvalidDate)),
        },
        ShellInput::NewStatus { task_id, status } => match status {
            Some(status) => {
                list.update_task_status(task_id, status);
                (ShellState::Continue, no_message())
            },
            None => (ShellState::UpdateField { task_id }, one_message(ShellMessage::InvalidStatus)),
        },
        ShellInput::DeleteId { id } => match id {
            None => (ShellState::Continue, one_message(ShellMessage::InvalidTask)),
            Some(id) => match list.delete_task(id) {
                Ok(_) => (ShellState::Continue, one_message(ShellMessage::TaskDeleted)),
                Err(_) => (ShellState::Continue, one_message(ShellMessage::DeleteFailed)),
            },
        },
        ShellInput::Continue => (ShellState::Command, no_message()),
        ShellInput::Ignored => (ShellState::Exited, no_message()),
    }
}

/// One step of the dialogue: takes the line for what it answers in `state`
/// and acts on it. Where the line is a title that is not blank, the counter
/// has to be below the highest number there is.
pub fn step(state: ShellState, list: &mut TaskList, line: &str) -> (res: (
    ShellState,
    Vec<ShellMessage>,
))
    requires
        (state is AddTitle && trimmed(line@).len() > 0) ==> old(list)@.counter < usize::MAX,
    ensures
        (Outcome { list: final(list)@, messages: res.1.deep_view(), state: res.0 }) == respond(
            old(list)@,
            interpret(state, line@),
        ),
        old(list)@.well_formed() ==> final(list)@.well_formed(),
{
    let input = read_input(state, line);
    apply(list, input)
}

} // verus!
