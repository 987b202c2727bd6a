//! The flat form in which the tasks are kept between runs: one row of five
//! text fields per task, under a row of column names.

use vstd::prelude::*;

use crate::naive_date_time_wrapper::{
    parsed_date_time,
    stored_form,
    DateTime,
    NaiveDateTimeWrapper,
    CANONICAL_FORMAT,
};
use crate::task::{Task, TaskView};
use crate::task_status::TaskStatus;
use crate::text::{
    decimal,
    lemma_parse_decimal_of_decimal,
    parse_usize,
    parse_usize_text,
    usize_to_text,
};

verus! {

/// The number of fields of a row.
pub const COLUMNS: usize = 5;

/// Why the tasks could not be read.
#[derive(Clone, Copy, Debug, PartialEq, Eq, Structural)]
pub enum PersistenceError {
    /// A row has fewer than five fields.
    MissingField,
    /// The first field of a row is not the decimal text of an id.
    InvalidId,
}

/// A row: its fields, each a text.
pub type Row = Seq<Seq<char>>;

/// The row of column names that stands above the rows of the tasks.
pub open spec fn header() -> Row {
    seq!["id"@, "title"@, "description"@, "due_date"@, "status"@]
}

/// The field that stands for a description: its text, or nothing where the
/// task has none.
pub open spec fn description_field(description: Option<Seq<char>>) -> Seq<char> {
    match description {
        Some(text) => text,
        None => Seq::empty(),
    }
}

/// The field that stands for a due date: its stored form, or nothing where
/// the task has none.
pub open spec fn due_date_field(due_date: Option<DateTime>) -> Seq<char> {
    match due_date {
        Some(value) => stored_form(value),
        None => Seq::empty(),
    }
}

/// The row of a task: id, title, description, due date and status, in that
/// order.
pub open spec fn row_of(task: TaskView) -> Row {
    seq![
        decimal(task.id as nat),
        task.title,
        description_field(task.description),
        due_date_field(task.due_date),
        task.status.text(),
    ]
}

/// The due date that a field stands for: none for an empty field and for one
/// that cannot be read.
pub open spec fn due_date_of_field(field: Seq<char>) -> Option<DateTime> {
    if field.len() == 0 {
        None
    } else {
        parsed_date_time(field, CANONICAL_FORMAT@)
    }
}

/// The status that a field stands for: not started for one that cannot be
/// read.
pub open spec fn status_of_field(field: Seq<char>) -> TaskStatus {
    match TaskStatus::parse(field) {
        Ok(status) => status,
        Err(_) => TaskStatus::NotStarted,
    }
}

/// The task that a row stands for. Fields beyond the fifth are not looked
/// at.
pub open spec fn task_of(row: Row) -> Result<TaskView, PersistenceError> {
    if row.len() < COLUMNS {
        Err(PersistenceError::MissingField)
    } else {
        match parse_usize_text(row[0]) {
            Some(id) => Ok(
                TaskView {
                    id: id as int,
                    title: row[1],
                    description: Some(row[2]),
                    due_date: due_date_of_field(row[3]),
                    status: status_of_field(row[4]),
                },
            ),
            None => Err(PersistenceError::InvalidId),
        }
    }
}

/// Whether `rows` are the rows of `tasks`, one for one and in their order.
pub open spec fn are_rows_of(rows: Seq<Row>, tasks: Seq<TaskView>) -> bool {
    &&& rows.len() == tasks.len()
    &&& forall|i: int| 0 <= i < tasks.len() ==> #[trigger] rows[i] == row_of(tasks[i])
}

/// Whether `tasks` are the tasks that `rows` stand for, one for one and in
/// their order.
pub open spec fn are_tasks_of(tasks: Seq<TaskView>, rows: Seq<Row>) -> bool {
    &&& tasks.len() == rows.len()
    &&& forall|i: int| 0 <= i < rows.len() ==> task_of(rows[i]) == Ok::<
        TaskView,
        PersistenceError,
    >(#[trigger] tasks[i])
}

/// Whether `rows` are the saved form of `tasks`: nothing at all for no
/// tasks, else the row of column names and then the rows of the tasks.
pub open spec fn is_saved_form(rows: Seq<Row>, tasks: Seq<TaskView>) -> bool {
    if tasks.len() == 0 {
        rows.len() == 0
    } else {
        &&& rows.len() == tasks.len() + 1
        &&& rows[0] == header()
        &&& are_rows_of(rows.drop_first(), tasks)
    }
}

/// The rows of a saved form that stand for tasks: all but the row of column
/// names.
pub open spec fn rows_of_tasks(saved: Seq<Row>) -> Seq<Row> {
    if saved.len() == 0 {
        saved
    } else {
        saved.drop_first()
    }
}

/// What reading the row of `task` is known to give: the id, the title and
/// the status as they were; the description as it was, an empty one where
/// there was none; no due date where there was none, else what is read
/// from its stored form.
pub open spec fn reads_back_as(task: TaskView, back: TaskView) -> bool {
    &&& back.id == task.id
    &&& back.title == task.title
    &&& back.description == Some(description_field(task.description))
    &&& match task.due_date {
        Some(value) => back.due_date == due_date_of_field(stored_form(value)),
        None => back.due_date is None,
    }
    &&& back.status == task.status
}

/// Whether the row at `i` is the first that cannot be read, and `error` says
/// why it cannot.
pub open spec fn reading_fails_at(rows: Seq<Row>, i: int, error: PersistenceError) -> bool {
    &&& 0 <= i < rows.len()
    &&& task_of(rows[i]) == Err::<TaskView, PersistenceError>(error)
    &&& forall|j: int| 0 <= j < i ==> task_of(#[trigger] rows[j]) is Ok
}

/// The row of column names.
pub fn header_row() -> (res: Vec<String>)
    ensures
        res.deep_view() == header(),
{
    let mut row: Vec<String> = Vec::new();
    row.push("id".to_owned());
    row.push("title".to_owned());
    row.push("description".to_owned());
    row.push("due_date".to_owned());
    row.push("status".to_owned());
    assert(row.deep_view() =~= header());
    row
}

/// Writes the row of a task: the id in decimal, the title, the description,
/// the due date in its stored form, and the display text of the status. A
/// description or a due date that is not there leaves its field empty.
pub fn task_row(task: &Task) -> (res: Vec<String>)
    ensures
        res.deep_view() == row_of(task@),
{
    let due_date = match &task.due_date {
        Some(value) => value.to_stored_form(),
        None => String::new(),
    };
    let description = match &task.description {
        Some(text) => text.clone(),
        None => String::new(),
    };
    let mut row: Vec<String> = Vec::new();
    row.push(usize_to_text(task.id));
    row.push(task.title.clone());
    row.push(description);
    row.push(due_date);
    row.push(task.status.to_string());
    assert(row.deep_view() =~= row_of(task@));
    row
}

/// Reads the task of a row. Fails where the row has fewer than five fields
/// or its first field is not an id: a column that is not there is a
/// malformed row, whichever column it is. A due date is missing where its
/// field is empty; a missing due date and one that cannot be read are left
/// out, and a status that cannot be read counts as not started.
pub fn task_from_row(row: &Vec<String>) -> (res: Result<Task, PersistenceError>)
    ensures
        match res {
            Ok(task) => task_of(row.deep_view()) == Ok::<TaskView, PersistenceError>(task@),
            Err(error) => task_of(row.deep_view()) == Err::<TaskView, PersistenceError>(error),
        },
{
    if row.len() < COLUMNS {
        return Err(PersistenceError::MissingField);
    }
    let ghost fields = row.deep_view();
    assert(fields[0] == row[0]@ && fields[1] == row[1]@ && fields[2] == row[2]@);
    assert(fields[3] == row[3]@ && fields[4] == row[4]@);
    let id = match parse_usize(row[0].as_str()) {
        Some(id) => id,
        None => {
            return Err(PersistenceError::InvalidId);
        },
    };
    let mut task = Task::new(id, row[1].clone());
    task.set_description(row[2].clone());
    if !row[3].as_str().is_empty() {
        match NaiveDateTimeWrapper::from_str(row[3].as_str()) {
            Ok(due_date) => task.set_due_date(due_date),
            Err(_) => (),
        }
    }
    match TaskStatus::from_str(row[4].as_str()) {
        Ok(status) => task.set_status(status),
        Err(_) => task.set_status(TaskStatus::NotStarted),
    }
    Ok(task)
}

/// Writes the tasks as rows: the row of column names, then one row per task
/// in the order of the tasks. No task, no row: not even the column names.
pub fn save_tasks_to_csv(tasks: &Vec<Task>) -> (res: Vec<Vec<String>>)
    ensures
        is_saved_form(res.deep_view(), tasks.deep_view()),
{
    let mut rows: Vec<Vec<String>> = Vec::new();
    if tasks.len() == 0 {
        return rows;
    }
    rows.push(header_row());
    let mut i: usize = 0;
    while i < tasks.len()
        invariant
            i <= tasks.len(),
            rows.deep_view().len() == i + 1,
            rows.deep_view()[0] == header(),
            forall|j: int|
                0 <= j < i ==> row_of(#[trigger] tasks.deep_view()[j]) == rows.deep_view()[j + 1],
        decreases tasks.len() - i,
    {
        let ghost before = rows.deep_view();
        assert(tasks.deep_view()[i as int] == tasks[i as int]@);
        let row = task_row(&tasks[i]);
        rows.push(row);
        assert(rows.deep_view() =~= before.push(row.deep_view()));
        i += 1;
    }
    assert(are_rows_of(rows.deep_view().drop_first(), tasks.deep_view())) by {
        let written = rows.deep_view().drop_first();
        assert forall|j: int| 0 <= j < tasks.len() implies #[trigger] written[j] == row_of(
            tasks.deep_view()[j],
        ) by {
            assert(written[j] == rows.deep_view()[j + 1]);
            assert(row_of(tasks.deep_view()[j]) == rows.deep_view()[j + 1]);
        }
    }
    rows
}

/// Reads the tasks of the rows that stand under the column names, in the
/// order of the rows. Fails at the first row that has fewer than five fields
/// or whose first field is not an id.
pub fn load_tasks_from_csv(rows: &Vec<Vec<String>>) -> (res: Result<Vec<Task>, PersistenceError>)
    ensures
        match res {
            Ok(tasks) => are_tasks_of(tasks.deep_view(), rows.deep_view()),
            Err(error) => exists|i: int| #[trigger] reading_fails_at(rows.deep_view(), i, error),
        },
{
    let mut tasks: Vec<Task> = Vec::new();
    let mut i: usize = 0;
    while i < rows.len()
        invariant
            i <= rows.len(),
            tasks.deep_view().len() == i,
            forall|j: int|
                0 <= j < i ==> task_of(#[trigger] rows.deep_view()[j]) == Ok::<
                    TaskView,
                    PersistenceError,
                >(tasks.deep_view()[j]),
        decreases rows.len() - i,
    {
        let ghost before = tasks.deep_view();
        assert(rows.deep_view()[i as int] == rows[i as int].deep_view());
        match task_from_row(&rows[i]) {
            Ok(task) => {
                tasks.push(task);
                assert(tasks.deep_view() =~= before.push(task@));
            },
            Err(error) => {
                assert(reading_fails_at(rows.deep_view(), i as int, error));
                return Err(error);
            },
        }
        i += 1;
    }
    assert forall|j: int| 0 <= j < rows.len() implies task_of(rows.deep_view()[j]) == Ok::<
        TaskView,
        PersistenceError,
    >(#[trigger] tasks.deep_view()[j]) by {
        assert(task_of(rows.deep_view()[j]) is Ok);
    }
    Ok(tasks)
}

/// The row of a task can be read, and what is read has the id, the title
/// and the status of the task, and no due date where the task has none.
/// What is read of a due date is what `chrono` reads from the text that it
/// wrote for it.
pub proof fn lemma_row_reads_back(task: TaskView)
    requires
        0 <= task.id <= usize::MAX,
    ensures
        task_of(row_of(task)) is Ok,
        reads_back_as(task, task_of(row_of(task))->Ok_0),
{
    lemma_parse_decimal_of_decimal(task.id as nat);
    task.status.lemma_display_text_reads_back();
}

/// The rows of tasks can all be read, and they give as many tasks in the
/// same order, each as `reads_back_as` says.
pub proof fn lemma_rows_read_back(tasks: Seq<TaskView>, rows: Seq<Row>)
    requires
        forall|i: int| 0 <= i < tasks.len() ==> 0 <= (#[trigger] tasks[i]).id <= usize::MAX,
        are_rows_of(rows, tasks),
    ensures
        forall|i: int, error: PersistenceError| !reading_fails_at(rows, i, error),
        forall|back: Seq<TaskView>, i: int|
            are_tasks_of(back, rows) && 0 <= i < tasks.len() ==> reads_back_as(
                tasks[i],
                #[trigger] back[i],
            ),
{
    assert forall|i: int| 0 <= i < tasks.len() implies task_of(#[trigger] rows[i]) is Ok
        && reads_back_as(tasks[i], task_of(rows[i])->Ok_0) by {
        lemma_row_reads_back(tasks[i]);
    }
    assert forall|back: Seq<TaskView>, i: int|
        are_tasks_of(back, rows) && 0 <= i < tasks.len() implies reads_back_as(
        tasks[i],
        #[trigger] back[i],
    ) by {
        assert(task_of(rows[i]) is Ok);
    }
}

/// Tasks that are saved and read again come back as many as they were and
/// in their order, each with its id, its title and its status, and with no
/// due date where it had none: reading the saved form never fails. No
/// status is taken for not started because it could not be read. A due date
/// comes back as what is read from the text written for it.
pub proof fn lemma_saved_form_reads_back(tasks: Seq<TaskView>, saved: Seq<Row>)
    requires
        forall|i: int| 0 <= i < tasks.len() ==> 0 <= (#[trigger] tasks[i]).id <= usize::MAX,
        is_saved_form(saved, tasks),
    ensures
        rows_of_tasks(saved).len() == tasks.len(),
        forall|i: int, error: PersistenceError| !reading_fails_at(rows_of_tasks(saved), i, error),
        forall|back: Seq<TaskView>, i: int|
            are_tasks_of(back, rows_of_tasks(saved)) && 0 <= i < tasks.len() ==> reads_back_as(
                tasks[i],
                #[trigger] back[i],
            ),
{
    if tasks.len() == 0 {
        assert(are_rows_of(rows_of_tasks(saved), tasks));
    }
    lemma_rows_read_back(tasks, rows_of_tasks(saved));
}

} // verus!
