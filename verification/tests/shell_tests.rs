use to_do_app::command::SupportedCommand;
use to_do_app::naive_date_time_wrapper::NaiveDateTimeWrapper;
use to_do_app::shell::{
    apply, read_due_date_entry, read_input, step, DueDateEntry, ShellInput, ShellMessage,
    ShellState, TaskField,
};
use to_do_app::task_list::TaskList;
use to_do_app::task_status::TaskStatus;

fn shown(messages: &[ShellMessage]) -> Vec<String> {
    messages.iter().map(|message| format!("{:?}", message)).collect()
}

fn run(list: &mut TaskList, state: ShellState, line: &str) -> (ShellState, Vec<String>) {
    let (next, messages) = step(state, list, line);
    (next, shown(&messages))
}

fn none() -> Vec<String> {
    Vec::new()
}

fn one(text: &str) -> Vec<String> {
    vec![text.to_string()]
}

fn list_of_two() -> TaskList {
    let mut list = TaskList::new();
    list.add_task("a".to_string());
    list.add_task("b".to_string());
    list
}

#[test]
fn field_names_are_exact() {
    assert_eq!(TaskField::from_name("description"), Some(TaskField::Description));
    assert_eq!(TaskField::from_name("due date"), Some(TaskField::DueDate));
    assert_eq!(TaskField::from_name("status"), Some(TaskField::Status));
    assert_eq!(TaskField::from_name("Status"), None);
    assert_eq!(TaskField::from_name("due_date"), None);
    assert_eq!(TaskField::from_name(""), None);
}

#[test]
fn due_date_entry_tells_blank_from_invalid() {
    assert_eq!(read_due_date_entry(""), DueDateEntry::Blank);
    assert_eq!(read_due_date_entry("soon"), DueDateEntry::Invalid);
    assert_eq!(read_due_date_entry("31.02.2024 10:30"), DueDateEntry::Invalid);
    assert_eq!(
        read_due_date_entry("25.12.2024 10:30"),
        DueDateEntry::Valid(NaiveDateTimeWrapper::new(2024, 12, 25, 10, 30, 0).unwrap())
    );
}

#[test]
fn commands_are_matched_in_any_case_and_trimmed() {
    let mut list = TaskList::new();
    for line in ["add", "ADD", "  Add \n", "aDD"] {
        assert_eq!(run(&mut list, ShellState::Command, line), (ShellState::AddTitle, none()));
    }
    assert_eq!(run(&mut list, ShellState::Command, "help\n"), (ShellState::Continue, one("Help")));
    assert_eq!(
        run(&mut list, ShellState::Command, "EXIT"),
        (ShellState::Exited, vec!["SaveTasks".to_string(), "Exiting".to_string()])
    );
}

#[test]
fn unknown_command_is_reported_as_typed_and_asked_again() {
    let mut list = TaskList::new();
    let (state, messages) = step(ShellState::Command, &mut list, "  Quit \n");
    assert_eq!(state, ShellState::Command);
    assert_eq!(messages.len(), 1);
    assert!(matches!(&messages[0], ShellMessage::InvalidCommand { entered } if entered == "Quit"));
    let (state, messages) = step(ShellState::Command, &mut list, "");
    assert_eq!(state, ShellState::Command);
    assert!(matches!(&messages[0], ShellMessage::InvalidCommand { entered } if entered.is_empty()));
}

#[test]
fn commands_on_an_empty_list() {
    let mut list = TaskList::new();
    assert_eq!(
        run(&mut list, ShellState::Command, "list"),
        (ShellState::Continue, one("NoTasksToList"))
    );
    assert_eq!(
        run(&mut list, ShellState::Command, "update"),
        (ShellState::Continue, one("NoTasksToUpdate"))
    );
    assert_eq!(
        run(&mut list, ShellState::Command, "delete"),
        (ShellState::Continue, one("NoTasksToDelete"))
    );
    assert_eq!(run(&mut list, ShellState::Continue, "anything"), (ShellState::Command, none()));
}

#[test]
fn commands_on_a_list_with_tasks() {
    let mut list = list_of_two();
    assert_eq!(
        run(&mut list, ShellState::Command, "list"),
        (ShellState::Continue, one("TaskListing"))
    );
    assert_eq!(run(&mut list, ShellState::Command, "update"), (ShellState::UpdateId, none()));
    assert_eq!(run(&mut list, ShellState::Command, "delete"), (ShellState::DeleteId, none()));
    assert_eq!(list.tasks.len(), 2);
}

#[test]
fn add_dialogue_with_all_fields() {
    let mut list = TaskList::new();
    let (state, _) = run(&mut list, ShellState::Command, "add");
    assert_eq!(run(&mut list, state, "   "), (ShellState::AddTitle, one("EmptyTitle")));
    assert!(list.tasks.is_empty());
    let (state, messages) = run(&mut list, ShellState::AddTitle, " Buy milk \n");
    assert_eq!((state, messages), (ShellState::AddDescription { task_id: 1 }, none()));
    assert_eq!(list.tasks[0].title, "Buy milk");
    let (state, messages) = run(&mut list, state, "two litres\n");
    assert_eq!((state, messages), (ShellState::AddDueDate { task_id: 1 }, none()));
    assert_eq!(list.tasks[0].description, Some("two litres".to_string()));
    let (state, messages) = run(&mut list, state, "31.02.2024 10:30\n");
    assert_eq!((state, messages), (ShellState::AddDueDate { task_id: 1 }, one("InvalidDate")));
    assert_eq!(list.tasks[0].due_date, None);
    let (state, messages) = run(&mut list, state, "25.12.2024 10:30\n");
    assert_eq!((state, messages), (ShellState::Continue, none()));
    assert_eq!(list.tasks[0].due_date, NaiveDateTimeWrapper::new(2024, 12, 25, 10, 30, 0));
    assert_eq!(list.tasks[0].status, TaskStatus::NotStarted);
    assert_eq!(run(&mut list, state, "\n"), (ShellState::Command, none()));
}

#[test]
fn blank_title_needs_no_new_id() {
    let mut list = TaskList::new();
    list.update_task_counter(usize::MAX);
    assert_eq!(
        run(&mut list, ShellState::AddTitle, " \t\n"),
        (ShellState::AddTitle, one("EmptyTitle"))
    );
    assert_eq!(list.get_task_counter(), usize::MAX);
    assert!(list.tasks.is_empty());
}

#[test]
fn lines_are_trimmed_of_every_kind_of_whitespace() {
    let mut list = TaskList::new();
    let line = "\u{2003}\u{a0} Buy  milk\u{3000}\r\n";
    let (state, _) = run(&mut list, ShellState::AddTitle, line);
    assert_eq!(state, ShellState::AddDescription { task_id: 1 });
    assert_eq!(list.tasks[0].title, "Buy  milk");
    let (_, _) = run(&mut list, state, "\u{200B}");
    assert_eq!(list.tasks[0].description, Some("\u{200B}".to_string()));
}

#[test]
fn add_dialogue_with_blank_fields() {
    let mut list = list_of_two();
    let (state, _) = run(&mut list, ShellState::AddTitle, "c");
    assert_eq!(state, ShellState::AddDescription { task_id: 3 });
    let (state, _) = run(&mut list, state, "\n");
    assert_eq!(state, ShellState::AddDueDate { task_id: 3 });
    assert_eq!(list.tasks[2].description, None);
    assert_eq!(run(&mut list, state, " \n"), (ShellState::Continue, none()));
    assert_eq!(list.tasks[2].due_date, None);
    assert_eq!(list.tasks.len(), 3);
}

#[test]
fn update_asks_for_an_id_that_exists() {
    let mut list = list_of_two();
    assert_eq!(
        run(&mut list, ShellState::UpdateId, "two"),
        (ShellState::Continue, one("InvalidTask"))
    );
    assert_eq!(
        run(&mut list, ShellState::UpdateId, "3"),
        (ShellState::Continue, one("InvalidTaskId { id: 3 }"))
    );
    assert_eq!(
        run(&mut list, ShellState::UpdateId, "0"),
        (ShellState::Continue, one("InvalidTaskId { id: 0 }"))
    );
    assert_eq!(
        run(&mut list, ShellState::UpdateId, " 2 "),
        (ShellState::UpdateField { task_id: 2 }, one("TaskDetails { id: 2 }"))
    );
}

#[test]
fn update_looks_the_id_up_and_does_not_count_tasks() {
    let mut list = list_of_two();
    list.add_task("c".to_string());
    list.delete_task(1).unwrap();
    list.delete_task(2).unwrap();
    assert_eq!(
        run(&mut list, ShellState::UpdateId, "3"),
        (ShellState::UpdateField { task_id: 3 }, one("TaskDetails { id: 3 }"))
    );
    assert_eq!(
        run(&mut list, ShellState::UpdateId, "1"),
        (ShellState::Continue, one("InvalidTaskId { id: 1 }"))
    );
}

#[test]
fn update_field_choice() {
    let mut list = list_of_two();
    let state = ShellState::UpdateField { task_id: 2 };
    assert_eq!(
        run(&mut list, state, "Description"),
        (ShellState::UpdateDescription { task_id: 2 }, none())
    );
    assert_eq!(
        run(&mut list, state, " DUE DATE "),
        (ShellState::UpdateDueDate { task_id: 2 }, none())
    );
    assert_eq!(
        run(&mut list, state, "status"),
        (ShellState::UpdateStatus { task_id: 2 }, one("AvailableStatuses"))
    );
    let (next, messages) = step(state, &mut list, " Title \n");
    assert_eq!(next, state);
    assert!(matches!(&messages[0], ShellMessage::InvalidField { entered } if entered == "title"));
}

#[test]
fn update_sets_the_chosen_field() {
    let mut list = list_of_two();
    assert_eq!(
        run(&mut list, ShellState::UpdateDescription { task_id: 2 }, " new text "),
        (ShellState::Continue, none())
    );
    assert_eq!(list.tasks[1].description, Some("new text".to_string()));
    assert_eq!(
        run(&mut list, ShellState::UpdateDescription { task_id: 2 }, ""),
        (ShellState::Continue, none())
    );
    assert_eq!(list.tasks[1].description, Some(String::new()));
    assert_eq!(
        run(&mut list, ShellState::UpdateDueDate { task_id: 2 }, ""),
        (ShellState::UpdateDueDate { task_id: 2 }, one("InvalidDate"))
    );
    assert_eq!(
        run(&mut list, ShellState::UpdateDueDate { task_id: 2 }, "01.02.2030 08:05"),
        (ShellState::Continue, none())
    );
    assert_eq!(list.tasks[1].due_date, NaiveDateTimeWrapper::new(2030, 2, 1, 8, 5, 0));
    assert_eq!(
        run(&mut list, ShellState::UpdateStatus { task_id: 2 }, "done"),
        (ShellState::UpdateField { task_id: 2 }, one("InvalidStatus"))
    );
    assert_eq!(list.tasks[1].status, TaskStatus::NotStarted);
    assert_eq!(
        run(&mut list, ShellState::UpdateStatus { task_id: 2 }, " in PROGRESS "),
        (ShellState::Continue, none())
    );
    assert_eq!(list.tasks[1].status, TaskStatus::InProgress);
    assert_eq!(list.tasks[0].description, None);
    assert_eq!(list.tasks[0].status, TaskStatus::NotStarted);
}

#[test]
fn delete_dialogue() {
    let mut list = list_of_two();
    assert_eq!(
        run(&mut list, ShellState::DeleteId, "x"),
        (ShellState::Continue, one("InvalidTask"))
    );
    assert_eq!(
        run(&mut list, ShellState::DeleteId, "9"),
        (ShellState::Continue, one("DeleteFailed"))
    );
    assert_eq!(list.tasks.len(), 2);
    assert_eq!(
        run(&mut list, ShellState::DeleteId, "1"),
        (ShellState::Continue, one("TaskDeleted"))
    );
    assert_eq!(list.tasks.len(), 1);
    assert_eq!(list.tasks[0].id, 2);
    assert_eq!(
        run(&mut list, ShellState::DeleteId, "1"),
        (ShellState::Continue, one("DeleteFailed"))
    );
}

#[test]
fn nothing_happens_after_exit() {
    let mut list = list_of_two();
    assert_eq!(run(&mut list, ShellState::Exited, "add"), (ShellState::Exited, none()));
    assert_eq!(list.tasks.len(), 2);
}

#[test]
fn read_input_takes_the_line_for_the_question() {
    assert!(matches!(
        read_input(ShellState::Command, " LIST "),
        ShellInput::Command { entered, command: Some(SupportedCommand::List) } if entered == "LIST"
    ));
    assert!(matches!(
        read_input(ShellState::UpdateId, "+12"),
        ShellInput::UpdateId { id: Some(12) }
    ));
    assert!(matches!(read_input(ShellState::DeleteId, "-3"), ShellInput::DeleteId { id: None }));
    assert!(matches!(
        read_input(ShellState::UpdateStatus { task_id: 4 }, "Completed"),
        ShellInput::NewStatus { task_id: 4, status: Some(TaskStatus::Completed) }
    ));
    assert!(matches!(
        read_input(ShellState::AddDueDate { task_id: 4 }, "  "),
        ShellInput::DueDate { task_id: 4, entry: DueDateEntry::Blank }
    ));
    assert!(matches!(read_input(ShellState::Continue, "x"), ShellInput::Continue));
    assert!(matches!(read_input(ShellState::Exited, "x"), ShellInput::Ignored));
}

#[test]
fn apply_acts_on_an_input_whatever_the_question_was() {
    let mut list = list_of_two();
    let (state, messages) = apply(
        &mut list,
        ShellInput::NewStatus { task_id: 1, status: Some(TaskStatus::Completed) },
    );
    assert_eq!(state, ShellState::Continue);
    assert!(messages.is_empty());
    assert_eq!(list.tasks[0].status, TaskStatus::Completed);
    let (state, _) = apply(&mut list, ShellInput::Title { title: "c".to_string() });
    assert_eq!(state, ShellState::AddDescription { task_id: 3 });
    let (state, _) = apply(
        &mut list,
        ShellInput::Description { task_id: 9, description: "lost".to_string() },
    );
    assert_eq!(state, ShellState::AddDueDate { task_id: 9 });
    assert!(list.tasks.iter().all(|task| task.description.is_none()));
}
