//! The lifecycle state of a task and its text form.

use vstd::prelude::*;

use crate::text::{lowercase, same_text, trimmed};

verus! {

/// Where a task stands. A new task is `NotStarted`.
#[derive(Debug, PartialEq, Eq, Structural)]
pub enum TaskStatus {
    NotStarted,
    InProgress,
    Completed,
}

impl TaskStatus {
    /// The canonical display text of a status.
    pub open spec fn text(self) -> Seq<char> {
        match self {
            TaskStatus::NotStarted => "Not Started"@,
            TaskStatus::InProgress => "In Progress"@,
            TaskStatus::Completed => "Completed"@,
        }
    }

    /// The status that a lowercase, trimmed text stands for, if any.
    pub open spec fn parse_normalized(t: Seq<char>) -> Result<TaskStatus, ()> {
        if t == "not started"@ {
            Ok(TaskStatus::NotStarted)
        } else if t == "in progress"@ {
            Ok(TaskStatus::InProgress)
        } else if t == "completed"@ {
            Ok(TaskStatus::Completed)
        } else {
            Err(())
        }
    }

    /// The status whose display text a text is, if it is one.
    pub open spec fn parse_display(t: Seq<char>) -> Option<TaskStatus> {
        if t == "Not Started"@ {
            Some(TaskStatus::NotStarted)
        } else if t == "In Progress"@ {
            Some(TaskStatus::InProgress)
        } else if t == "Completed"@ {
            Some(TaskStatus::Completed)
        } else {
            None
        }
    }

    /// The status that a text stands for, if any: a display text stands for
    /// its status as it is, and any other text for what it stands for once
    /// it is put in lower case and trimmed.
    pub open spec fn parse(t: Seq<char>) -> Result<TaskStatus, ()> {
        match Self::parse_display(t) {
            Some(status) => Ok(status),
            None => Self::parse_normalized(trimmed(lowercase(t))),
        }
    }

    /// A status is read back from its display text.
    pub proof fn lemma_display_text_reads_back(self)
        ensures
            Self::parse(self.text()) == Ok::<TaskStatus, ()>(self),
    {
        reveal_strlit("Not Started");
        reveal_strlit("In Progress");
        reveal_strlit("Completed");
        assert("Not Started"@[0] == 'N');
        assert("In Progress"@[0] == 'I');
        assert("Completed"@[0] == 'C');
    }

    /// The canonical display text: "Not Started", "In Progress" or "Completed".
    pub fn to_string(&self) -> (res: String)
        ensures
            res@ == self.text(),
    {
        match self {
            TaskStatus::NotStarted => "Not Started".to_owned(),
            TaskStatus::InProgress => "In Progress".to_owned(),
            TaskStatus::Completed => "Completed".to_owned(),
        }
    }

    /// Reads a status from a text that is already in lower case and trimmed.
    /// Any text but the three lowercase display texts is refused.
    pub fn from_normalized(text: &str) -> (res: Result<TaskStatus, ()>)
        ensures
            res == Self::parse_normalized(text@),
    {
        if same_text(text, "not started") {
            Ok(TaskStatus::NotStarted)
        } else if same_text(text, "in progress") {
            Ok(TaskStatus::InProgress)
        } else if same_text(text, "completed") {
            Ok(TaskStatus::Completed)
        } else {
            Err(())
        }
    }

    /// Reads a status from its display text, in any letter case and with
    /// whitespace around it. A display text as `to_string` writes it is
    /// taken as it stands; any other text is put in lower case and trimmed
    /// first. Unrecognized text is refused: no status is chosen in its place.
    pub fn from_str(input: &str) -> (res: Result<TaskStatus, ()>)
        ensures
            res == Self::parse(input@),
    {
        if same_text(input, "Not Started") {
            Ok(TaskStatus::NotStarted)
        } else if same_text(input, "In Progress") {
            Ok(TaskStatus::InProgress)
        } else if same_text(input, "Completed") {
            Ok(TaskStatus::Completed)
        } else {
            let lowered = input.to_lowercase();
            Self::from_normalized(lowered.as_str().trim())
        }
    }
}

impl Clone for TaskStatus {
    fn clone(&self) -> (res: Self)
        ensures
            res == *self,
    {
        match self {
            TaskStatus::NotStarted => TaskStatus::NotStarted,
            TaskStatus::InProgress => TaskStatus::InProgress,
            TaskStatus::Completed => TaskStatus::Completed,
        }
    }
}

} // verus!
