//! The commands of the interactive shell and their text form.

use vstd::prelude::*;

use crate::text::same_text;

verus! {

/// A command that the shell understands.
#[derive(Clone, Copy, Debug, PartialEq, Eq, Structural)]
pub enum SupportedCommand {
    Add,
    List,
    Update,
    Delete,
    Help,
    Exit,
}

impl SupportedCommand {
    /// The word that names a command.
    pub open spec fn text(self) -> Seq<char> {
        match self {
            SupportedCommand::Add => "add"@,
            SupportedCommand::List => "list"@,
            SupportedCommand::Update => "update"@,
            SupportedCommand::Delete => "delete"@,
            SupportedCommand::Help => "help"@,
            SupportedCommand::Exit => "exit"@,
        }
    }

    /// The command that a word names, if any. The word is taken as it is:
    /// letter case counts.
    pub open spec fn parse(t: Seq<char>) -> Result<SupportedCommand, ()> {
        if t == "add"@ {
            Ok(SupportedCommand::Add)
        } else if t == "list"@ {
            Ok(SupportedCommand::List)
        } else if t == "update"@ {
            Ok(SupportedCommand::Update)
        } else if t == "delete"@ {
            Ok(SupportedCommand::Delete)
        } else if t == "help"@ {
            Ok(SupportedCommand::Help)
        } else if t == "exit"@ {
            Ok(SupportedCommand::Exit)
        } else {
            Err(())
        }
    }

    /// The word that names this command.
    pub fn to_string(&self) -> (res: String)
        ensures
            res@ == self.text(),
    {
        match self {
            SupportedCommand::Add => "add".to_owned(),
            SupportedCommand::List => "list".to_owned(),
            SupportedCommand::Update => "update".to_owned(),
            SupportedCommand::Delete => "delete".to_owned(),
            SupportedCommand::Help => "help".to_owned(),
            SupportedCommand::Exit => "exit".to_owned(),
        }
    }

    /// Reads a command from the word that names it. Any other text is
    /// refused, also a command's word in another letter case.
    pub fn from_str(input: &str) -> (res: Result<SupportedCommand, ()>)
        ensures
            res == Self::parse(input@),
    {
        if same_text(input, "add") {
            Ok(SupportedCommand::Add)
        } else if same_text(input, "list") {
            Ok(SupportedCommand::List)
        } else if same_text(input, "update") {
            Ok(SupportedCommand::Update)
        } else if same_text(input, "delete") {
            Ok(SupportedCommand::Delete)
        } else if same_text(input, "help") {
            Ok(SupportedCommand::Help)
        } else if same_text(input, "exit") {
            Ok(SupportedCommand::Exit)
        } else {
            Err(())
        }
    }
}

} // verus!
