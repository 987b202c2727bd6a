use to_do_app::command::SupportedCommand;
use to_do_app::configuration::Configuration;
use to_do_app::supported_persistence::SupportedPersistence;
use to_do_app::task_status::TaskStatus;
use to_do_app::text::{parse_usize, same_text, usize_to_text};

#[test]
fn status_display_texts() {
    assert_eq!(TaskStatus::NotStarted.to_string(), "Not Started");
    assert_eq!(TaskStatus::InProgress.to_string(), "In Progress");
    assert_eq!(TaskStatus::Completed.to_string(), "Completed");
}

#[test]
fn status_parses_in_any_case_and_trimmed() {
    assert_eq!(TaskStatus::from_str("completed"), Ok(TaskStatus::Completed));
    assert_eq!(TaskStatus::from_str("Completed"), Ok(TaskStatus::Completed));
    assert_eq!(TaskStatus::from_str("  Completed  "), Ok(TaskStatus::Completed));
    assert_eq!(TaskStatus::from_str("done"), Err(()));
    assert_eq!(TaskStatus::from_str("NOT STARTED"), Ok(TaskStatus::NotStarted));
    assert_eq!(TaskStatus::from_str("\tin progress\n"), Ok(TaskStatus::InProgress));
    assert_eq!(TaskStatus::from_str(""), Err(()));
    assert_eq!(TaskStatus::from_str("notstarted"), Err(()));
    assert_eq!(TaskStatus::from_str("in  progress"), Err(()));
}

const WHITE_SPACE: [(u32, u32); 11] = [
    (0x0009, 0x000D),
    (0x0020, 0x0020),
    (0x0085, 0x0085),
    (0x00A0, 0x00A0),
    (0x1680, 0x1680),
    (0x2000, 0x200A),
    (0x2028, 0x2028),
    (0x2029, 0x2029),
    (0x202F, 0x202F),
    (0x205F, 0x205F),
    (0x3000, 0x3000),
];

fn is_listed_white_space(c: char) -> bool {
    let n = c as u32;
    WHITE_SPACE.iter().any(|(first, last)| *first <= n && n <= *last)
}

#[test]
fn whitespace_around_a_status_is_what_the_list_says() {
    for n in 0..=0x10FFFFu32 {
        if let Some(c) = char::from_u32(n) {
            assert_eq!(c.is_whitespace(), is_listed_white_space(c), "U+{:04X}", n);
            if n < 0x3100 || n % 257 == 0 {
                let text = format!("{}completed{}", c, c);
                let read = TaskStatus::from_str(&text);
                assert_eq!(read.is_ok(), is_listed_white_space(c), "U+{:04X}", n);
            }
        }
    }
}

#[test]
fn whitespace_inside_a_status_stays() {
    assert_eq!(
        TaskStatus::from_str(" \t\u{3000}in progress\u{2028}\r\n"),
        Ok(TaskStatus::InProgress)
    );
    assert_eq!(TaskStatus::from_str("in\tprogress"), Err(()));
    assert_eq!(TaskStatus::from_str("in progress\u{200B}"), Err(()));
    assert_eq!(TaskStatus::from_str("\u{180E}in progress"), Err(()));
    assert_eq!(TaskStatus::from_str(" \n "), Err(()));
}

#[test]
fn status_reads_its_own_display_text() {
    for status in [TaskStatus::NotStarted, TaskStatus::InProgress, TaskStatus::Completed] {
        assert_eq!(TaskStatus::from_str(&status.to_string()), Ok(status.clone()));
    }
}

#[test]
fn status_from_normalized_is_exact() {
    assert_eq!(TaskStatus::from_normalized("completed"), Ok(TaskStatus::Completed));
    assert_eq!(TaskStatus::from_normalized("in progress"), Ok(TaskStatus::InProgress));
    assert_eq!(TaskStatus::from_normalized("not started"), Ok(TaskStatus::NotStarted));
    assert_eq!(TaskStatus::from_normalized("Completed"), Err(()));
    assert_eq!(TaskStatus::from_normalized(" completed"), Err(()));
}

#[test]
fn command_words() {
    let all = [
        (SupportedCommand::Add, "add"),
        (SupportedCommand::List, "list"),
        (SupportedCommand::Update, "update"),
        (SupportedCommand::Delete, "delete"),
        (SupportedCommand::Help, "help"),
        (SupportedCommand::Exit, "exit"),
    ];
    for (command, word) in all {
        assert_eq!(command.to_string(), word);
        assert_eq!(SupportedCommand::from_str(word), Ok(command));
    }
}

#[test]
fn command_is_read_as_it_stands() {
    assert_eq!(SupportedCommand::from_str("Add"), Err(()));
    assert_eq!(SupportedCommand::from_str(" add"), Err(()));
    assert_eq!(SupportedCommand::from_str(""), Err(()));
    assert_eq!(SupportedCommand::from_str("quit"), Err(()));
}

#[test]
fn persistence_names() {
    assert_eq!(SupportedPersistence::CSV.to_string(), "CSV");
    assert_eq!(SupportedPersistence::Postgres.to_string(), "Postgres");
    assert_eq!(SupportedPersistence::from_str("csv"), Ok(SupportedPersistence::CSV));
    assert_eq!(SupportedPersistence::from_str("CSV"), Ok(SupportedPersistence::CSV));
    assert_eq!(SupportedPersistence::from_str("Postgres"), Ok(SupportedPersistence::Postgres));
    assert_eq!(SupportedPersistence::from_str("POSTGRES"), Ok(SupportedPersistence::Postgres));
    assert_eq!(SupportedPersistence::from_str(" csv"), Err(()));
    assert_eq!(SupportedPersistence::from_str("sqlite"), Err(()));
    assert_eq!(SupportedPersistence::from_normalized("CSV"), Err(()));
    assert_eq!(SupportedPersistence::from_normalized("csv"), Ok(SupportedPersistence::CSV));
}

#[test]
fn configuration_new_keeps_its_arguments() {
    let configuration = Configuration::new(SupportedPersistence::Postgres, 12);
    assert_eq!(configuration.persistence, SupportedPersistence::Postgres);
    assert_eq!(configuration.task_counter, 12);
}

#[test]
fn configuration_found_is_kept() {
    let found = Configuration::new(SupportedPersistence::Postgres, 4);
    assert_eq!(Configuration::load_or_create_configuration(Some(found)), (found, false));
}

#[test]
fn configuration_of_a_first_run() {
    let (configuration, created) = Configuration::load_or_create_configuration(None);
    assert!(created);
    assert_eq!(configuration.persistence, SupportedPersistence::CSV);
    assert_eq!(configuration.task_counter, 0);
}

#[test]
fn same_text_compares_characters() {
    assert!(same_text("", ""));
    assert!(same_text("due date", "due date"));
    assert!(!same_text("due date", "due  date"));
    assert!(!same_text("a", "A"));
    assert!(!same_text("a", "ab"));
}

#[test]
fn decimal_text_is_what_std_writes() {
    let numbers = [0usize, 1, 9, 10, 11, 99, 100, 101, 12345, 1000000, usize::MAX - 1, usize::MAX];
    for n in numbers {
        assert_eq!(usize_to_text(n), n.to_string());
    }
    assert_eq!(usize_to_text(0), "0");
    assert_eq!(usize_to_text(4070), "4070");
}

#[test]
fn decimal_text_is_read_as_std_reads_it() {
    let max = usize::MAX.to_string();
    let over = format!("{}0", max);
    let plus_max = format!("+{}", max);
    let mut next = max.clone().into_bytes();
    let last = next.len() - 1;
    next[last] += 1;
    let next = String::from_utf8(next).unwrap();
    let texts = [
        "0", "7", "42", "007", "+5", "+0", "++5", "+", "", "-1", "-0", " 1", "1 ", "1_000", "12a",
        "a12", "1.5", "0x10", "\u{0661}", "\u{ff11}", "18446744073709551615",
        "18446744073709551616", "99999999999999999999999", max.as_str(), over.as_str(),
        plus_max.as_str(), next.as_str(),
    ];
    for text in texts {
        assert_eq!(parse_usize(text), text.parse::<usize>().ok(), "reading {:?}", text);
    }
    assert_eq!(parse_usize("42"), Some(42));
    assert_eq!(parse_usize("+42"), Some(42));
    assert_eq!(parse_usize("0042"), Some(42));
    assert_eq!(parse_usize("-42"), None);
    assert_eq!(parse_usize(""), None);
    assert_eq!(parse_usize(&over), None);
}

#[test]
fn decimal_text_reads_back() {
    for n in [0usize, 5, 10, 99, 100, 65535, usize::MAX] {
        assert_eq!(parse_usize(&usize_to_text(n)), Some(n));
    }
}
