// Targets and the registry: counting, conditional summaries, name
// uniqueness, and routing of inbound leveled records.

use std::cell::Cell;

use prologue_logger::error::ErrorKind;
use prologue_logger::{Entry, LogLevel, MultiEntry, PrologueLogger, Target, TargetList, Task};

#[test]
fn entries_update_the_matching_counter() {
    let mut target = Target::new("my-target".to_string());
    Entry::new_warning("some warning".to_string()).log_to_target(&mut target);
    Entry::new_warning("some other warning".to_string()).log_to_target(&mut target);
    Entry::new_error("something went wrong".to_string()).log_to_target(&mut target);
    Entry::new_note("a note".to_string()).log_to_target(&mut target);
    Entry::new_help("a help".to_string()).log_to_target(&mut target);
    assert_eq!(target.warning_count(), 2);
    assert_eq!(target.error_count(), 1);
    assert_eq!(target.name(), "my-target");
}

#[test]
fn interleaving_does_not_change_totals() {
    // The same submissions in two different orders: same final counters.
    let mut first = Target::new("a".to_string());
    let mut second = Target::new("b".to_string());
    for kind in ["w", "e", "w", "n", "e", "w"] {
        match kind {
            "w" => {
                Entry::new_warning("w".to_string()).log_to_target(&mut first);
            }
            "e" => {
                Entry::new_error("e".to_string()).log_to_target(&mut first);
            }
            _ => {
                Entry::new_note("n".to_string()).log_to_target(&mut first);
            }
        }
    }
    for kind in ["e", "w", "n", "w", "w", "e"] {
        match kind {
            "w" => {
                Entry::new_warning("w".to_string()).log_to_target(&mut second);
            }
            "e" => {
                Entry::new_error("e".to_string()).log_to_target(&mut second);
            }
            _ => {
                Entry::new_note("n".to_string()).log_to_target(&mut second);
            }
        }
    }
    assert_eq!(first.warning_count(), 3);
    assert_eq!(first.error_count(), 2);
    assert_eq!(second.warning_count(), first.warning_count());
    assert_eq!(second.error_count(), first.error_count());
}

#[test]
fn group_counts_once_by_worst_severity() {
    let mut target = Target::new("t".to_string());
    let group = MultiEntry::new()
        .entry(Entry::new_warning("first".to_string()))
        .entry(Entry::new_error("second".to_string()))
        .entry(Entry::new_note("third".to_string()));
    assert_eq!(group.worst_severity(), prologue_logger::EntryKind::Error);
    group.log_to_target(&mut target);
    assert_eq!(target.error_count(), 1);
    assert_eq!(target.warning_count(), 0);

    let group = MultiEntry::new()
        .entry(Entry::new_note("a".to_string()))
        .entry(Entry::new_warning("b".to_string()));
    group.log_to_target(&mut target);
    assert_eq!(target.error_count(), 1);
    assert_eq!(target.warning_count(), 1);

    let empty = MultiEntry::new();
    assert_eq!(empty.worst_severity(), prologue_logger::EntryKind::Help);
}

#[test]
fn conditional_summaries_fire_only_when_counted() {
    let mut target = Target::new("t".to_string());
    Entry::new_warning("some warning".to_string()).log_to_target(&mut target);

    let error_calls = Cell::new(0usize);
    target
        .if_errors(|_count| {
            error_calls.set(error_calls.get() + 1);
            Ok(())
        })
        .unwrap();
    assert_eq!(error_calls.get(), 0);

    let warning_calls = Cell::new(0usize);
    let seen = Cell::new(0usize);
    target
        .if_warnings(|count| {
            warning_calls.set(warning_calls.get() + 1);
            seen.set(count);
            Ok(())
        })
        .unwrap();
    assert_eq!(warning_calls.get(), 1);
    assert_eq!(seen.get(), 1);
}

#[test]
fn summary_to_another_target_keeps_counts_authoritative() {
    let mut target = Target::new("my-target".to_string());
    let mut global = Target::new(String::new());
    Entry::new_warning("some warning".to_string()).log_to_target(&mut target);
    let pending = Cell::new(None);
    target
        .if_warnings(|count| {
            pending.set(Some(count));
            Ok(())
        })
        .unwrap();
    if let Some(count) = pending.get() {
        Entry::new_warning(format!("`my-target` generated {} warning", count))
            .log_to_target(&mut global);
    }
    assert_eq!(target.warning_count(), 1);
    assert_eq!(global.warning_count(), 1);
}

#[test]
fn duplicate_target_names_are_rejected() {
    let mut list = TargetList::new();
    list.create_target("my-target".to_string()).unwrap();
    let err = list.create_target("my-target".to_string()).unwrap_err();
    assert_eq!(err.message(), "target `my-target` already exists");
    match err.kind {
        ErrorKind::TargetAlreadyExists(name) => assert_eq!(name, "my-target"),
        _ => panic!("wrong error kind"),
    }
}

#[test]
fn add_target_enforces_uniqueness() {
    let mut list = TargetList::new();
    list.add_target(Target::new("a".to_string())).unwrap();
    list.add_target(Target::new("b".to_string())).unwrap();
    assert!(list.add_target(Target::new("a".to_string())).is_err());
    assert!(list.find("a").is_some());
    assert!(list.find("b").is_some());
    assert!(list.find("c").is_none());
}

#[test]
fn logger_facade_finds_and_creates_targets() {
    let mut logger = PrologueLogger::new();
    logger.create_target("target-first".to_string()).unwrap();
    logger.create_target("target-second".to_string()).unwrap();
    assert!(logger.find_target("target-first").is_some());
    assert!(logger.find_target("target-second").is_some());
    assert!(logger.find_target("target-third").is_none());
    assert!(logger.create_target("target-first".to_string()).is_err());
}

#[test]
fn records_route_by_name_and_level() {
    let mut list = TargetList::new();
    let idx = list.create_target("example".to_string()).unwrap();
    assert!(list.log_record("example", LogLevel::Warn));
    assert!(list.log_record("example", LogLevel::Error));
    assert!(list.log_record("example", LogLevel::Info));
    assert!(list.log_record("example", LogLevel::Debug));
    assert!(list.log_record("example", LogLevel::Trace));
    // A record for an unknown target is dropped.
    assert!(!list.log_record("unknown", LogLevel::Error));
    let target = list.get(idx);
    assert_eq!(target.warning_count(), 1);
    assert_eq!(target.error_count(), 1);
}

#[test]
fn task_logging_does_not_count() {
    let mut target = Target::new("t".to_string());
    let text = Task::new("Doing".to_string(), "some work".to_string()).log_to_target(&target);
    assert_eq!(text, "       Doing some work\n");
    Entry::new_note("note".to_string()).log_to_target(&mut target);
    assert_eq!(target.warning_count(), 0);
    assert_eq!(target.error_count(), 0);
}

#[test]
fn logger_routes_entries_by_target_name() {
    let mut logger = PrologueLogger::new();
    let idx = logger.create_target("example".to_string()).unwrap();
    let text = Entry::new_warning("careful".to_string())
        .log_to_prologue_logger("example", &mut logger);
    assert_eq!(text.as_deref(), Some("warning: careful\n"));
    // An entry for an unknown target is dropped.
    let text = Entry::new_error("lost".to_string()).log_to_prologue_logger("missing", &mut logger);
    assert!(text.is_none());
    let target = logger.target_list().get(idx);
    assert_eq!(target.warning_count(), 1);
    assert_eq!(target.error_count(), 0);

    let group = MultiEntry::new().entry(Entry::new_error("bad".to_string()));
    let text = group.log_to_prologue_logger("example", &mut logger);
    assert!(text.is_some());
    assert_eq!(logger.target_list().get(idx).error_count(), 1);

    let text = Task::new("Doing".to_string(), "work".to_string())
        .log_to_prologue_logger("example", &logger);
    assert_eq!(text.as_deref(), Some("       Doing work\n"));
    let text = Task::new("Doing".to_string(), "work".to_string())
        .log_to_prologue_logger("missing", &logger);
    assert!(text.is_none());
}

#[test]
fn well_formedness_is_decidable() {
    let entry = Entry::new_warning("w".to_string())
        .source(1, 1)
        .new_line(1, "abc".to_string())
        .annotate_warn(1, 2, String::new())
        .unwrap()
        .finish();
    assert!(entry.is_wf());
    let group = MultiEntry::new().entry(entry);
    assert!(group.is_wf());
}

#[test]
fn submission_returns_the_rendered_text() {
    let mut target = Target::new("t".to_string());
    let text = Entry::new_warning("this is a warning".to_string()).log_to_target(&mut target);
    assert_eq!(text, "warning: this is a warning\n");
}
