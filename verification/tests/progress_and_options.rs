//! The progress reporter, filename patterns, and option resolution.

use dirscan::cli::{assemble, configure, resolve, CliArgs};
use dirscan::pattern::{hidden_name, pattern_selects, FilePattern};
use dirscan::progress::{
    compose_status, compose_summary, decimal, ProgressReporter, ProgressUpdate, ReporterAction,
    ReporterFault,
};
use std::path::PathBuf;

fn args() -> CliArgs {
    CliArgs {
        path: PathBuf::from("/srv"),
        json: false,
        quiet: false,
        verbose: false,
        threads: None,
        no_hidden: false,
        follow_symlinks: false,
        timeout: None,
        pattern: None,
    }
}

#[test]
fn new_reporter_has_seen_nothing() {
    let reporter = ProgressReporter::new();
    assert_eq!(reporter.total_items(), 0);
    assert_eq!(reporter.total_bytes(), 0);
    assert!(!reporter.is_finished());
}

#[test]
fn reporter_counts_items_and_bytes() {
    let mut reporter = ProgressReporter::new();
    assert_eq!(
        reporter.observe(ProgressUpdate::NewItemFound),
        Ok(ReporterAction::Show { position: Some(1), items: 1, bytes: 0, errors: false })
    );
    assert_eq!(
        reporter.observe(ProgressUpdate::BytesProcessed(2048)),
        Ok(ReporterAction::Show { position: None, items: 1, bytes: 2048, errors: false })
    );
    assert_eq!(
        reporter.observe(ProgressUpdate::NewItemFound),
        Ok(ReporterAction::Show { position: Some(2), items: 2, bytes: 2048, errors: false })
    );
    assert_eq!(
        reporter.observe(ProgressUpdate::BytesProcessed(2)),
        Ok(ReporterAction::Show { position: None, items: 2, bytes: 2050, errors: false })
    );
    assert_eq!(reporter.total_items(), 2);
    assert_eq!(reporter.total_bytes(), 2050);
}

#[test]
fn error_event_shows_the_indicator_and_moves_no_total() {
    let mut reporter = ProgressReporter::new();
    reporter.observe(ProgressUpdate::NewItemFound).unwrap();
    reporter.observe(ProgressUpdate::BytesProcessed(5)).unwrap();
    assert_eq!(
        reporter.observe(ProgressUpdate::ErrorEncountered),
        Ok(ReporterAction::Show { position: None, items: 1, bytes: 5, errors: true })
    );
    assert_eq!(reporter.total_items(), 1);
    assert_eq!(reporter.total_bytes(), 5);
    assert_eq!(
        reporter.observe(ProgressUpdate::NewItemFound),
        Ok(ReporterAction::Show { position: Some(2), items: 2, bytes: 5, errors: false })
    );
}

#[test]
fn completion_stops_the_reporter() {
    let mut reporter = ProgressReporter::new();
    reporter.observe(ProgressUpdate::NewItemFound).unwrap();
    reporter.observe(ProgressUpdate::BytesProcessed(35)).unwrap();
    assert_eq!(
        reporter.observe(ProgressUpdate::ScanCompleted),
        Ok(ReporterAction::Finish { items: 1, bytes: 35 })
    );
    assert!(reporter.is_finished());
    assert_eq!(reporter.observe(ProgressUpdate::NewItemFound), Err(ReporterFault::Closed));
    assert_eq!(reporter.observe(ProgressUpdate::ScanCompleted), Err(ReporterFault::Closed));
    assert_eq!(reporter.total_items(), 1);
}

#[test]
fn closed_channel_finishes_with_what_was_seen() {
    let mut reporter = ProgressReporter::new();
    reporter.observe(ProgressUpdate::NewItemFound).unwrap();
    assert_eq!(reporter.close(), ReporterAction::Finish { items: 1, bytes: 0 });
    assert!(reporter.is_finished());
}

#[test]
fn byte_total_that_does_not_fit_is_refused() {
    let mut reporter = ProgressReporter::new();
    reporter.observe(ProgressUpdate::BytesProcessed(u64::MAX)).unwrap();
    assert_eq!(
        reporter.observe(ProgressUpdate::BytesProcessed(1)),
        Err(ReporterFault::CounterOverflow)
    );
    assert_eq!(reporter.total_bytes(), u64::MAX);
    assert!(!reporter.is_finished());
    assert_eq!(
        reporter.observe(ProgressUpdate::BytesProcessed(0)),
        Ok(ReporterAction::Show { position: None, items: 0, bytes: u64::MAX, errors: false })
    );
}

#[test]
fn reporter_total_equals_the_stream_total() {
    let stream = vec![
        ProgressUpdate::NewItemFound,
        ProgressUpdate::NewItemFound,
        ProgressUpdate::BytesProcessed(10),
        ProgressUpdate::ErrorEncountered,
        ProgressUpdate::NewItemFound,
        ProgressUpdate::BytesProcessed(20),
        ProgressUpdate::NewItemFound,
        ProgressUpdate::BytesProcessed(5),
    ];
    let mut reporter = ProgressReporter::new();
    for update in &stream {
        reporter.observe(*update).unwrap();
    }
    assert_eq!(reporter.total_items(), 4);
    assert_eq!(reporter.total_bytes(), 35);
}

#[test]
fn names_starting_with_a_dot_are_hidden_except_dot_and_dot_dot() {
    assert!(hidden_name(".git"));
    assert!(hidden_name(".a"));
    assert!(hidden_name("..."));
    assert!(hidden_name("..a"));
    assert!(hidden_name(".é"));
    assert!(!hidden_name("."));
    assert!(!hidden_name(".."));
    assert!(!hidden_name(""));
    assert!(!hidden_name("git"));
    assert!(!hidden_name("a.git"));
}

#[test]
fn pattern_is_compiled_or_handed_back() {
    let pattern = FilePattern::parse(r"^report_\d+").unwrap();
    assert_eq!(pattern.as_str(), r"^report_\d+");
    let rejected = FilePattern::parse("foo(bar").unwrap_err();
    assert_eq!(rejected.pattern, "foo(bar");
    assert!(!rejected.cause.to_string().is_empty());
}

#[test]
fn pattern_selects_by_matching_anywhere_in_the_name() {
    let pattern = Some(FilePattern::parse(r"\d{4}").unwrap());
    assert!(pattern_selects(&pattern, &Some("report_2024.txt".to_string())));
    assert!(!pattern_selects(&pattern, &Some("report_24.txt".to_string())));
    assert!(!pattern_selects(&pattern, &Some(r"\d{4}".to_string())));
    assert!(!pattern_selects(&pattern, &None));
    assert!(!pattern_selects(&None, &Some("report_2024.txt".to_string())));
    let anchored = Some(FilePattern::parse(r"^report_2024\.txt$").unwrap());
    assert!(pattern_selects(&anchored, &Some("report_2024.txt".to_string())));
    assert!(!pattern_selects(&anchored, &Some("old_report_2024.txt".to_string())));
}

#[test]
fn options_resolve_to_the_configuration() {
    let mut given = args();
    given.no_hidden = true;
    given.follow_symlinks = true;
    given.verbose = true;
    given.pattern = Some(r"\.rs$".to_string());
    let resolution = configure(given, 8).unwrap();
    let config = resolution.config;
    assert_eq!(config.target_path, PathBuf::from("/srv"));
    assert_eq!(config.max_concurrent_tasks, 16);
    assert!(config.follow_symlinks);
    assert!(!config.include_hidden);
    assert!(config.progress_updates);
    assert!(config.verbose);
    assert_eq!(config.file_pattern.unwrap().as_str(), r"\.rs$");
    assert!(resolution.rejected.is_none());
}

#[test]
fn given_task_limit_wins_over_the_default() {
    let mut given = args();
    given.threads = Some(3);
    assert_eq!(configure(given, 8).unwrap().config.max_concurrent_tasks, 3);
    assert_eq!(configure(args(), 1).unwrap().config.max_concurrent_tasks, 2);
    assert_eq!(configure(args(), 0).unwrap().config.max_concurrent_tasks, 0);
}

#[test]
fn default_task_limit_that_does_not_fit_gives_no_configuration() {
    assert!(configure(args(), usize::MAX).is_none());
    assert!(configure(args(), usize::MAX / 2 + 1).is_none());
    let mut given = args();
    given.threads = Some(3);
    assert!(configure(given, usize::MAX).is_none());
    assert_eq!(
        configure(args(), usize::MAX / 2).unwrap().config.max_concurrent_tasks,
        usize::MAX - 1
    );
}

#[test]
fn quiet_or_json_turns_progress_off() {
    let mut given = args();
    given.quiet = true;
    assert!(!configure(given, 2).unwrap().config.progress_updates);
    let mut given = args();
    given.json = true;
    assert!(!configure(given, 2).unwrap().config.progress_updates);
    let mut given = args();
    given.json = true;
    given.quiet = true;
    assert!(!configure(given, 2).unwrap().config.progress_updates);
    assert!(configure(args(), 2).unwrap().config.progress_updates);
}

#[test]
fn pattern_that_does_not_compile_is_dropped_and_reported() {
    let mut given = args();
    given.pattern = Some("foo(bar".to_string());
    let resolution = configure(given, 2).unwrap();
    assert!(resolution.config.file_pattern.is_none());
    assert_eq!(resolution.rejected.unwrap().pattern, "foo(bar");
}

#[test]
fn assembling_takes_the_compiled_pattern_as_it_is() {
    let compiled = Some(FilePattern::parse("abc"));
    let resolution = assemble(args(), 5, compiled);
    assert_eq!(resolution.config.max_concurrent_tasks, 5);
    assert_eq!(resolution.config.file_pattern.unwrap().as_str(), "abc");
    assert!(resolution.rejected.is_none());
    let resolution = assemble(args(), 5, Some(FilePattern::parse("(")));
    assert!(resolution.config.file_pattern.is_none());
    assert_eq!(resolution.rejected.unwrap().pattern, "(");
    let resolution = assemble(args(), 5, None);
    assert!(resolution.config.file_pattern.is_none());
    assert!(resolution.rejected.is_none());
    assert!(resolution.config.include_hidden);
}

#[test]
fn resolving_on_this_machine_uses_two_tasks_per_cpu() {
    let resolution = resolve(args()).unwrap();
    assert_eq!(resolution.config.max_concurrent_tasks % 2, 0);
    assert!(resolution.config.max_concurrent_tasks >= 2);
    let mut given = args();
    given.threads = Some(7);
    assert_eq!(resolve(given).unwrap().config.max_concurrent_tasks, 7);
}

#[test]
fn numbers_are_written_in_decimal() {
    assert_eq!(decimal(0), "0");
    assert_eq!(decimal(7), "7");
    assert_eq!(decimal(10), "10");
    assert_eq!(decimal(35), "35");
    assert_eq!(decimal(1_002_003), "1002003");
    assert_eq!(decimal(u64::MAX), "18446744073709551615");
}

#[test]
fn status_line_names_items_and_size() {
    assert_eq!(compose_status(3, "35 B", false), "Scanning... Items: 3, Size: 35 B");
    assert_eq!(
        compose_status(12, "1.50 KiB", true),
        "Scanning... Items: 12, Size: 1.50 KiB (errors encountered)"
    );
    assert_eq!(
        compose_summary(4, "2.00 MiB"),
        "Scan finished! Total Items: 4, Total Size: 2.00 MiB"
    );
}

#[test]
fn messages_show_sizes_in_binary_units() {
    let show = ReporterAction::Show { position: Some(2), items: 2, bytes: 35, errors: false };
    assert_eq!(show.message(), "Scanning... Items: 2, Size: 35 B");
    let show = ReporterAction::Show { position: None, items: 2, bytes: 1536, errors: true };
    assert_eq!(show.message(), "Scanning... Items: 2, Size: 1.50 KiB (errors encountered)");
    let finish = ReporterAction::Finish { items: 9, bytes: 3 * 1024 * 1024 };
    assert_eq!(finish.message(), "Scan finished! Total Items: 9, Total Size: 3.00 MiB");
}
