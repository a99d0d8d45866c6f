use merge_ui::controller::{App, ClipboardOutcome, ReloadOutcome, TokenTotals};
use merge_ui::layout::Rect;
use merge_ui::panel::{FocusedPanel, Key, OutputDestination};
use merge_ui::status::{SourceFile, TokenStatus};

const PANELS: [FocusedPanel; 5] = [
    FocusedPanel::SourcePath,
    FocusedPanel::Filters,
    FocusedPanel::SourceFiles,
    FocusedPanel::Output,
    FocusedPanel::OutputFile,
];

const DESTS: [OutputDestination; 3] = [
    OutputDestination::File,
    OutputDestination::Clipboard,
    OutputDestination::FileAndClipboard,
];

fn chars(s: &str) -> Vec<char> {
    s.chars().collect()
}

fn file(p: &str) -> SourceFile {
    SourceFile { path: p.to_string() }
}

fn app_with(paths: &[&str]) -> App {
    let mut app = App::new(chars("src"), chars("out.txt"));
    app.processing = true;
    app.reload_files_immediate(ReloadOutcome::Listed(paths.iter().map(|p| file(p)).collect()));
    app
}

fn app_with_dest(d: OutputDestination) -> App {
    let mut app = App::new(chars("src"), chars("out.txt"));
    app.destination = d;
    app
}

fn is_counting(s: &TokenStatus) -> bool {
    matches!(s, TokenStatus::Counting)
}

#[test]
fn next_and_prev_are_inverse() {
    for d in DESTS {
        let app = app_with_dest(d);
        for p in PANELS {
            if p == FocusedPanel::OutputFile && d == OutputDestination::Clipboard {
                continue;
            }
            assert_eq!(p.next_panel(&app).prev_panel(&app), p);
            assert_eq!(p.prev_panel(&app).next_panel(&app), p);
        }
    }
}

#[test]
fn clipboard_only_skips_output_file() {
    let app = app_with_dest(OutputDestination::Clipboard);
    assert_eq!(FocusedPanel::Output.next_panel(&app), FocusedPanel::SourcePath);
    assert_eq!(FocusedPanel::SourcePath.prev_panel(&app), FocusedPanel::Output);
    assert_eq!(FocusedPanel::OutputFile.prev_panel(&app), FocusedPanel::Output);
    let app = app_with_dest(OutputDestination::File);
    assert_eq!(FocusedPanel::Output.next_panel(&app), FocusedPanel::OutputFile);
    assert_eq!(FocusedPanel::SourcePath.prev_panel(&app), FocusedPanel::OutputFile);
}

#[test]
fn dispatch_twice_starts_one_job() {
    let mut app = app_with(&["a.txt"]);
    app.selected_files[0] = true;
    let first = app.start_token_count_for_selected_files();
    assert_eq!(first.len(), 1);
    assert_eq!(first[0].path, "a.txt");
    assert!(is_counting(&app.token_status[0]));
    let second = app.start_token_count_for_selected_files();
    assert!(second.is_empty());
    assert!(is_counting(&app.token_status[0]));
}

#[test]
fn dispatch_without_source_starts_nothing() {
    let mut app = app_with(&["a.txt"]);
    app.selected_files[0] = true;
    app.has_text_source = false;
    assert!(app.start_token_count_for_selected_files().is_empty());
    assert!(matches!(app.token_status[0], TokenStatus::NotCounted));
}

#[test]
fn dispatch_skips_unselected_files() {
    let mut app = app_with(&["a.txt", "b.txt", "c.txt"]);
    app.selected_files[0] = true;
    app.selected_files[2] = true;
    let jobs = app.start_token_count_for_selected_files();
    let paths: Vec<&str> = jobs.iter().map(|f| f.path.as_str()).collect();
    assert_eq!(paths, vec!["a.txt", "c.txt"]);
    assert!(matches!(app.token_status[1], TokenStatus::NotCounted));
}

#[test]
fn draining_nothing_changes_nothing() {
    let mut app = app_with(&["a.txt", "b.txt"]);
    app.selected_files = vec![true, true];
    app.start_token_count_for_selected_files();
    app.process_token_count_results(vec![("a.txt".to_string(), Ok(5))]);
    let before = app.process_token_count_results(Vec::new());
    let after = app.process_token_count_results(Vec::new());
    assert_eq!(before, after);
    assert_eq!(after, TokenTotals { sum: 5, pending: 1, failed: 0 });
    assert!(matches!(app.token_status[0], TokenStatus::Counted(5)));
    assert!(is_counting(&app.token_status[1]));
}

#[test]
fn stale_message_is_dropped() {
    let mut app = app_with(&["a.txt"]);
    app.selected_files[0] = true;
    app.start_token_count_for_selected_files();
    let totals = app.process_token_count_results(vec![("gone.txt".to_string(), Ok(9))]);
    assert_eq!(totals, TokenTotals { sum: 0, pending: 1, failed: 0 });
    assert!(is_counting(&app.token_status[0]));
}

#[test]
fn result_for_file_not_counting_is_ignored() {
    let mut app = app_with(&["a.txt"]);
    app.selected_files[0] = true;
    let totals = app.process_token_count_results(vec![("a.txt".to_string(), Ok(4))]);
    assert_eq!(totals.sum, 0);
    assert!(matches!(app.token_status[0], TokenStatus::NotCounted));
}

#[test]
fn counted_status_is_not_overwritten() {
    let mut app = app_with(&["a.txt"]);
    app.selected_files[0] = true;
    app.start_token_count_for_selected_files();
    app.process_token_count_results(vec![
        ("a.txt".to_string(), Ok(4)),
        ("a.txt".to_string(), Err("late".to_string())),
    ]);
    assert!(matches!(app.token_status[0], TokenStatus::Counted(4)));
}

#[test]
fn sum_covers_selected_counted_files_only() {
    let mut app = app_with(&["a.txt", "b.txt", "c.txt", "d.txt"]);
    app.selected_files = vec![true, true, true, true];
    app.start_token_count_for_selected_files();
    app.selected_files[2] = false;
    let totals = app.process_token_count_results(vec![
        ("c.txt".to_string(), Ok(100)),
        ("b.txt".to_string(), Err("unreadable".to_string())),
        ("a.txt".to_string(), Ok(7)),
    ]);
    assert_eq!(totals, TokenTotals { sum: 7, pending: 1, failed: 1 });
    assert!(matches!(&app.token_status[1], TokenStatus::Failed(m) if m == "unreadable"));
}

#[test]
fn sum_is_independent_of_arrival_order() {
    let orders = [
        vec![("a.txt", 2usize), ("b.txt", 1), ("c.txt", 10)],
        vec![("c.txt", 10), ("a.txt", 2), ("b.txt", 1)],
        vec![("b.txt", 1), ("c.txt", 10), ("a.txt", 2)],
    ];
    for order in orders {
        let mut app = app_with(&["a.txt", "b.txt", "c.txt"]);
        app.selected_files = vec![true, true, true];
        app.start_token_count_for_selected_files();
        let msgs = order.iter().map(|(p, n)| (p.to_string(), Ok(*n))).collect();
        assert_eq!(app.process_token_count_results(msgs).sum, 13);
    }
}

#[test]
fn end_to_end_out_of_order_sum() {
    let mut app = app_with(&["a.txt", "b.txt"]);
    app.focused_panel = FocusedPanel::SourceFiles;
    app.files_cursor = 0;
    app.update(Key::Char(' '));
    app.update(Key::Down);
    app.update(Key::Char(' '));
    assert_eq!(app.selected_files, vec![true, true]);
    let jobs = app.update(Key::Enter);
    assert_eq!(jobs.len(), 2);
    assert_eq!(app.focused_panel, FocusedPanel::Output);
    let t = app.process_token_count_results(vec![("b.txt".to_string(), Ok(1))]);
    assert_eq!(t, TokenTotals { sum: 1, pending: 1, failed: 0 });
    let t = app.process_token_count_results(vec![("a.txt".to_string(), Ok(2))]);
    assert_eq!(t, TokenTotals { sum: 3, pending: 0, failed: 0 });
}

#[test]
fn reload_with_unreachable_source() {
    let mut app = app_with(&["a.txt", "b.rs"]);
    app.selected_files = vec![true, true];
    app.selected_extensions = vec![true, false];
    app.processing = true;
    app.reload_files_needed = true;
    app.reload_files_immediate(ReloadOutcome::SourceUnavailable);
    assert!(app.loaded_files.is_empty());
    assert!(app.selected_files.is_empty());
    assert!(app.extensions.is_empty());
    assert!(app.selected_extensions.is_empty());
    assert!(app.token_status.is_empty());
    assert!(!app.has_text_source);
    assert!(!app.processing);
    assert!(!app.reload_files_needed);
}

#[test]
fn reload_with_failed_index_keeps_source() {
    let mut app = app_with(&["a.txt"]);
    app.reload_files_immediate(ReloadOutcome::IndexFailed);
    assert!(app.loaded_files.is_empty());
    assert!(app.has_text_source);
    assert!(!app.processing);
}

#[test]
fn reload_keeps_surviving_selection_and_resets_counts() {
    let mut app = app_with(&["a.txt", "b.txt", "c.rs"]);
    app.selected_files = vec![true, false, true];
    app.selected_extensions = vec![false, true];
    app.start_token_count_for_selected_files();
    app.reload_files_immediate(ReloadOutcome::Listed(vec![
        file("c.rs"),
        file("d.md"),
        file("a.txt"),
        file("c.rs"),
    ]));
    let paths: Vec<&str> = app.loaded_files.iter().map(|f| f.path.as_str()).collect();
    assert_eq!(paths, vec!["c.rs", "d.md", "a.txt"]);
    assert_eq!(app.selected_files, vec![true, false, true]);
    assert!(app.token_status.iter().all(|s| matches!(s, TokenStatus::NotCounted)));
    assert_eq!(app.extensions, vec!["rs".to_string(), "md".to_string(), "txt".to_string()]);
    assert_eq!(app.selected_extensions, vec![true, false, false]);
}

#[test]
fn extensions_of_paths() {
    let app = app_with(&["dir/a.tar.gz", "Makefile", "b.gz", ".hidden"]);
    assert_eq!(app.extensions, vec!["gz".to_string(), String::new()]);
}

#[test]
fn space_in_filters_toggles_files_of_extension() {
    let mut app = app_with(&["a.txt", "b.rs", "c.txt"]);
    app.focused_panel = FocusedPanel::Filters;
    app.filters_cursor = 0;
    app.update(Key::Char(' '));
    assert_eq!(app.selected_extensions, vec![true, false]);
    assert_eq!(app.selected_files, vec![true, false, true]);
    app.update(Key::Char(' '));
    assert_eq!(app.selected_extensions, vec![false, false]);
    assert_eq!(app.selected_files, vec![false, false, false]);
}

#[test]
fn merge_request_holds_selected_files() {
    let mut app = app_with(&["a.txt", "b.txt", "c.txt"]);
    app.selected_files = vec![false, true, true];
    app.merge_needed = true;
    app.destination = OutputDestination::FileAndClipboard;
    let req = app.merge_immediate();
    assert!(!app.merge_needed);
    let paths: Vec<&str> = req.files.iter().map(|f| f.path.as_str()).collect();
    assert_eq!(paths, vec!["b.txt", "c.txt"]);
    assert_eq!(req.destination, OutputDestination::FileAndClipboard);
    assert_eq!(req.output_path, chars("out.txt"));
}

#[test]
fn merge_clipboard_failure_keeps_write_success() {
    let mut app = app_with(&["a.txt"]);
    app.destination = OutputDestination::FileAndClipboard;
    app.processing = true;
    assert!(app.needs_clipboard_copy(true));
    let report = app.merge_finished(true, Some(false));
    assert!(report.written);
    assert_eq!(report.clipboard, ClipboardOutcome::Failed);
    assert!(!app.processing);
}

#[test]
fn merge_outcomes_by_destination() {
    let mut app = app_with(&["a.txt"]);
    app.destination = OutputDestination::FileAndClipboard;
    assert_eq!(app.merge_finished(true, Some(true)).clipboard, ClipboardOutcome::Copied);
    assert!(!app.needs_clipboard_copy(false));
    let r = app.merge_finished(false, None);
    assert!(!r.written);
    assert_eq!(r.clipboard, ClipboardOutcome::NotRequested);
    app.destination = OutputDestination::File;
    assert!(!app.needs_clipboard_copy(true));
    assert_eq!(app.merge_finished(true, None).clipboard, ClipboardOutcome::NotRequested);
}

#[test]
fn exit_keys() {
    let mut app = app_with(&[]);
    app.update(Key::F(10));
    assert!(app.exit_requested);
    let mut app = app_with(&[]);
    app.update(Key::Esc);
    assert!(app.exit_requested);
    let mut app = app_with(&[]);
    app.focused_panel = FocusedPanel::Filters;
    app.update(Key::Esc);
    assert!(!app.exit_requested);
    assert_eq!(app.focused_panel, FocusedPanel::SourcePath);
    assert_eq!(app.source_path_panel.cursor_pos, 3);
}

#[test]
fn reload_and_merge_requests_respect_processing() {
    let mut app = app_with(&[]);
    app.focused_panel = FocusedPanel::Filters;
    app.processing = true;
    app.update(Key::F(1));
    app.update(Key::F(2));
    assert!(!app.reload_files_needed && !app.merge_needed);
    app.processing = false;
    app.update(Key::F(1));
    app.update(Key::F(2));
    assert!(app.reload_files_needed && app.merge_needed);
}

#[test]
fn leaving_changed_source_path_asks_for_reload() {
    let mut app = app_with(&[]);
    app.update(Key::Enter);
    assert_eq!(app.focused_panel, FocusedPanel::Filters);
    assert!(!app.reload_files_needed);
    app.update(Key::Esc);
    app.update(Key::Char('2'));
    assert_eq!(app.source_path_panel.value, chars("src2"));
    assert!(!app.reload_files_needed);
    app.update(Key::Enter);
    assert!(app.reload_files_needed);
    assert_eq!(app.prev_source_path, chars("src2"));
}

#[test]
fn text_field_editing_and_clear() {
    let mut app = app_with(&[]);
    app.update(Key::Left);
    app.update(Key::Backspace);
    assert_eq!(app.source_path_panel.value, chars("sc"));
    assert_eq!(app.source_path_panel.cursor_pos, 1);
    app.update(Key::Home);
    app.update(Key::Char('x'));
    assert_eq!(app.source_path_panel.value, chars("xsc"));
    app.update(Key::Char(' '));
    assert_eq!(app.source_path_panel.value, chars("xsc"));
    app.update(Key::F(3));
    assert!(app.source_path_panel.value.is_empty());
    assert_eq!(app.source_path_panel.cursor_pos, 0);
}

#[test]
fn enter_in_output_panel() {
    let mut app = app_with(&[]);
    app.focused_panel = FocusedPanel::Output;
    app.output_file_panel.cursor_pos = 0;
    app.update(Key::Enter);
    assert_eq!(app.focused_panel, FocusedPanel::OutputFile);
    assert_eq!(app.output_file_panel.cursor_pos, 7);
    app.update(Key::Enter);
    assert!(app.merge_needed);
    let mut app = app_with(&[]);
    app.focused_panel = FocusedPanel::Output;
    app.update(Key::Right);
    assert_eq!(app.destination, OutputDestination::Clipboard);
    app.update(Key::Enter);
    assert_eq!(app.focused_panel, FocusedPanel::Output);
    assert!(app.merge_needed);
    app.update(Key::Left);
    app.update(Key::Left);
    assert_eq!(app.destination, OutputDestination::FileAndClipboard);
}

#[test]
fn list_cursor_stays_in_range() {
    let mut app = app_with(&["a.txt", "b.txt"]);
    app.focused_panel = FocusedPanel::SourceFiles;
    app.update(Key::Up);
    assert_eq!(app.files_cursor, 0);
    app.update(Key::Down);
    app.update(Key::Down);
    assert_eq!(app.files_cursor, 1);
}

#[test]
fn bottom_text_follows_focus() {
    let mut app = app_with(&[]);
    assert!(app.get_bottom_text().starts_with("enter - focus Filters"));
    app.focused_panel = FocusedPanel::Output;
    app.destination = OutputDestination::Clipboard;
    assert!(app.get_bottom_text().contains("enter/F2 - generate"));
    app.destination = OutputDestination::File;
    assert!(app.get_bottom_text().contains("enter - focus Output File"));
}

#[test]
fn centered_rect_in_area() {
    let app = app_with(&[]);
    let r = Rect { x: 10, y: 4, width: 80, height: 25 };
    assert_eq!(app.centered_rect(30, 5, r), Rect { x: 35, y: 14, width: 30, height: 5 });
    let small = Rect { x: 0, y: 0, width: 20, height: 3 };
    assert_eq!(app.centered_rect(30, 5, small), Rect { x: 0, y: 0, width: 20, height: 3 });
}

#[test]
fn selected_file_not_started_is_pending() {
    let mut app = app_with(&["a.txt", "b.txt"]);
    app.selected_files = vec![true, false];
    let totals = app.process_token_count_results(Vec::new());
    assert_eq!(totals, TokenTotals { sum: 0, pending: 1, failed: 0 });
    app.start_token_count_for_selected_files();
    let totals = app.process_token_count_results(Vec::new());
    assert_eq!(totals, TokenTotals { sum: 0, pending: 1, failed: 0 });
    let totals = app.process_token_count_results(vec![("a.txt".to_string(), Ok(3))]);
    assert_eq!(totals, TokenTotals { sum: 3, pending: 0, failed: 0 });
}

#[test]
fn merge_request_keeps_one_entry_per_path() {
    let mut app = app_with(&[]);
    app.loaded_files = vec![file("a.txt"), file("b.txt"), file("a.txt")];
    app.selected_files = vec![true, true, true];
    app.token_status = vec![TokenStatus::NotCounted, TokenStatus::NotCounted, TokenStatus::NotCounted];
    let req = app.merge_immediate();
    let paths: Vec<&str> = req.files.iter().map(|f| f.path.as_str()).collect();
    assert_eq!(paths, vec!["a.txt", "b.txt"]);
    app.loaded_files = vec![file("a.txt"), file("b.txt")];
    app.selected_files = vec![true, true];
    let single = app.merge_immediate();
    let single_paths: Vec<&str> = single.files.iter().map(|f| f.path.as_str()).collect();
    assert_eq!(paths, single_paths);
}
