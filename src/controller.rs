use vstd::prelude::*;

use crate::panel::{next_of, prev_of, FocusedPanel, Key, OutputDestination};
use crate::reload::{
    carry_file_selection, carry_key_selection, dedup_files, distinct_extensions, extension_of,
    first_extensions, first_occurrences, key_was_selected, path_extension, views_of, was_selected,
};
use crate::status::{
    apply_all, apply_msg, dispatch_all, failed_upto, jobs_upto, pending_upto,
    selected_sum, starts_count, sum_upto, terminal_of, CountMessage, SourceFile, TokenStatus,
};

verus! {

/// A one-line text input: its characters and a cursor between them.
pub struct TextField {
    pub value: Vec<char>,
    pub cursor_pos: usize,
}

impl TextField {
    pub open spec fn wf(&self) -> bool {
        self.cursor_pos <= self.value.len()
    }

    pub fn new(value: Vec<char>) -> (r: TextField)
        ensures
            r.value@ == value@,
            r.cursor_pos == value.len(),
    {
        let n = value.len();
        TextField { value, cursor_pos: n }
    }

    /// The value and cursor after the field reads `key`: a character goes in
    /// at the cursor, backspace takes out the one before it, the arrows, home
    /// and end move the cursor; any other key changes nothing.
    pub open spec fn input_spec(&self, key: Key) -> (Seq<char>, int) {
        let v = self.value@;
        let c = self.cursor_pos as int;
        match key {
            Key::Char(ch) => (v.insert(c, ch), c + 1),
            Key::Backspace => if c > 0 {
                (v.remove(c - 1), c - 1)
            } else {
                (v, c)
            },
            Key::Left => if c > 0 {
                (v, c - 1)
            } else {
                (v, c)
            },
            Key::Right => if c < v.len() {
                (v, c + 1)
            } else {
                (v, c)
            },
            Key::Home => (v, 0),
            Key::End => (v, v.len() as int),
            _ => (v, c),
        }
    }

    pub fn handle_input(&mut self, key: Key)
        requires
            old(self).wf(),
            old(self).value.len() < usize::MAX,
        ensures
            final(self).wf(),
            (final(self).value@, final(self).cursor_pos as int) == old(self).input_spec(key),
    {
        match key {
            Key::Char(ch) => {
                self.value.insert(self.cursor_pos, ch);
                self.cursor_pos = self.cursor_pos + 1;
            },
            Key::Backspace => {
                if self.cursor_pos > 0 {
                    self.value.remove(self.cursor_pos - 1);
                    self.cursor_pos = self.cursor_pos - 1;
                }
            },
            Key::Left => {
                if self.cursor_pos > 0 {
                    self.cursor_pos = self.cursor_pos - 1;
                }
            },
            Key::Right => {
                if self.cursor_pos < self.value.len() {
                    self.cursor_pos = self.cursor_pos + 1;
                }
            },
            Key::Home => {
                self.cursor_pos = 0;
            },
            Key::End => {
                self.cursor_pos = self.value.len();
            },
            _ => {},
        }
    }

    /// Empties the field.
    pub fn clear(&mut self)
        ensures
            final(self).wf(),
            final(self).value@.len() == 0,
            final(self).cursor_pos == 0,
    {
        self.value.clear();
        self.cursor_pos = 0;
    }
}

impl FocusedPanel {
    /// The panel that takes focus after this one, under the app's destination.
    pub fn next_panel(&self, app: &App) -> (r: FocusedPanel)
        ensures
            r == next_of(*self, app.destination),
    {
        match self {
            FocusedPanel::SourcePath => FocusedPanel::Filters,
            FocusedPanel::Filters => FocusedPanel::SourceFiles,
            FocusedPanel::SourceFiles => FocusedPanel::Output,
            FocusedPanel::Output => if app.destination == OutputDestination::Clipboard {
                FocusedPanel::SourcePath
            } else {
                FocusedPanel::OutputFile
            },
            FocusedPanel::OutputFile => FocusedPanel::SourcePath,
        }
    }

    /// The panel that takes focus before this one, under the app's destination.
    pub fn prev_panel(&self, app: &App) -> (r: FocusedPanel)
        ensures
            r == prev_of(*self, app.destination),
    {
        match self {
            FocusedPanel::SourcePath => if app.destination == OutputDestination::Clipboard {
                FocusedPanel::Output
            } else {
                FocusedPanel::OutputFile
            },
            FocusedPanel::Filters => FocusedPanel::SourcePath,
            FocusedPanel::SourceFiles => FocusedPanel::Filters,
            FocusedPanel::Output => FocusedPanel::SourceFiles,
            FocusedPanel::OutputFile => FocusedPanel::Output,
        }
    }
}

/// What came of asking the text source for its files.
pub enum ReloadOutcome {
    /// No text source could be made for the path.
    SourceUnavailable,
    /// The source was made, but listing its files failed.
    IndexFailed,
    /// The files that the source listed under the filter.
    Listed(Vec<SourceFile>),
}

/// What came of the clipboard copy that follows a merge.
#[derive(Copy, Clone, Debug, PartialEq, Eq, Structural)]
pub enum ClipboardOutcome {
    NotRequested,
    Copied,
    Failed,
}

/// What a merge reports: whether the artifact was written, and, apart from
/// that, what came of the clipboard copy.
#[derive(Copy, Clone, Debug, PartialEq, Eq, Structural)]
pub struct MergeReport {
    pub written: bool,
    pub clipboard: ClipboardOutcome,
}

/// What the host is to hand to the writer for one merge.
pub struct MergeRequest {
    pub files: Vec<SourceFile>,
    pub destination: OutputDestination,
    pub output_path: Vec<char>,
}

/// The files of `files` that are selected, in list order.
pub open spec fn selected_subset(files: Seq<SourceFile>, sel: Seq<bool>, n: int) -> Seq<SourceFile>
    decreases n,
{
    if n <= 0 {
        Seq::empty()
    } else {
        let before = selected_subset(files, sel, n - 1);
        if sel[n - 1] {
            before.push(files[n - 1])
        } else {
            before
        }
    }
}

/// Whether a merge goes on to copy its text to the clipboard.
pub open spec fn wants_clipboard_copy(d: OutputDestination, written: bool) -> bool {
    written && d == OutputDestination::FileAndClipboard
}

/// What the token counts of the selection add up to.
#[derive(Copy, Clone, Debug, PartialEq, Eq, Structural)]
pub struct TokenTotals {
    /// Sum of the counts of the selected files that were counted.
    pub sum: u128,
    /// Selected files with no result yet: not started or under way.
    pub pending: usize,
    /// Selected files whose count failed.
    pub failed: usize,
}

/// The controller: which panel has focus, the loaded files, what is selected,
/// where each count stands, and the requests for the host.
pub struct App {
    pub source_path_panel: TextField,
    pub output_file_panel: TextField,
    pub destination: OutputDestination,
    pub focused_panel: FocusedPanel,
    pub loaded_files: Vec<SourceFile>,
    /// Parallel to `loaded_files`.
    pub token_status: Vec<TokenStatus>,
    /// Parallel to `loaded_files`: whether each file is selected.
    pub selected_files: Vec<bool>,
    /// The distinct extensions of the loaded files.
    pub extensions: Vec<String>,
    /// Parallel to `extensions`.
    pub selected_extensions: Vec<bool>,
    pub filters_cursor: usize,
    pub files_cursor: usize,
    pub processing: bool,
    pub has_text_source: bool,
    pub exit_requested: bool,
    pub reload_files_needed: bool,
    pub merge_needed: bool,
    pub prev_source_path: Vec<char>,
}

impl App {
    pub open spec fn wf(&self) -> bool {
        &&& self.source_path_panel.wf()
        &&& self.output_file_panel.wf()
        &&& self.token_status.len() == self.loaded_files.len()
        &&& self.selected_files.len() == self.loaded_files.len()
        &&& self.selected_extensions.len() == self.extensions.len()
        &&& crate::status::paths_distinct(self.loaded_files@)
    }

    /// The paths of the selected files.
    pub open spec fn selected_paths(&self) -> Set<Seq<char>> {
        Set::new(
            |p: Seq<char>|
                exists|i: int|
                    0 <= i < self.loaded_files.len() && self.selected_files[i]
                        && self.loaded_files[i].path@ == p,
        )
    }

    pub fn new(default_path: Vec<char>, default_output_path: Vec<char>) -> (r: App)
        ensures
            r.wf(),
            r.source_path_panel.value@ == default_path@,
            r.output_file_panel.value@ == default_output_path@,
            r.prev_source_path@ == default_path@,
            r.focused_panel == FocusedPanel::SourcePath,
            r.destination == OutputDestination::File,
            r.loaded_files@.len() == 0,
            r.extensions@.len() == 0,
            !r.processing,
            !r.has_text_source,
            !r.exit_requested,
            !r.reload_files_needed,
            !r.merge_needed,
    {
        let prev = default_path.clone();
        App {
            source_path_panel: TextField::new(default_path),
            output_file_panel: TextField::new(default_output_path),
            destination: OutputDestination::File,
            focused_panel: FocusedPanel::SourcePath,
            loaded_files: Vec::new(),
            token_status: Vec::new(),
            selected_files: Vec::new(),
            extensions: Vec::new(),
            selected_extensions: Vec::new(),
            filters_cursor: 0,
            files_cursor: 0,
            processing: false,
            has_text_source: false,
            exit_requested: false,
            reload_files_needed: false,
            merge_needed: false,
            prev_source_path: prev,
        }
    }

    /// Starts a count for every selected file that has none yet, if a text
    /// source is there: each such file becomes `Counting` at once, and the
    /// files to count are returned in list order, for the host to read and
    /// count in the background.
    pub fn start_token_count_for_selected_files(&mut self) -> (jobs: Vec<SourceFile>)
        requires
            old(self).wf(),
        ensures
            final(self).wf(),
            final(self).token_status@ == dispatch_all(
                old(self).token_status@,
                old(self).selected_files@,
                old(self).has_text_source,
            ),
            jobs@ == crate::status::jobs_of(
                old(self).loaded_files@,
                old(self).token_status@,
                old(self).selected_files@,
                old(self).has_text_source,
            ),
            final(self).loaded_files == old(self).loaded_files,
            final(self).selected_files == old(self).selected_files,
            final(self).extensions == old(self).extensions,
            final(self).selected_extensions == old(self).selected_extensions,
            final(self).focused_panel == old(self).focused_panel,
            final(self).source_path_panel == old(self).source_path_panel,
            final(self).output_file_panel == old(self).output_file_panel,
            final(self).destination == old(self).destination,
            final(self).filters_cursor == old(self).filters_cursor,
            final(self).files_cursor == old(self).files_cursor,
            final(self).processing == old(self).processing,
            final(self).has_text_source == old(self).has_text_source,
            final(self).exit_requested == old(self).exit_requested,
            final(self).reload_files_needed == old(self).reload_files_needed,
            final(self).merge_needed == old(self).merge_needed,
            final(self).prev_source_path == old(self).prev_source_path,
    {
        let ghost st0 = self.token_status@;
        let mut jobs: Vec<SourceFile> = Vec::new();
        if !self.has_text_source {
            proof {
                assert(self.token_status@ =~= dispatch_all(st0, self.selected_files@, false));
                lemma_no_jobs_without_source(
                    self.loaded_files@,
                    st0,
                    self.selected_files@,
                    self.loaded_files.len() as int,
                );
            }
            return jobs;
        }
        let n = self.loaded_files.len();
        let mut i: usize = 0;
        while i < n
            invariant
                0 <= i <= n,
                n == self.loaded_files.len(),
                self.has_text_source,
                self.token_status.len() == n,
                self.selected_files.len() == n,
                self.wf(),
                self.loaded_files == old(self).loaded_files,
                self.selected_files == old(self).selected_files,
                self.extensions == old(self).extensions,
                self.selected_extensions == old(self).selected_extensions,
                self.focused_panel == old(self).focused_panel,
                self.source_path_panel == old(self).source_path_panel,
                self.output_file_panel == old(self).output_file_panel,
                self.destination == old(self).destination,
                self.filters_cursor == old(self).filters_cursor,
                self.files_cursor == old(self).files_cursor,
                self.processing == old(self).processing,
                self.has_text_source == old(self).has_text_source,
                self.exit_requested == old(self).exit_requested,
                self.reload_files_needed == old(self).reload_files_needed,
                self.merge_needed == old(self).merge_needed,
                self.prev_source_path == old(self).prev_source_path,
                st0 == old(self).token_status@,
                st0.len() == n,
                forall|k: int|
                    0 <= k < i ==> self.token_status@[k] == dispatch_all(
                        st0,
                        self.selected_files@,
                        true,
                    )[k],
                forall|k: int| i <= k < n ==> self.token_status@[k] == st0[k],
                jobs@ == jobs_upto(self.loaded_files@, st0, self.selected_files@, true, i as int),
            decreases n - i,
        {
            let start = self.selected_files[i] && match &self.token_status[i] {
                TokenStatus::NotCounted => true,
                _ => false,
            };
            if start {
                self.token_status.set(i, TokenStatus::Counting);
                jobs.push(self.loaded_files[i].duplicate());
            }
            i += 1;
        }
        proof {
            assert(self.token_status@ =~= dispatch_all(st0, self.selected_files@, true));
        }
        jobs
    }

    /// Applies one finished count to the file of its path, if that file is
    /// being counted.
    fn apply_count_message(&mut self, m: &CountMessage)
        requires
            old(self).wf(),
        ensures
            final(self).token_status@ == apply_msg(
                old(self).loaded_files@,
                old(self).token_status@,
                *m,
            ),
            final(self).wf(),
            final(self).loaded_files == old(self).loaded_files,
            final(self).selected_files == old(self).selected_files,
            final(self).extensions == old(self).extensions,
            final(self).selected_extensions == old(self).selected_extensions,
            final(self).focused_panel == old(self).focused_panel,
            final(self).source_path_panel == old(self).source_path_panel,
            final(self).output_file_panel == old(self).output_file_panel,
            final(self).destination == old(self).destination,
            final(self).filters_cursor == old(self).filters_cursor,
            final(self).files_cursor == old(self).files_cursor,
            final(self).processing == old(self).processing,
            final(self).has_text_source == old(self).has_text_source,
            final(self).exit_requested == old(self).exit_requested,
            final(self).reload_files_needed == old(self).reload_files_needed,
            final(self).merge_needed == old(self).merge_needed,
            final(self).prev_source_path == old(self).prev_source_path,
    {
        let ghost st0 = self.token_status@;
        let n = self.loaded_files.len();
        let mut i: usize = 0;
        while i < n
            invariant
                0 <= i <= n,
                n == self.loaded_files.len(),
                self.token_status.len() == n,
                self.wf(),
                self.loaded_files == old(self).loaded_files,
                self.selected_files == old(self).selected_files,
                self.extensions == old(self).extensions,
                self.selected_extensions == old(self).selected_extensions,
                self.focused_panel == old(self).focused_panel,
                self.source_path_panel == old(self).source_path_panel,
                self.output_file_panel == old(self).output_file_panel,
                self.destination == old(self).destination,
                self.filters_cursor == old(self).filters_cursor,
                self.files_cursor == old(self).files_cursor,
                self.processing == old(self).processing,
                self.has_text_source == old(self).has_text_source,
                self.exit_requested == old(self).exit_requested,
                self.reload_files_needed == old(self).reload_files_needed,
                self.merge_needed == old(self).merge_needed,
                self.prev_source_path == old(self).prev_source_path,
                st0 == old(self).token_status@,
                st0.len() == n,
                forall|k: int|
                    0 <= k < i ==> self.token_status@[k] == apply_msg(
                        self.loaded_files@,
                        st0,
                        *m,
                    )[k],
                forall|k: int| i <= k < n ==> self.token_status@[k] == st0[k],
            decreases n - i,
        {
            let counting = match &self.token_status[i] {
                TokenStatus::Counting => true,
                _ => false,
            };
            if counting && self.loaded_files[i].path == m.0 {
                let t = match &m.1 {
                    Ok(c) => TokenStatus::Counted(*c),
                    Err(e) => TokenStatus::Failed(e.clone()),
                };
                proof {
                    assert(t == terminal_of(m.1));
                }
                self.token_status.set(i, t);
            }
            i += 1;
        }
        proof {
            assert(self.token_status@ =~= apply_msg(self.loaded_files@, st0, *m));
        }
    }

    /// Sum of the counted selected files, and how many are pending or failed.
    pub fn token_totals(&self) -> (r: TokenTotals)
        requires
            self.wf(),
        ensures
            r.sum == selected_sum(self.token_status@, self.selected_files@),
            r.pending == pending_upto(
                self.token_status@,
                self.selected_files@,
                self.token_status.len() as int,
            ),
            r.failed == failed_upto(
                self.token_status@,
                self.selected_files@,
                self.token_status.len() as int,
            ),
    {
        let n = self.token_status.len();
        let mut sum: u128 = 0;
        let mut pending: usize = 0;
        let mut failed: usize = 0;
        let mut i: usize = 0;
        while i < n
            invariant
                0 <= i <= n,
                n == self.token_status.len(),
                self.wf(),
                sum == sum_upto(self.token_status@, self.selected_files@, i as int),
                sum <= i * (usize::MAX as int),
                pending == pending_upto(self.token_status@, self.selected_files@, i as int),
                failed == failed_upto(self.token_status@, self.selected_files@, i as int),
                pending <= i,
                failed <= i,
            decreases n - i,
        {
            if self.selected_files[i] {
                match &self.token_status[i] {
                    TokenStatus::Counted(c) => {
                        proof {
                            assert(sum + *c <= (i + 1) * (usize::MAX as int)) by (nonlinear_arith)
                                requires
                                    sum <= i * (usize::MAX as int),
                                    *c <= usize::MAX,
                                    i < usize::MAX,
                            ;
                            assert((i + 1) * (usize::MAX as int) < u128::MAX) by (nonlinear_arith)
                                requires
                                    i < usize::MAX,
                                    usize::MAX <= u64::MAX,
                            ;
                        }
                        sum = sum + *c as u128;
                    },
                    TokenStatus::Counting => {
                        pending = pending + 1;
                    },
                    TokenStatus::Failed(_) => {
                        failed = failed + 1;
                    },
                    TokenStatus::NotCounted => {
                        pending = pending + 1;
                    },
                }
            }
            proof {
                assert(sum <= (i + 1) * (usize::MAX as int)) by (nonlinear_arith)
                    requires
                        sum <= i * (usize::MAX as int) || sum <= (i + 1) * (usize::MAX as int),
                ;
            }
            i += 1;
        }
        TokenTotals { sum, pending, failed }
    }

    /// Applies every message that has arrived, in order, then reports the
    /// totals over the selection. With no message, nothing changes.
    pub fn process_token_count_results(&mut self, msgs: Vec<CountMessage>) -> (r: TokenTotals)
        requires
            old(self).wf(),
        ensures
            final(self).wf(),
            final(self).token_status@ == apply_all(
                old(self).loaded_files@,
                old(self).token_status@,
                msgs@,
            ),
            r.sum == selected_sum(final(self).token_status@, final(self).selected_files@),
            r.pending == pending_upto(
                final(self).token_status@,
                final(self).selected_files@,
                final(self).token_status.len() as int,
            ),
            r.failed == failed_upto(
                final(self).token_status@,
                final(self).selected_files@,
                final(self).token_status.len() as int,
            ),
            final(self).loaded_files == old(self).loaded_files,
            final(self).selected_files == old(self).selected_files,
            final(self).extensions == old(self).extensions,
            final(self).selected_extensions == old(self).selected_extensions,
            final(self).focused_panel == old(self).focused_panel,
            final(self).source_path_panel == old(self).source_path_panel,
            final(self).output_file_panel == old(self).output_file_panel,
            final(self).destination == old(self).destination,
            final(self).filters_cursor == old(self).filters_cursor,
            final(self).files_cursor == old(self).files_cursor,
            final(self).processing == old(self).processing,
            final(self).has_text_source == old(self).has_text_source,
            final(self).exit_requested == old(self).exit_requested,
            final(self).reload_files_needed == old(self).reload_files_needed,
            final(self).merge_needed == old(self).merge_needed,
            final(self).prev_source_path == old(self).prev_source_path,
    {
        let n = msgs.len();
        let mut i: usize = 0;
        while i < n
            invariant
                0 <= i <= n,
                n == msgs.len(),
                self.wf(),
                self.token_status@ == apply_all(
                    old(self).loaded_files@,
                    old(self).token_status@,
                    msgs@.take(i as int),
                ),
                self.loaded_files == old(self).loaded_files,
                self.selected_files == old(self).selected_files,
                self.extensions == old(self).extensions,
                self.selected_extensions == old(self).selected_extensions,
                self.focused_panel == old(self).focused_panel,
                self.source_path_panel == old(self).source_path_panel,
                self.output_file_panel == old(self).output_file_panel,
                self.destination == old(self).destination,
                self.filters_cursor == old(self).filters_cursor,
                self.files_cursor == old(self).files_cursor,
                self.processing == old(self).processing,
                self.has_text_source == old(self).has_text_source,
                self.exit_requested == old(self).exit_requested,
                self.reload_files_needed == old(self).reload_files_needed,
                self.merge_needed == old(self).merge_needed,
                self.prev_source_path == old(self).prev_source_path,
            decreases n - i,
        {
            proof {
                assert(msgs@.take(i as int + 1).drop_last() =~= msgs@.take(i as int));
            }
            self.apply_count_message(&msgs[i]);
            i += 1;
        }
        proof {
            assert(msgs@.take(n as int) =~= msgs@);
        }
        self.token_totals()
    }

    /// Takes the result of a reload: the loaded list becomes the listed files
    /// (first of each path), or empty where the source or its listing failed.
    /// Selections keep only what is still loaded, every count starts over, and
    /// the reload request and the processing gate are cleared.
    pub fn reload_files_immediate(&mut self, outcome: ReloadOutcome)
        requires
            old(self).wf(),
        ensures
            final(self).wf(),
            !final(self).reload_files_needed,
            !final(self).processing,
            final(self).has_text_source == !(outcome is SourceUnavailable),
            final(self).loaded_files@ == match outcome {
                ReloadOutcome::Listed(v) => first_occurrences(v@),
                _ => Seq::empty(),
            },
            forall|i: int|
                0 <= i < final(self).loaded_files@.len() ==> final(self).selected_files@[i]
                    == was_selected(
                    old(self).loaded_files@,
                    old(self).selected_files@,
                    final(self).loaded_files@[i].path@,
                ),
            forall|i: int|
                0 <= i < final(self).token_status@.len() ==> final(self).token_status@[i]
                    is NotCounted,
            views_of(final(self).extensions@) == first_extensions(final(self).loaded_files@),
            forall|a: int|
                0 <= a < final(self).extensions@.len() ==> final(self).selected_extensions@[a]
                    == key_was_selected(
                    old(self).extensions@,
                    old(self).selected_extensions@,
                    final(self).extensions@[a]@,
                ),
            final(self).filters_cursor == 0,
            final(self).files_cursor == 0,
            final(self).focused_panel == old(self).focused_panel,
            final(self).source_path_panel == old(self).source_path_panel,
            final(self).output_file_panel == old(self).output_file_panel,
            final(self).destination == old(self).destination,
            final(self).exit_requested == old(self).exit_requested,
            final(self).merge_needed == old(self).merge_needed,
            final(self).prev_source_path == old(self).prev_source_path,
    {
        self.reload_files_needed = false;
        let files = match outcome {
            ReloadOutcome::SourceUnavailable => {
                self.has_text_source = false;
                Vec::new()
            },
            ReloadOutcome::IndexFailed => {
                self.has_text_source = true;
                Vec::new()
            },
            ReloadOutcome::Listed(v) => {
                self.has_text_source = true;
                dedup_files(&v)
            },
        };
        let selected = carry_file_selection(&self.loaded_files, &self.selected_files, &files);
        let exts = distinct_extensions(&files);
        let selected_exts = carry_key_selection(
            &self.extensions,
            &self.selected_extensions,
            &exts,
        );
        let mut status: Vec<TokenStatus> = Vec::new();
        let n = files.len();
        let mut i: usize = 0;
        while i < n
            invariant
                0 <= i <= n,
                status@.len() == i,
                forall|k: int| 0 <= k < i ==> status@[k] is NotCounted,
            decreases n - i,
        {
            status.push(TokenStatus::NotCounted);
            i += 1;
        }
        self.loaded_files = files;
        self.selected_files = selected;
        self.token_status = status;
        self.extensions = exts;
        self.selected_extensions = selected_exts;
        self.filters_cursor = 0;
        self.files_cursor = 0;
        self.processing = false;
        proof {
            let e = views_of(self.extensions@);
            assert(e.len() == self.extensions@.len());
        }
    }

    /// Clears the merge request and returns what the writer needs: the
    /// selected loaded files in list order, each path once (the first selected
    /// file of that path), the destination, the output path.
    pub fn merge_immediate(&mut self) -> (r: MergeRequest)
        requires
            old(self).selected_files.len() == old(self).loaded_files.len(),
        ensures
            old(self).wf() ==> final(self).wf(),
            !final(self).merge_needed,
            r.files@ == first_occurrences(
                selected_subset(
                    old(self).loaded_files@,
                    old(self).selected_files@,
                    old(self).loaded_files@.len() as int,
                ),
            ),
            crate::status::paths_distinct(r.files@),
            r.destination == old(self).destination,
            r.output_path@ == old(self).output_file_panel.value@,
            final(self).loaded_files == old(self).loaded_files,
            final(self).selected_files == old(self).selected_files,
            final(self).token_status == old(self).token_status,
            final(self).extensions == old(self).extensions,
            final(self).selected_extensions == old(self).selected_extensions,
            final(self).focused_panel == old(self).focused_panel,
            final(self).source_path_panel == old(self).source_path_panel,
            final(self).output_file_panel == old(self).output_file_panel,
            final(self).destination == old(self).destination,
            final(self).processing == old(self).processing,
            final(self).has_text_source == old(self).has_text_source,
            final(self).exit_requested == old(self).exit_requested,
            final(self).reload_files_needed == old(self).reload_files_needed,
            final(self).prev_source_path == old(self).prev_source_path,
    {
        self.merge_needed = false;
        let mut files: Vec<SourceFile> = Vec::new();
        let n = self.loaded_files.len();
        let mut i: usize = 0;
        while i < n
            invariant
                0 <= i <= n,
                n == self.loaded_files.len(),
                n == self.selected_files.len(),
                self.loaded_files == old(self).loaded_files,
                self.selected_files == old(self).selected_files,
                files@ == selected_subset(self.loaded_files@, self.selected_files@, i as int),
            decreases n - i,
        {
            if self.selected_files[i] {
                files.push(self.loaded_files[i].duplicate());
            }
            i += 1;
        }
        let files = dedup_files(&files);
        MergeRequest {
            files,
            destination: self.destination,
            output_path: self.output_file_panel.value.clone(),
        }
    }

    /// Ends a merge: the processing gate opens, and the report says whether
    /// the writer succeeded, and apart from that what came of the clipboard
    /// copy (asked for only after a successful write to a file and the
    /// clipboard). A failed copy does not undo the write.
    pub fn merge_finished(&mut self, written: bool, clipboard_ok: Option<bool>) -> (r: MergeReport)
        ensures
            !final(self).processing,
            r.written == written,
            r.clipboard == if !wants_clipboard_copy(old(self).destination, written) {
                ClipboardOutcome::NotRequested
            } else {
                match clipboard_ok {
                    Some(true) => ClipboardOutcome::Copied,
                    _ => ClipboardOutcome::Failed,
                }
            },
            final(self).loaded_files == old(self).loaded_files,
            final(self).selected_files == old(self).selected_files,
            final(self).token_status == old(self).token_status,
            final(self).extensions == old(self).extensions,
            final(self).selected_extensions == old(self).selected_extensions,
            final(self).focused_panel == old(self).focused_panel,
            final(self).source_path_panel == old(self).source_path_panel,
            final(self).output_file_panel == old(self).output_file_panel,
            final(self).destination == old(self).destination,
            final(self).filters_cursor == old(self).filters_cursor,
            final(self).files_cursor == old(self).files_cursor,
            final(self).has_text_source == old(self).has_text_source,
            final(self).exit_requested == old(self).exit_requested,
            final(self).reload_files_needed == old(self).reload_files_needed,
            final(self).merge_needed == old(self).merge_needed,
            final(self).prev_source_path == old(self).prev_source_path,
    {
        self.processing = false;
        let clipboard = if !(written && self.destination == OutputDestination::FileAndClipboard) {
            ClipboardOutcome::NotRequested
        } else {
            match clipboard_ok {
                Some(true) => ClipboardOutcome::Copied,
                _ => ClipboardOutcome::Failed,
            }
        };
        MergeReport { written, clipboard }
    }

    /// Whether the host should copy the merged text to the clipboard after the
    /// writer answered.
    pub fn needs_clipboard_copy(&self, written: bool) -> (r: bool)
        ensures
            r == wants_clipboard_copy(self.destination, written),
    {
        written && self.destination == OutputDestination::FileAndClipboard
    }

    /// Puts the cursor of the focused text field at its end.
    fn set_cursor_to_end(&mut self)
        requires
            old(self).wf(),
        ensures
            final(self).wf(),
            final(self).source_path_panel.value == old(self).source_path_panel.value,
            final(self).output_file_panel.value == old(self).output_file_panel.value,
            final(self).source_path_panel.cursor_pos == if old(self).focused_panel
                == FocusedPanel::SourcePath {
                old(self).source_path_panel.value.len()
            } else {
                old(self).source_path_panel.cursor_pos
            },
            final(self).output_file_panel.cursor_pos == if old(self).focused_panel
                == FocusedPanel::OutputFile {
                old(self).output_file_panel.value.len()
            } else {
                old(self).output_file_panel.cursor_pos
            },
            final(self).loaded_files == old(self).loaded_files,
            final(self).selected_files == old(self).selected_files,
            final(self).token_status == old(self).token_status,
            final(self).extensions == old(self).extensions,
            final(self).selected_extensions == old(self).selected_extensions,
            final(self).focused_panel == old(self).focused_panel,
            final(self).destination == old(self).destination,
            final(self).filters_cursor == old(self).filters_cursor,
            final(self).files_cursor == old(self).files_cursor,
            final(self).processing == old(self).processing,
            final(self).has_text_source == old(self).has_text_source,
            final(self).exit_requested == old(self).exit_requested,
            final(self).reload_files_needed == old(self).reload_files_needed,
            final(self).merge_needed == old(self).merge_needed,
            final(self).prev_source_path == old(self).prev_source_path,
    {
        match self.focused_panel {
            FocusedPanel::SourcePath => {
                self.source_path_panel.cursor_pos = self.source_path_panel.value.len();
            },
            FocusedPanel::OutputFile => {
                self.output_file_panel.cursor_pos = self.output_file_panel.value.len();
            },
            _ => {},
        }
    }

    /// Enter: in the file list it moves focus on and starts the counts of the
    /// selection; in the output panel with the clipboard alone, and in the
    /// output-file panel, it asks for a merge (unless one is under way);
    /// elsewhere it moves focus on.
    fn handle_enter(&mut self) -> (jobs: Vec<SourceFile>)
        requires
            old(self).wf(),
        ensures
            final(self).wf(),
            final(self).focused_panel == focus_after(
                old(self).focused_panel,
                old(self).destination,
                Key::Enter,
            ),
            final(self).merge_needed == (old(self).merge_needed || (!old(self).processing
                && asks_merge(old(self).focused_panel, old(self).destination, Key::Enter))),
            old(self).focused_panel == FocusedPanel::SourceFiles ==> {
                &&& final(self).token_status@ == dispatch_all(
                    old(self).token_status@,
                    old(self).selected_files@,
                    old(self).has_text_source,
                )
                &&& jobs@ == crate::status::jobs_of(
                    old(self).loaded_files@,
                    old(self).token_status@,
                    old(self).selected_files@,
                    old(self).has_text_source,
                )
            },
            old(self).focused_panel != FocusedPanel::SourceFiles ==> final(self).token_status
                == old(self).token_status && jobs@.len() == 0,
            final(self).source_path_panel == old(self).source_path_panel,
            final(self).output_file_panel.value == old(self).output_file_panel.value,
            final(self).output_file_panel.cursor_pos == if final(self).focused_panel
                == FocusedPanel::OutputFile && old(self).focused_panel
                != FocusedPanel::OutputFile {
                old(self).output_file_panel.value.len()
            } else {
                old(self).output_file_panel.cursor_pos
            },
            final(self).loaded_files == old(self).loaded_files,
            final(self).selected_files == old(self).selected_files,
            final(self).extensions == old(self).extensions,
            final(self).selected_extensions == old(self).selected_extensions,
            final(self).destination == old(self).destination,
            final(self).filters_cursor == old(self).filters_cursor,
            final(self).files_cursor == old(self).files_cursor,
            final(self).processing == old(self).processing,
            final(self).has_text_source == old(self).has_text_source,
            final(self).exit_requested == old(self).exit_requested,
            final(self).reload_files_needed == old(self).reload_files_needed,
            final(self).prev_source_path == old(self).prev_source_path,
    {
        match self.focused_panel {
            FocusedPanel::SourceFiles => {
                self.focused_panel = self.focused_panel.next_panel(self);
                let jobs = self.start_token_count_for_selected_files();
                self.set_cursor_to_end();
                jobs
            },
            FocusedPanel::Output => {
                if self.destination == OutputDestination::Clipboard {
                    if !self.processing {
                        self.merge_needed = true;
                    }
                } else {
                    self.focused_panel = self.focused_panel.next_panel(self);
                    self.set_cursor_to_end();
                }
                Vec::new()
            },
            FocusedPanel::OutputFile => {
                if !self.processing {
                    self.merge_needed = true;
                }
                Vec::new()
            },
            _ => {
                self.focused_panel = self.focused_panel.next_panel(self);
                self.set_cursor_to_end();
                Vec::new()
            },
        }
    }

    /// Handles one key press. F10, and Esc in the source-path panel, ask to
    /// exit; Esc elsewhere moves focus back; F1 and F2 ask for a reload or a
    /// merge unless one is under way; F3 clears the focused text field; Enter
    /// is `handle_enter`; space toggles the entry under the cursor in the
    /// filter and file lists; any other key goes to the focused panel. When
    /// focus leaves the source-path panel with its text changed since the last
    /// reload, a reload is asked for and the text is recorded. Returns the
    /// files whose count the host is to start.
    pub fn update(&mut self, key: Key) -> (jobs: Vec<SourceFile>)
        requires
            old(self).wf(),
            old(self).source_path_panel.value.len() < usize::MAX,
            old(self).output_file_panel.value.len() < usize::MAX,
        ensures
            final(self).wf(),
            final(self).exit_requested == (old(self).exit_requested || key == Key::F(10) || (key
                == Key::Esc && old(self).focused_panel == FocusedPanel::SourcePath)),
            final(self).focused_panel == focus_after(
                old(self).focused_panel,
                old(self).destination,
                key,
            ),
            final(self).merge_needed == (old(self).merge_needed || (!old(self).processing
                && asks_merge(old(self).focused_panel, old(self).destination, key))),
            final(self).reload_files_needed == (old(self).reload_files_needed || (key == Key::F(1)
                && !old(self).processing) || dirty_exit(*old(self), final(self).focused_panel)),
            final(self).prev_source_path@ == if dirty_exit(*old(self), final(self).focused_panel) {
                old(self).source_path_panel.value@
            } else {
                old(self).prev_source_path@
            },
            key == Key::Enter && old(self).focused_panel == FocusedPanel::SourceFiles ==> {
                &&& final(self).token_status@ == dispatch_all(
                    old(self).token_status@,
                    old(self).selected_files@,
                    old(self).has_text_source,
                )
                &&& jobs@ == crate::status::jobs_of(
                    old(self).loaded_files@,
                    old(self).token_status@,
                    old(self).selected_files@,
                    old(self).has_text_source,
                )
            },
            !(key == Key::Enter && old(self).focused_panel == FocusedPanel::SourceFiles) ==> (
            final(self).token_status == old(self).token_status && jobs@.len() == 0),
            final(self).selected_files@ == if key == Key::Char(' ') && old(self).focused_panel
                == FocusedPanel::SourceFiles {
                toggled_at(old(self).selected_files@, old(self).files_cursor)
            } else if key == Key::Char(' ') && old(self).focused_panel == FocusedPanel::Filters
                && old(self).filters_cursor < old(self).extensions.len() {
                with_extension_set(
                    old(self).loaded_files@,
                    old(self).selected_files@,
                    old(self).extensions@[old(self).filters_cursor as int]@,
                    !old(self).selected_extensions@[old(self).filters_cursor as int],
                )
            } else {
                old(self).selected_files@
            },
            final(self).selected_extensions@ == if key == Key::Char(' ') && old(self).focused_panel
                == FocusedPanel::Filters {
                toggled_at(old(self).selected_extensions@, old(self).filters_cursor)
            } else {
                old(self).selected_extensions@
            },
            final(self).destination == if goes_to_panel(key) && old(self).focused_panel
                == FocusedPanel::Output {
                old(self).destination.toggled_spec(key)
            } else {
                old(self).destination
            },
            final(self).filters_cursor == if goes_to_panel(key) && old(self).focused_panel
                == FocusedPanel::Filters {
                cursor_after(old(self).filters_cursor, old(self).extensions.len(), key)
            } else {
                old(self).filters_cursor
            },
            final(self).files_cursor == if goes_to_panel(key) && old(self).focused_panel
                == FocusedPanel::SourceFiles {
                cursor_after(old(self).files_cursor, old(self).loaded_files.len(), key)
            } else {
                old(self).files_cursor
            },
            (final(self).source_path_panel.value@, final(self).source_path_panel.cursor_pos as int)
                == if old(self).focused_panel == FocusedPanel::SourcePath && key == Key::F(3) {
                (Seq::<char>::empty(), 0int)
            } else if old(self).focused_panel == FocusedPanel::SourcePath && goes_to_panel(key) {
                old(self).source_path_panel.input_spec(key)
            } else if final(self).focused_panel == FocusedPanel::SourcePath
                && old(self).focused_panel != FocusedPanel::SourcePath {
                (old(self).source_path_panel.value@, old(self).source_path_panel.value.len() as int)
            } else {
                (old(self).source_path_panel.value@, old(self).source_path_panel.cursor_pos as int)
            },
            (final(self).output_file_panel.value@, final(self).output_file_panel.cursor_pos as int)
                == if old(self).focused_panel == FocusedPanel::OutputFile && key == Key::F(3) {
                (Seq::<char>::empty(), 0int)
            } else if old(self).focused_panel == FocusedPanel::OutputFile && goes_to_panel(key) {
                old(self).output_file_panel.input_spec(key)
            } else if final(self).focused_panel == FocusedPanel::OutputFile
                && old(self).focused_panel != FocusedPanel::OutputFile {
                (old(self).output_file_panel.value@, old(self).output_file_panel.value.len() as int)
            } else {
                (old(self).output_file_panel.value@, old(self).output_file_panel.cursor_pos as int)
            },
            final(self).loaded_files == old(self).loaded_files,
            final(self).extensions == old(self).extensions,
            final(self).processing == old(self).processing,
            final(self).has_text_source == old(self).has_text_source,
    {
        let old_focused_panel = self.focused_panel;
        let mut jobs: Vec<SourceFile> = Vec::new();
        if key == Key::F(10) {
            self.exit_requested = true;
        } else if key == Key::Esc {
            if self.focused_panel == FocusedPanel::SourcePath {
                self.exit_requested = true;
            } else {
                self.focused_panel = self.focused_panel.prev_panel(self);
                self.set_cursor_to_end();
            }
        } else if key == Key::F(1) {
            if !self.processing {
                self.reload_files_needed = true;
            }
        } else if key == Key::F(2) {
            if !self.processing {
                self.merge_needed = true;
            }
        } else if key == Key::F(3) {
            match self.focused_panel {
                FocusedPanel::SourcePath => self.source_path_panel.clear(),
                FocusedPanel::OutputFile => self.output_file_panel.clear(),
                _ => {},
            }
        } else if key == Key::Enter {
            jobs = self.handle_enter();
        } else if key == Key::Char(' ') {
            match self.focused_panel {
                FocusedPanel::Filters => {
                    let c = self.filters_cursor;
                    if c < self.extensions.len() {
                        let v = !self.selected_extensions[c];
                        self.selected_extensions.set(c, v);
                        set_extension(&self.loaded_files, &mut self.selected_files, &self.extensions[c], v);
                    }
                },
                FocusedPanel::SourceFiles => {
                    toggle_at(&mut self.selected_files, self.files_cursor);
                },
                _ => {},
            }
        } else {
            match self.focused_panel {
                FocusedPanel::SourcePath => self.source_path_panel.handle_input(key),
                FocusedPanel::Filters => {
                    self.filters_cursor = move_cursor(
                        self.filters_cursor,
                        self.extensions.len(),
                        key,
                    );
                },
                FocusedPanel::SourceFiles => {
                    self.files_cursor = move_cursor(self.files_cursor, self.loaded_files.len(), key);
                },
                FocusedPanel::Output => {
                    self.destination = self.destination.toggled(key);
                },
                FocusedPanel::OutputFile => self.output_file_panel.handle_input(key),
            }
        }
        if old_focused_panel == FocusedPanel::SourcePath && self.focused_panel
            != FocusedPanel::SourcePath {
            if !same_text(&self.source_path_panel.value, &self.prev_source_path) {
                self.reload_files_needed = true;
                self.prev_source_path = self.source_path_panel.value.clone();
            }
        }
        jobs
    }
}

/// Whether a key goes to the focused panel's own input handling rather than
/// to the controller.
pub open spec fn goes_to_panel(key: Key) -> bool {
    !(key == Key::F(10) || key == Key::F(1) || key == Key::F(2) || key == Key::F(3) || key
        == Key::Esc || key == Key::Enter || key == Key::Char(' '))
}

/// The focused panel after `key`.
pub open spec fn focus_after(p: FocusedPanel, d: OutputDestination, key: Key) -> FocusedPanel {
    if key == Key::Esc {
        if p == FocusedPanel::SourcePath {
            p
        } else {
            prev_of(p, d)
        }
    } else if key == Key::Enter {
        match p {
            FocusedPanel::Output => if d == OutputDestination::Clipboard {
                p
            } else {
                next_of(p, d)
            },
            FocusedPanel::OutputFile => p,
            _ => next_of(p, d),
        }
    } else {
        p
    }
}

/// Whether `key` asks for a merge in panel `p`.
pub open spec fn asks_merge(p: FocusedPanel, d: OutputDestination, key: Key) -> bool {
    key == Key::F(2) || (key == Key::Enter && ((p == FocusedPanel::Output && d
        == OutputDestination::Clipboard) || p == FocusedPanel::OutputFile))
}

/// A list cursor after an arrow key: up and down move it within `len` entries.
pub open spec fn cursor_after(c: usize, len: usize, key: Key) -> usize {
    if key == Key::Up && c > 0 {
        (c - 1) as usize
    } else if key == Key::Down && c + 1 < len {
        (c + 1) as usize
    } else {
        c
    }
}

fn move_cursor(c: usize, len: usize, key: Key) -> (r: usize)
    ensures
        r == cursor_after(c, len, key),
{
    if key == Key::Up && c > 0 {
        c - 1
    } else if key == Key::Down && len > 0 && c < len - 1 {
        c + 1
    } else {
        c
    }
}

/// The selection after toggling entry `c`, where there is one.
pub open spec fn toggled_at(sel: Seq<bool>, c: usize) -> Seq<bool> {
    if c < sel.len() {
        sel.update(c as int, !sel[c as int])
    } else {
        sel
    }
}

fn toggle_at(sel: &mut Vec<bool>, c: usize)
    ensures
        final(sel)@ == toggled_at(old(sel)@, c),
{
    if c < sel.len() {
        let v = !sel[c];
        sel.set(c, v);
    }
}

/// The file selection after every file whose extension is `ext` is set to `v`.
pub open spec fn with_extension_set(
    files: Seq<SourceFile>,
    sel: Seq<bool>,
    ext: Seq<char>,
    v: bool,
) -> Seq<bool> {
    Seq::new(
        sel.len(),
        |i: int|
            if path_extension(files[i].path@) == ext {
                v
            } else {
                sel[i]
            },
    )
}

fn set_extension(files: &Vec<SourceFile>, sel: &mut Vec<bool>, ext: &String, v: bool)
    requires
        old(sel)@.len() == files@.len(),
    ensures
        final(sel)@ == with_extension_set(files@, old(sel)@, ext@, v),
{
    let ghost s0 = sel@;
    let n = sel.len();
    let mut i: usize = 0;
    while i < n
        invariant
            0 <= i <= n,
            n == sel@.len(),
            n == files@.len(),
            s0.len() == n,
            forall|k: int|
                0 <= k < i ==> sel@[k] == with_extension_set(files@, s0, ext@, v)[k],
            forall|k: int| i <= k < n ==> sel@[k] == s0[k],
        decreases n - i,
    {
        let e = extension_of(&files[i].path);
        if e == *ext {
            sel.set(i, v);
        }
        i += 1;
    }
    proof {
        assert(sel@ =~= with_extension_set(files@, s0, ext@, v));
    }
}

fn same_text(a: &Vec<char>, b: &Vec<char>) -> (r: bool)
    ensures
        r == (a@ == b@),
{
    if a.len() != b.len() {
        return false;
    }
    let mut i: usize = 0;
    while i < a.len()
        invariant
            0 <= i <= a.len(),
            a.len() == b.len(),
            forall|k: int| 0 <= k < i ==> a@[k] == b@[k],
        decreases a.len() - i,
    {
        if a[i] != b[i] {
            return false;
        }
        i += 1;
    }
    proof {
        assert(a@ =~= b@);
    }
    true
}

/// Whether leaving the source-path panel with this key finds its text changed
/// since the last reload.
pub open spec fn dirty_exit(old_app: App, new_focus: FocusedPanel) -> bool {
    old_app.focused_panel == FocusedPanel::SourcePath && new_focus != FocusedPanel::SourcePath
        && old_app.source_path_panel.value@ != old_app.prev_source_path@
}

proof fn lemma_no_jobs_without_source(
    files: Seq<SourceFile>,
    st: Seq<TokenStatus>,
    sel: Seq<bool>,
    n: int,
)
    ensures
        jobs_upto(files, st, sel, false, n).len() == 0,
    decreases n,
{
    if n > 0 {
        lemma_no_jobs_without_source(files, st, sel, n - 1);
    }
}

} // verus!
