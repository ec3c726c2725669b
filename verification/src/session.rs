//! The interactive session controller: the modal state machine that owns
//! the entry catalog, the live fuzzy filter, theme preview and rollback,
//! and deletion planning. Every transition is a pure step on plain state;
//! the few operations that must touch the world (deleting a directory,
//! writing the configuration) are returned to the caller as an [`Effect`]
//! and their outcome handed back through an `apply_*` method.

use vstd::prelude::*;
use vstd::seq_lib::group_to_multiset_ensures;

use crate::entry::{
    clone_entries, sort_entries_desc, sorted_desc, build_catalog, classifies, insertion_sorted_desc,
    EntryProbe, SortKey, TryEntry,
};
use crate::naming::str_eq;
use crate::themes::Theme;
use crate::trusted::{fuzzy_match, fuzzy_score, pop_char, push_char};

verus! {

/// The terminal outcome of a session: an existing folder, a request to
/// create a new one, or no selection at all.
pub enum SelectionResult {
    /// An explicit folder that is guaranteed to exist already.
    Folder(String),
    /// No existing match; a new folder should be created.
    New(String),
    /// Nothing was selected in the UI; quit.
    NoSelection,
}

/// The exclusive mode tag; every mode but `Normal` is a modal overlay
/// that suspends normal-mode key handling.
#[derive(Clone, Copy, PartialEq, Eq, Structural, Debug)]
pub enum AppMode {
    Normal,
    DeleteConfirm,
    ThemeSelect,
    ConfigSavePrompt,
    ConfigSaveLocationSelect,
    About,
}

/// A key, reduced to what the state machine distinguishes.
#[derive(Clone, Copy, PartialEq, Eq, Structural, Debug)]
pub enum Key {
    Char(char),
    Up,
    Down,
    Enter,
    Esc,
    Backspace,
    Other,
}

/// One key press: the key together with its modifiers. `alt` stands for
/// any modifier besides control and shift.
#[derive(Clone, Copy, PartialEq, Eq, Structural, Debug)]
pub struct KeyPress {
    pub key: Key,
    pub ctrl: bool,
    pub shift: bool,
    pub alt: bool,
}

/// How a confirmed deletion must be carried out.
#[derive(Clone, Copy, PartialEq, Eq, Structural, Debug)]
pub enum DeleteMethod {
    /// Removal through the version-control tool's worktree command.
    WorktreeRemove,
    /// Plain recursive directory removal.
    RecursiveRemove,
}

/// Where the configuration may be persisted when no path is known yet.
#[derive(Clone, Copy, PartialEq, Eq, Structural, Debug)]
pub enum ConfigLocation {
    SystemConfig,
    HomeDirectory,
}

/// What the caller must do after a step: nothing, delete the named
/// catalog entry from disk, or persist the theme.
pub enum Effect {
    Nothing,
    /// Delete the entry with this raw name under the workspace root and
    /// report back through [`App::apply_delete_result`].
    DeleteEntry { name: String },
    /// Persist the theme to the already-known configuration path and
    /// report back through [`App::apply_theme_save_result`].
    SaveTheme { path: String },
    /// Persist the theme to the chosen location and report back through
    /// [`App::apply_location_save_result`].
    SaveThemeAt { location: ConfigLocation },
}

/// The entry with its score replaced.
pub open spec fn with_score(e: TryEntry, s: i64) -> TryEntry {
    TryEntry { score: s, ..e }
}

/// The entries whose raw names the matcher accepts for `q`, in catalog
/// order, each carrying its score.
pub open spec fn scored_matches(entries: Seq<TryEntry>, q: Seq<char>) -> Seq<TryEntry>
    decreases entries.len(),
{
    if entries.len() == 0 {
        Seq::empty()
    } else {
        let init = scored_matches(entries.drop_last(), q);
        match fuzzy_score(entries.last().name@, q) {
            Some(s) => init.push(with_score(entries.last(), s)),
            None => init,
        }
    }
}

proof fn lemma_scored_matches_prop(entries: Seq<TryEntry>, q: Seq<char>, e: TryEntry)
    requires
        scored_matches(entries, q).contains(e),
    ensures
        fuzzy_score(e.name@, q) == Some(e.score),
    decreases entries.len(),
{
    if entries.len() == 0 {
    } else {
        let init = scored_matches(entries.drop_last(), q);
        match fuzzy_score(entries.last().name@, q) {
            Some(s) => {
                if e == with_score(entries.last(), s) {
                    assert(e.name == entries.last().name);
                } else {
                    assert(init.push(with_score(entries.last(), s)).contains(e));
                    let i = choose|i: int|
                        0 <= i < init.push(with_score(entries.last(), s)).len() && init.push(
                            with_score(entries.last(), s),
                        )[i] == e;
                    assert(init[i] == e);
                    lemma_scored_matches_prop(entries.drop_last(), q, e);
                }
            },
            None => {
                lemma_scored_matches_prop(entries.drop_last(), q, e);
            },
        }
    }
}

/// The session state. `filtered_entries` is always the result of running
/// the current query over `all_entries`; `selected_index` is clamped to
/// it.
pub struct App {
    pub query: String,
    pub all_entries: Vec<TryEntry>,
    pub filtered_entries: Vec<TryEntry>,
    pub selected_index: usize,
    pub should_quit: bool,
    pub final_selection: SelectionResult,
    pub mode: AppMode,
    pub status_message: Option<String>,
    pub base_path: String,
    pub theme: Theme,
    pub editor_cmd: Option<String>,
    pub wants_editor: bool,
    pub apply_date_prefix: Option<bool>,
    pub transparent_background: bool,
    pub available_themes: Vec<Theme>,
    pub theme_list_index: usize,
    pub original_theme: Option<Theme>,
    pub original_transparent_background: Option<bool>,
    pub config_path: Option<String>,
    pub config_location_index: usize,
    pub cached_free_space_mb: Option<u64>,
}

impl App {
    /// Every filtered entry carries exactly the score the matcher assigns
    /// to its raw name under the current query.
    pub open spec fn query_matches_ok(self) -> bool {
        forall|i: int|
            0 <= i < self.filtered_entries@.len() ==> fuzzy_score(
                #[trigger] self.filtered_entries@[i].name@,
                self.query@,
            ) == Some(self.filtered_entries@[i].score)
    }

    /// The filtered list is exactly what the current query produces from
    /// the catalog: the catalog itself for an empty query, otherwise the
    /// matching entries ranked by score.
    pub open spec fn filtered_ok(self) -> bool {
        if self.query@.len() == 0 {
            self.filtered_entries@ == self.all_entries@
        } else {
            &&& self.filtered_entries@.to_multiset() == scored_matches(
                self.all_entries@,
                self.query@,
            ).to_multiset()
            &&& sorted_desc(SortKey::ScoreDesc, self.filtered_entries@)
            &&& self.query_matches_ok()
        }
    }

    /// Session well-formedness: the filter relation holds and every list
    /// cursor is in bounds.
    pub open spec fn wf(self) -> bool {
        &&& self.filtered_ok()
        &&& (self.selected_index == 0 || self.selected_index < self.filtered_entries@.len())
        &&& self.available_themes@.len() == 16
        &&& self.theme_list_index < self.available_themes@.len()
        &&& self.config_location_index < 2
    }

    /// Reruns the fuzzy filter over the catalog for the current query and
    /// resets the selection cursor. An empty query reproduces the whole
    /// catalog in unchanged order; a non-empty query keeps exactly the
    /// matching entries, ranked by score, highest first.
    pub fn update_search(&mut self)
        ensures
            *final(self) == (App {
                filtered_entries: final(self).filtered_entries,
                selected_index: 0,
                ..*old(self)
            }),
            final(self).filtered_ok(),
            old(self).query@.len() == 0 ==> final(self).filtered_entries@ == old(self).all_entries@,
            old(self).query@.len() > 0 ==> final(self).filtered_entries@ == insertion_sorted_desc(
                SortKey::ScoreDesc,
                scored_matches(old(self).all_entries@, old(self).query@),
            ),
    {
        if self.query.as_str().is_empty() {
            self.filtered_entries = clone_entries(&self.all_entries);
        } else {
            let mut out: Vec<TryEntry> = Vec::new();
            proof {
                assert(self.all_entries@.subrange(0, 0) =~= Seq::<TryEntry>::empty());
            }
            let mut i: usize = 0;
            while i < self.all_entries.len()
                invariant
                    0 <= i <= self.all_entries@.len(),
                    self == old(self),
                    old(self).query@.len() > 0,
                    out@ == scored_matches(
                        self.all_entries@.subrange(0, i as int),
                        self.query@,
                    ),
                decreases self.all_entries@.len() - i,
            {
                let ghost pre = self.all_entries@.subrange(0, i as int);
                let ghost cur = self.all_entries@.subrange(0, i + 1);
                proof {
                    assert(cur.drop_last() =~= pre);
                    assert(cur.last() == self.all_entries@[i as int]);
                }
                match fuzzy_match(self.all_entries[i].name.as_str(), self.query.as_str()) {
                    Some(score) => {
                        let mut e = self.all_entries[i].clone();
                        e.score = score;
                        proof {
                            assert(e == with_score(self.all_entries@[i as int], score));
                        }
                        out.push(e);
                    },
                    None => {},
                }
                i += 1;
            }
            proof {
                assert(self.all_entries@.subrange(0, self.all_entries@.len() as int)
                    =~= self.all_entries@);
            }
            let ghost matches = scored_matches(self.all_entries@, self.query@);
            let sorted = sort_entries_desc(out, SortKey::ScoreDesc);
            proof {
                broadcast use group_to_multiset_ensures;

                assert forall|t: int| 0 <= t < sorted@.len() implies fuzzy_score(
                    #[trigger] sorted@[t].name@,
                    self.query@,
                ) == Some(sorted@[t].score) by {
                    assert(sorted@.to_multiset().count(sorted@[t]) > 0) by {
                        assert(sorted@.contains(sorted@[t]));
                    }
                    assert(matches.to_multiset().count(sorted@[t]) > 0);
                    assert(matches.contains(sorted@[t]));
                    lemma_scored_matches_prop(self.all_entries@, self.query@, sorted@[t]);
                }
            }
            self.filtered_entries = sorted;
        }
        self.selected_index = 0;
    }

    /// Builds the session state at start: classifies the scanned probes
    /// into the catalog (most recently modified first), adopts the loaded
    /// configuration values, and runs the initial filter for the optional
    /// starting query.
    pub fn new(
        probes: &Vec<EntryProbe>,
        base_path: String,
        theme: Theme,
        editor_cmd: Option<String>,
        config_path: Option<String>,
        apply_date_prefix: Option<bool>,
        transparent_background: bool,
        query: Option<String>,
        cached_free_space_mb: Option<u64>,
    ) -> (app: App)
        ensures
            app.wf(),
            app.mode == AppMode::Normal,
            !app.should_quit,
            app.final_selection is NoSelection,
            !app.wants_editor,
            app.selected_index == 0,
            app.status_message is None,
            app.original_theme is None,
            app.original_transparent_background is None,
            app.theme_list_index == 0,
            app.config_location_index == 0,
            app.theme == theme,
            app.base_path == base_path,
            app.editor_cmd == editor_cmd,
            app.config_path == config_path,
            app.apply_date_prefix == apply_date_prefix,
            app.transparent_background == transparent_background,
            app.cached_free_space_mb == cached_free_space_mb,
            app.query@ == match query {
                Some(q) => q@,
                None => Seq::<char>::empty(),
            },
            app.all_entries@.len() == probes@.len(),
            sorted_desc(SortKey::ModifiedDesc, app.all_entries@),
            exists|mid: Seq<TryEntry>|
                #![trigger mid.len()]
                {
                    &&& mid.len() == probes@.len()
                    &&& (forall|i: int|
                        0 <= i < mid.len() ==> classifies(probes@[i], #[trigger] mid[i]))
                    &&& app.all_entries@ == insertion_sorted_desc(SortKey::ModifiedDesc, mid)
                },
            app.query@.len() == 0 ==> app.filtered_entries@ == app.all_entries@,
    {
        let entries = build_catalog(probes);
        let q = match query {
            Some(q) => q,
            None => String::new(),
        };
        let mut app = App {
            query: q,
            all_entries: entries,
            filtered_entries: Vec::new(),
            selected_index: 0,
            should_quit: false,
            final_selection: SelectionResult::NoSelection,
            mode: AppMode::Normal,
            status_message: None,
            base_path,
            theme,
            editor_cmd,
            wants_editor: false,
            apply_date_prefix,
            transparent_background,
            available_themes: Theme::all(),
            theme_list_index: 0,
            original_theme: None,
            original_transparent_background: None,
            config_path,
            config_location_index: 0,
            cached_free_space_mb,
        };
        app.update_search();
        app
    }

    /// The raw name of the entry under the cursor, if the filtered list
    /// is non-empty.
    pub fn selected_entry_name(&self) -> (r: Option<String>)
        requires
            self.wf(),
        ensures
            match r {
                Some(n) => self.filtered_entries@.len() > 0 && n
                    == self.filtered_entries@[self.selected_index as int].name,
                None => self.filtered_entries@.len() == 0,
            },
    {
        if self.filtered_entries.len() > 0 {
            Some(self.filtered_entries[self.selected_index].name.clone())
        } else {
            None
        }
    }

    /// Interprets one key press under the active mode. The returned
    /// effect names whatever outside work the step calls for; the caller
    /// performs it and reports back through the matching `apply_*`
    /// method.
    pub fn handle_key(&mut self, key: KeyPress) -> (eff: Effect)
        requires
            old(self).wf(),
        ensures
            final(self).wf(),
            step(*old(self), key, *final(self), eff),
    {
        self.status_message = None;
        match self.mode {
            AppMode::Normal => self.handle_key_normal(key),
            AppMode::DeleteConfirm => self.handle_key_delete_confirm(key),
            AppMode::ThemeSelect => self.handle_key_theme_select(key),
            AppMode::ConfigSavePrompt => self.handle_key_config_save_prompt(key),
            AppMode::ConfigSaveLocationSelect => self.handle_key_config_location(key),
            AppMode::About => self.handle_key_about(key),
        }
    }

    fn handle_key_normal(&mut self, key: KeyPress) -> (eff: Effect)
        requires
            old(self).wf(),
        ensures
            final(self).wf(),
            step_normal(*old(self), key, *final(self), eff),
    {
        match key.key {
            Key::Char(c) => {
                if key.ctrl && c == 'c' {
                    self.should_quit = true;
                } else if key.ctrl && c == 'd' {
                    if self.filtered_entries.len() > 0 {
                        self.mode = AppMode::DeleteConfirm;
                    }
                } else if key.ctrl && c == 'e' {
                    if self.editor_cmd.is_some() {
                        if self.filtered_entries.len() > 0 {
                            let n = self.filtered_entries[self.selected_index].name.clone();
                            self.final_selection = SelectionResult::Folder(n);
                            self.wants_editor = true;
                            self.should_quit = true;
                        } else if !self.query.as_str().is_empty() {
                            self.final_selection = SelectionResult::Folder(self.query.clone());
                            self.wants_editor = true;
                            self.should_quit = true;
                        }
                    } else {
                        self.status_message = Some(
                            String::from_str("No editor configured in config.toml"),
                        );
                    }
                } else if key.ctrl && c == 't' {
                    self.original_theme = Some(self.theme.clone());
                    self.original_transparent_background = Some(self.transparent_background);
                    let idx = theme_position(&self.available_themes, self.theme.name.as_str());
                    self.theme_list_index = idx;
                    self.mode = AppMode::ThemeSelect;
                } else if key.ctrl && c == 'a' {
                    self.mode = AppMode::About;
                } else if key.ctrl && (c == 'k' || c == 'p') {
                    if self.selected_index > 0 {
                        self.selected_index = self.selected_index - 1;
                    }
                } else if key.ctrl && (c == 'j' || c == 'n') {
                    let len = self.filtered_entries.len();
                    if len > 0 && self.selected_index < len - 1 {
                        self.selected_index = self.selected_index + 1;
                    }
                } else if key.ctrl && c == 'u' {
                    self.query = String::new();
                    self.update_search();
                } else if !key.ctrl && !key.alt {
                    push_char(&mut self.query, c);
                    self.update_search();
                }
            },
            Key::Backspace => {
                pop_char(&mut self.query);
                self.update_search();
            },
            Key::Up => {
                if self.selected_index > 0 {
                    self.selected_index = self.selected_index - 1;
                }
            },
            Key::Down => {
                let len = self.filtered_entries.len();
                if len > 0 && self.selected_index < len - 1 {
                    self.selected_index = self.selected_index + 1;
                }
            },
            Key::Enter => {
                if self.filtered_entries.len() > 0 {
                    let n = self.filtered_entries[self.selected_index].name.clone();
                    self.final_selection = SelectionResult::Folder(n);
                    self.should_quit = true;
                } else if !self.query.as_str().is_empty() {
                    self.final_selection = SelectionResult::New(self.query.clone());
                    self.should_quit = true;
                }
            },
            Key::Esc => {
                self.should_quit = true;
            },
            Key::Other => {},
        }
        Effect::Nothing
    }

    fn handle_key_delete_confirm(&mut self, key: KeyPress) -> (eff: Effect)
        requires
            old(self).wf(),
        ensures
            final(self).wf(),
            step_delete_confirm(*old(self), key, *final(self), eff),
    {
        match key.key {
            Key::Char(c) => {
                if c == 'y' || c == 'Y' {
                    if self.filtered_entries.len() > 0 {
                        let n = self.filtered_entries[self.selected_index].name.clone();
                        return Effect::DeleteEntry { name: n };
                    } else {
                        self.mode = AppMode::Normal;
                    }
                } else if c == 'n' || c == 'N' {
                    self.mode = AppMode::Normal;
                } else if key.ctrl && c == 'c' {
                    self.should_quit = true;
                }
            },
            Key::Esc => {
                self.mode = AppMode::Normal;
            },
            _ => {},
        }
        Effect::Nothing
    }

    fn restore_theme_snapshot(&mut self)
        ensures
            *final(self) == (App {
                theme: restored_theme(*old(self)),
                transparent_background: restored_transparency(*old(self)),
                original_theme: None,
                original_transparent_background: None,
                ..*old(self)
            }),
    {
        match &self.original_theme {
            Some(t) => {
                self.theme = t.clone();
            },
            None => {},
        }
        self.original_theme = None;
        match self.original_transparent_background {
            Some(b) => {
                self.transparent_background = b;
            },
            None => {},
        }
        self.original_transparent_background = None;
    }

    fn handle_key_theme_select(&mut self, key: KeyPress) -> (eff: Effect)
        requires
            old(self).wf(),
        ensures
            final(self).wf(),
            step_theme_select(*old(self), key, *final(self), eff),
    {
        match key.key {
            Key::Char(c) => {
                if c == ' ' {
                    self.transparent_background = !self.transparent_background;
                } else if key.ctrl && c == 'c' {
                    self.restore_theme_snapshot();
                    self.mode = AppMode::Normal;
                    self.should_quit = true;
                } else if c == 'k' || c == 'p' {
                    self.theme_nav_up();
                } else if c == 'j' || c == 'n' {
                    self.theme_nav_down();
                }
            },
            Key::Up => {
                self.theme_nav_up();
            },
            Key::Down => {
                self.theme_nav_down();
            },
            Key::Esc => {
                self.restore_theme_snapshot();
                self.mode = AppMode::Normal;
            },
            Key::Enter => {
                self.original_theme = None;
                self.original_transparent_background = None;
                self.theme = self.available_themes[self.theme_list_index].clone();
                match &self.config_path {
                    Some(p) => {
                        let path = p.clone();
                        self.mode = AppMode::Normal;
                        return Effect::SaveTheme { path };
                    },
                    None => {
                        self.mode = AppMode::ConfigSavePrompt;
                    },
                }
            },
            _ => {},
        }
        Effect::Nothing
    }

    fn theme_nav_up(&mut self)
        requires
            old(self).theme_list_index < old(self).available_themes@.len(),
        ensures
            theme_nav(*old(self), up_index(old(self).theme_list_index as int), *final(self)),
    {
        if self.theme_list_index > 0 {
            self.theme_list_index = self.theme_list_index - 1;
        }
        self.theme = self.available_themes[self.theme_list_index].clone();
    }

    fn theme_nav_down(&mut self)
        requires
            old(self).theme_list_index < old(self).available_themes@.len(),
        ensures
            theme_nav(
                *old(self),
                down_index(
                    old(self).theme_list_index as int,
                    old(self).available_themes@.len() as int,
                ),
                *final(self),
            ),
    {
        let len = self.available_themes.len();
        if len > 0 && self.theme_list_index < len - 1 {
            self.theme_list_index = self.theme_list_index + 1;
        }
        self.theme = self.available_themes[self.theme_list_index].clone();
    }

    fn handle_key_config_save_prompt(&mut self, key: KeyPress) -> (eff: Effect)
        requires
            old(self).wf(),
        ensures
            final(self).wf(),
            step_config_save_prompt(*old(self), key, *final(self), eff),
    {
        match key.key {
            Key::Char(c) => {
                if c == 'y' || c == 'Y' {
                    self.mode = AppMode::ConfigSaveLocationSelect;
                    self.config_location_index = 0;
                } else if c == 'n' || c == 'N' {
                    self.mode = AppMode::Normal;
                } else if key.ctrl && c == 'c' {
                    self.should_quit = true;
                }
            },
            Key::Enter => {
                self.mode = AppMode::ConfigSaveLocationSelect;
                self.config_location_index = 0;
            },
            Key::Esc => {
                self.mode = AppMode::Normal;
            },
            _ => {},
        }
        Effect::Nothing
    }

    fn handle_key_config_location(&mut self, key: KeyPress) -> (eff: Effect)
        requires
            old(self).wf(),
        ensures
            final(self).wf(),
            step_config_location(*old(self), key, *final(self), eff),
    {
        match key.key {
            Key::Char(c) => {
                if key.ctrl && c == 'c' {
                    self.should_quit = true;
                } else if c == 'k' || c == 'p' {
                    if self.config_location_index > 0 {
                        self.config_location_index = self.config_location_index - 1;
                    }
                } else if c == 'j' || c == 'n' {
                    if self.config_location_index < 1 {
                        self.config_location_index = self.config_location_index + 1;
                    }
                }
            },
            Key::Up => {
                if self.config_location_index > 0 {
                    self.config_location_index = self.config_location_index - 1;
                }
            },
            Key::Down => {
                if self.config_location_index < 1 {
                    self.config_location_index = self.config_location_index + 1;
                }
            },
            Key::Esc => {
                self.mode = AppMode::Normal;
            },
            Key::Enter => {
                let location = if self.config_location_index == 0 {
                    ConfigLocation::SystemConfig
                } else {
                    ConfigLocation::HomeDirectory
                };
                self.mode = AppMode::Normal;
                return Effect::SaveThemeAt { location };
            },
            _ => {},
        }
        Effect::Nothing
    }

    fn handle_key_about(&mut self, key: KeyPress) -> (eff: Effect)
        requires
            old(self).wf(),
        ensures
            final(self).wf(),
            step_about(*old(self), key, *final(self), eff),
    {
        match key.key {
            Key::Esc | Key::Enter => {
                self.mode = AppMode::Normal;
            },
            Key::Char(c) => {
                if c == 'q' || c == ' ' {
                    self.mode = AppMode::Normal;
                } else if key.ctrl && c == 'c' {
                    self.should_quit = true;
                }
            },
            _ => {},
        }
        Effect::Nothing
    }
}

/// The first palette index whose name equals `name`, or the top of the
/// list when no palette carries it.
fn theme_position(themes: &Vec<Theme>, name: &str) -> (r: usize)
    ensures
        is_theme_position(themes@, name@, r as int),
        r == 0 || r < themes@.len(),
{
    let mut i: usize = 0;
    while i < themes.len()
        invariant
            0 <= i <= themes@.len(),
            forall|k: int| 0 <= k < i ==> (#[trigger] themes@[k]).name@ != name@,
        decreases themes@.len() - i,
    {
        if str_eq(themes[i].name.as_str(), name) {
            return i;
        }
        i += 1;
    }
    0
}

/// How a confirmed deletion must be performed: a worktree is removed
/// through the version-control tool, never by plain recursive removal;
/// everything else (a plain directory, a primary git checkout) is removed
/// recursively.
pub fn deletion_method(target_is_worktree: bool) -> (m: DeleteMethod)
    ensures
        (m == DeleteMethod::WorktreeRemove) <==> target_is_worktree,
{
    if target_is_worktree {
        DeleteMethod::WorktreeRemove
    } else {
        DeleteMethod::RecursiveRemove
    }
}

/// A selection cursor moved one step up, stopping at the top.
pub open spec fn up_index(i: int) -> int {
    if i > 0 {
        i - 1
    } else {
        i
    }
}

/// A selection cursor moved one step down, stopping at the last element.
pub open spec fn down_index(i: int, len: int) -> int {
    if i + 1 < len {
        i + 1
    } else {
        i
    }
}

/// `post` is `pre` after the query was replaced by `q` and the filter was
/// rerun: only the filtered list and the (reset) cursor may differ.
pub open spec fn refiltered(pre: App, q: Seq<char>, post: App) -> bool {
    &&& post == (App {
        query: post.query,
        filtered_entries: post.filtered_entries,
        selected_index: 0,
        ..pre
    })
    &&& post.query@ == q
    &&& post.filtered_ok()
}

/// `r` is where the theme list cursor starts when theme selection opens:
/// the first palette carrying the active theme's name, or the top when
/// none does.
pub open spec fn is_theme_position(themes: Seq<Theme>, name: Seq<char>, r: int) -> bool {
    if exists|i: int| 0 <= i < themes.len() && (#[trigger] themes[i]).name@ == name {
        &&& 0 <= r < themes.len()
        &&& themes[r].name@ == name
        &&& forall|k: int| 0 <= k < r ==> (#[trigger] themes[k]).name@ != name
    } else {
        r == 0
    }
}

/// The theme a cancelled preview falls back to.
pub open spec fn restored_theme(pre: App) -> Theme {
    match pre.original_theme {
        Some(t) => t,
        None => pre.theme,
    }
}

/// The transparency flag a cancelled preview falls back to.
pub open spec fn restored_transparency(pre: App) -> bool {
    match pre.original_transparent_background {
        Some(b) => b,
        None => pre.transparent_background,
    }
}

/// The theme list cursor moved to `i2`, with the palette there applied
/// immediately as a live preview.
pub open spec fn theme_nav(pre: App, i2: int, post: App) -> bool {
    &&& 0 <= i2 < pre.available_themes@.len()
    &&& post == (App {
        theme_list_index: i2 as usize,
        theme: pre.available_themes@[i2],
        ..pre
    })
}

/// The normal-mode transition relation; `pre` is the state with any
/// status message already cleared.
pub open spec fn step_normal(pre: App, key: KeyPress, post: App, eff: Effect) -> bool {
    match key.key {
        Key::Char(c) => {
            if key.ctrl && c == 'c' {
                post == (App { should_quit: true, ..pre }) && eff is Nothing
            } else if key.ctrl && c == 'd' {
                &&& post == (App { mode: post.mode, ..pre })
                &&& post.mode == (if pre.filtered_entries@.len() > 0 {
                    AppMode::DeleteConfirm
                } else {
                    pre.mode
                })
                &&& eff is Nothing
            } else if key.ctrl && c == 'e' {
                match pre.editor_cmd {
                    Some(_) => {
                        if pre.filtered_entries@.len() > 0 {
                            &&& post == (App {
                                final_selection: post.final_selection,
                                wants_editor: true,
                                should_quit: true,
                                ..pre
                            })
                            &&& (post.final_selection matches SelectionResult::Folder(n) && n
                                == pre.filtered_entries@[pre.selected_index as int].name)
                            &&& eff is Nothing
                        } else if pre.query@.len() > 0 {
                            &&& post == (App {
                                final_selection: post.final_selection,
                                wants_editor: true,
                                should_quit: true,
                                ..pre
                            })
                            &&& (post.final_selection matches SelectionResult::Folder(n) && n
                                == pre.query)
                            &&& eff is Nothing
                        } else {
                            post == pre && eff is Nothing
                        }
                    },
                    None => {
                        &&& post == (App { status_message: post.status_message, ..pre })
                        &&& (post.status_message matches Some(m) && m@
                            == "No editor configured in config.toml"@)
                        &&& eff is Nothing
                    },
                }
            } else if key.ctrl && c == 't' {
                &&& post == (App {
                    original_theme: Some(pre.theme),
                    original_transparent_background: Some(pre.transparent_background),
                    theme_list_index: post.theme_list_index,
                    mode: AppMode::ThemeSelect,
                    ..pre
                })
                &&& is_theme_position(
                    pre.available_themes@,
                    pre.theme.name@,
                    post.theme_list_index as int,
                )
                &&& eff is Nothing
            } else if key.ctrl && c == 'a' {
                post == (App { mode: AppMode::About, ..pre }) && eff is Nothing
            } else if key.ctrl && (c == 'k' || c == 'p') {
                &&& post == (App {
                    selected_index: up_index(pre.selected_index as int) as usize,
                    ..pre
                })
                &&& eff is Nothing
            } else if key.ctrl && (c == 'j' || c == 'n') {
                &&& post == (App {
                    selected_index: down_index(
                        pre.selected_index as int,
                        pre.filtered_entries@.len() as int,
                    ) as usize,
                    ..pre
                })
                &&& eff is Nothing
            } else if key.ctrl && c == 'u' {
                refiltered(pre, Seq::empty(), post) && eff is Nothing
            } else if !key.ctrl && !key.alt {
                refiltered(pre, pre.query@.push(c), post) && eff is Nothing
            } else {
                post == pre && eff is Nothing
            }
        },
        Key::Backspace => {
            let q2 = if pre.query@.len() > 0 {
                pre.query@.drop_last()
            } else {
                pre.query@
            };
            refiltered(pre, q2, post) && eff is Nothing
        },
        Key::Up => {
            &&& post == (App { selected_index: up_index(pre.selected_index as int) as usize, ..pre })
            &&& eff is Nothing
        },
        Key::Down => {
            &&& post == (App {
                selected_index: down_index(
                    pre.selected_index as int,
                    pre.filtered_entries@.len() as int,
                ) as usize,
                ..pre
            })
            &&& eff is Nothing
        },
        Key::Enter => {
            if pre.filtered_entries@.len() > 0 {
                &&& post == (App {
                    final_selection: post.final_selection,
                    should_quit: true,
                    ..pre
                })
                &&& (post.final_selection matches SelectionResult::Folder(n) && n
                    == pre.filtered_entries@[pre.selected_index as int].name)
                &&& eff is Nothing
            } else if pre.query@.len() > 0 {
                &&& post == (App {
                    final_selection: post.final_selection,
                    should_quit: true,
                    ..pre
                })
                &&& (post.final_selection matches SelectionResult::New(n) && n == pre.query)
                &&& eff is Nothing
            } else {
                post == pre && eff is Nothing
            }
        },
        Key::Esc => post == (App { should_quit: true, ..pre }) && eff is Nothing,
        Key::Other => post == pre && eff is Nothing,
    }
}

/// The delete-confirmation transition relation.
pub open spec fn step_delete_confirm(pre: App, key: KeyPress, post: App, eff: Effect) -> bool {
    match key.key {
        Key::Char(c) => {
            if c == 'y' || c == 'Y' {
                if pre.filtered_entries@.len() > 0 {
                    &&& post == pre
                    &&& (eff matches Effect::DeleteEntry { name } && name
                        == pre.filtered_entries@[pre.selected_index as int].name)
                } else {
                    post == (App { mode: AppMode::Normal, ..pre }) && eff is Nothing
                }
            } else if c == 'n' || c == 'N' {
                post == (App { mode: AppMode::Normal, ..pre }) && eff is Nothing
            } else if key.ctrl && c == 'c' {
                post == (App { should_quit: true, ..pre }) && eff is Nothing
            } else {
                post == pre && eff is Nothing
            }
        },
        Key::Esc => post == (App { mode: AppMode::Normal, ..pre }) && eff is Nothing,
        _ => post == pre && eff is Nothing,
    }
}

/// The theme-selection transition relation: cursor moves preview the
/// hovered palette immediately; Escape (and a force quit) restores the
/// snapshot taken on entry; Enter commits and either persists at the
/// known path or asks where to save.
pub open spec fn step_theme_select(pre: App, key: KeyPress, post: App, eff: Effect) -> bool {
    match key.key {
        Key::Char(c) => {
            if c == ' ' {
                &&& post == (App {
                    transparent_background: !pre.transparent_background,
                    ..pre
                })
                &&& eff is Nothing
            } else if key.ctrl && c == 'c' {
                &&& post == (App {
                    theme: restored_theme(pre),
                    transparent_background: restored_transparency(pre),
                    original_theme: None,
                    original_transparent_background: None,
                    mode: AppMode::Normal,
                    should_quit: true,
                    ..pre
                })
                &&& eff is Nothing
            } else if c == 'k' || c == 'p' {
                theme_nav(pre, up_index(pre.theme_list_index as int), post) && eff is Nothing
            } else if c == 'j' || c == 'n' {
                &&& theme_nav(
                    pre,
                    down_index(pre.theme_list_index as int, pre.available_themes@.len() as int),
                    post,
                )
                &&& eff is Nothing
            } else {
                post == pre && eff is Nothing
            }
        },
        Key::Up => theme_nav(pre, up_index(pre.theme_list_index as int), post) && eff is Nothing,
        Key::Down => {
            &&& theme_nav(
                pre,
                down_index(pre.theme_list_index as int, pre.available_themes@.len() as int),
                post,
            )
            &&& eff is Nothing
        },
        Key::Esc => {
            &&& post == (App {
                theme: restored_theme(pre),
                transparent_background: restored_transparency(pre),
                original_theme: None,
                original_transparent_background: None,
                mode: AppMode::Normal,
                ..pre
            })
            &&& eff is Nothing
        },
        Key::Enter => {
            let chosen = pre.available_themes@[pre.theme_list_index as int];
            match pre.config_path {
                Some(p) => {
                    &&& post == (App {
                        theme: chosen,
                        original_theme: None,
                        original_transparent_background: None,
                        mode: AppMode::Normal,
                        ..pre
                    })
                    &&& (eff matches Effect::SaveTheme { path } && path == p)
                },
                None => {
                    &&& post == (App {
                        theme: chosen,
                        original_theme: None,
                        original_transparent_background: None,
                        mode: AppMode::ConfigSavePrompt,
                        ..pre
                    })
                    &&& eff is Nothing
                },
            }
        },
        _ => post == pre && eff is Nothing,
    }
}

/// The save-prompt transition relation: yes asks where to save, no keeps
/// the in-memory theme without persisting it.
pub open spec fn step_config_save_prompt(pre: App, key: KeyPress, post: App, eff: Effect) -> bool {
    match key.key {
        Key::Char(c) => {
            if c == 'y' || c == 'Y' {
                &&& post == (App {
                    mode: AppMode::ConfigSaveLocationSelect,
                    config_location_index: 0,
                    ..pre
                })
                &&& eff is Nothing
            } else if c == 'n' || c == 'N' {
                post == (App { mode: AppMode::Normal, ..pre }) && eff is Nothing
            } else if key.ctrl && c == 'c' {
                post == (App { should_quit: true, ..pre }) && eff is Nothing
            } else {
                post == pre && eff is Nothing
            }
        },
        Key::Enter => {
            &&& post == (App {
                mode: AppMode::ConfigSaveLocationSelect,
                config_location_index: 0,
                ..pre
            })
            &&& eff is Nothing
        },
        Key::Esc => post == (App { mode: AppMode::Normal, ..pre }) && eff is Nothing,
        _ => post == pre && eff is Nothing,
    }
}

/// The save-location transition relation: a two-item list; Enter persists
/// to the chosen location, Escape cancels without persisting.
pub open spec fn step_config_location(pre: App, key: KeyPress, post: App, eff: Effect) -> bool {
    match key.key {
        Key::Char(c) => {
            if key.ctrl && c == 'c' {
                post == (App { should_quit: true, ..pre }) && eff is Nothing
            } else if c == 'k' || c == 'p' {
                &&& post == (App {
                    config_location_index: up_index(pre.config_location_index as int) as usize,
                    ..pre
                })
                &&& eff is Nothing
            } else if c == 'j' || c == 'n' {
                &&& post == (App {
                    config_location_index: down_index(
                        pre.config_location_index as int,
                        2,
                    ) as usize,
                    ..pre
                })
                &&& eff is Nothing
            } else {
                post == pre && eff is Nothing
            }
        },
        Key::Up => {
            &&& post == (App {
                config_location_index: up_index(pre.config_location_index as int) as usize,
                ..pre
            })
            &&& eff is Nothing
        },
        Key::Down => {
            &&& post == (App {
                config_location_index: down_index(pre.config_location_index as int, 2) as usize,
                ..pre
            })
            &&& eff is Nothing
        },
        Key::Esc => post == (App { mode: AppMode::Normal, ..pre }) && eff is Nothing,
        Key::Enter => {
            &&& post == (App { mode: AppMode::Normal, ..pre })
            &&& (eff matches Effect::SaveThemeAt { location } && location == (
            if pre.config_location_index == 0 {
                ConfigLocation::SystemConfig
            } else {
                ConfigLocation::HomeDirectory
            }))
        },
        _ => post == pre && eff is Nothing,
    }
}

/// The about-overlay transition relation: a small fixed set of keys
/// dismisses it; nothing else has any effect.
pub open spec fn step_about(pre: App, key: KeyPress, post: App, eff: Effect) -> bool {
    match key.key {
        Key::Esc | Key::Enter => post == (App { mode: AppMode::Normal, ..pre }) && eff is Nothing,
        Key::Char(c) => {
            if c == 'q' || c == ' ' {
                post == (App { mode: AppMode::Normal, ..pre }) && eff is Nothing
            } else if key.ctrl && c == 'c' {
                post == (App { should_quit: true, ..pre }) && eff is Nothing
            } else {
                post == pre && eff is Nothing
            }
        },
        _ => post == pre && eff is Nothing,
    }
}

/// The whole transition relation of the session state machine: any
/// pending status message is cleared by the key press, then the key is
/// interpreted under the active mode.
pub open spec fn step(pre: App, key: KeyPress, post: App, eff: Effect) -> bool {
    let cl = App { status_message: None, ..pre };
    match pre.mode {
        AppMode::Normal => step_normal(cl, key, post, eff),
        AppMode::DeleteConfirm => step_delete_confirm(cl, key, post, eff),
        AppMode::ThemeSelect => step_theme_select(cl, key, post, eff),
        AppMode::ConfigSavePrompt => step_config_save_prompt(cl, key, post, eff),
        AppMode::ConfigSaveLocationSelect => step_config_location(cl, key, post, eff),
        AppMode::About => step_about(cl, key, post, eff),
    }
}

/// The catalog with every entry of the given raw name taken out; all
/// other entries stay, in their original relative order.
pub open spec fn entries_without(entries: Seq<TryEntry>, name: Seq<char>) -> Seq<TryEntry> {
    entries.filter(|e: TryEntry| e.name@ != name)
}

/// The workspace path of a named entry.
pub open spec fn joined_path(base: Seq<char>, name: Seq<char>) -> Seq<char> {
    base + seq!['/'] + name
}

/// Length of the first line: the characters before the first newline.
pub open spec fn line_len(s: Seq<char>) -> int
    decreases s.len(),
{
    if s.len() == 0 {
        0
    } else if s[0] == '\n' {
        0
    } else {
        1 + line_len(s.drop_first())
    }
}

/// The first line of a diagnostic text.
pub open spec fn first_line_of(s: Seq<char>) -> Seq<char> {
    s.subrange(0, line_len(s))
}

/// The status line shown after a successful deletion, naming the removed
/// path.
pub open spec fn delete_success_message(method: DeleteMethod, path: Seq<char>) -> Seq<char> {
    match method {
        DeleteMethod::WorktreeRemove => "Worktree removed: "@ + path,
        DeleteMethod::RecursiveRemove => "Deleted: "@ + path,
    }
}

/// The status line shown after a failed deletion: the first line of the
/// diagnostic.
pub open spec fn delete_error_message(err: Seq<char>) -> Seq<char> {
    "Error deleting: "@ + first_line_of(err)
}

/// Splits an elapsed duration in seconds into the whole days, hours and
/// minutes shown beside each entry.
pub fn elapsed_dhm(secs: u64) -> (r: (u64, u64, u64))
    ensures
        r.0 == secs as int / 86400,
        r.1 == (secs as int % 86400) / 3600,
        r.2 == (secs as int % 3600) / 60,
{
    (secs / 86400, (secs % 86400) / 3600, (secs % 3600) / 60)
}

/// Joins the workspace root and an entry name into one path.
pub fn join_path(base: &str, name: &str) -> (r: String)
    ensures
        r@ == joined_path(base@, name@),
{
    proof {
        reveal_strlit("/");
        assert("/"@ =~= seq!['/']);
    }
    let r = String::from_str(base).concat("/").concat(name);
    proof {
        assert(r@ =~= joined_path(base@, name@));
    }
    r
}

proof fn lemma_line_len(s: Seq<char>, i: int)
    requires
        0 <= i <= s.len(),
        forall|k: int| 0 <= k < i ==> s[k] != '\n',
        i < s.len() ==> s[i] == '\n',
    ensures
        line_len(s) == i,
    decreases s.len(),
{
    if i == 0 {
    } else {
        assert(s[0] != '\n');
        lemma_line_len(s.drop_first(), i - 1);
    }
}

/// The first line of a text: everything before the first newline.
fn line_prefix(s: &str) -> (r: String)
    ensures
        r@ == first_line_of(s@),
{
    let n = s.unicode_len();
    let mut i: usize = 0;
    while i < n && s.get_char(i) != '\n'
        invariant
            0 <= i <= n,
            n == s@.len(),
            forall|k: int| 0 <= k < i ==> s@[k] != '\n',
        decreases n - i,
    {
        i += 1;
    }
    proof {
        lemma_line_len(s@, i as int);
    }
    s.substring_char(0, i).to_owned()
}

impl App {
    /// Records the outcome of a confirmed deletion. On success the entry
    /// leaves the in-memory catalog (every other entry stays, in order),
    /// the filter is rerun, and the status line names the removed path.
    /// On failure the catalog is left untouched and the first line of the
    /// diagnostic is surfaced. Either way the session is back in normal
    /// mode.
    pub fn apply_delete_result(
        &mut self,
        name: &String,
        method: DeleteMethod,
        outcome: Result<(), String>,
    )
        requires
            old(self).wf(),
        ensures
            final(self).wf(),
            final(self).mode == AppMode::Normal,
            match outcome {
                Result::Ok(_) => {
                    &&& final(self).all_entries@ == entries_without(
                        old(self).all_entries@,
                        name@,
                    )
                    &&& *final(self) == (App {
                        all_entries: final(self).all_entries,
                        filtered_entries: final(self).filtered_entries,
                        selected_index: 0,
                        status_message: final(self).status_message,
                        mode: AppMode::Normal,
                        ..*old(self)
                    })
                    &&& final(self).filtered_ok()
                    &&& (final(self).status_message matches Some(m) && m@
                        == delete_success_message(
                        method,
                        joined_path(old(self).base_path@, name@),
                    ))
                },
                Result::Err(e) => {
                    &&& *final(self) == (App {
                        status_message: final(self).status_message,
                        mode: AppMode::Normal,
                        ..*old(self)
                    })
                    &&& (final(self).status_message matches Some(m) && m@
                        == delete_error_message(e@))
                },
            },
    {
        match outcome {
            Ok(_) => {
                let mut kept: Vec<TryEntry> = Vec::new();
                proof {
                    reveal(Seq::filter);
                    assert(self.all_entries@.subrange(0, 0) =~= Seq::<TryEntry>::empty());
                    assert(kept@ =~= entries_without(self.all_entries@.subrange(0, 0), name@));
                }
                let mut i: usize = 0;
                while i < self.all_entries.len()
                    invariant
                        0 <= i <= self.all_entries@.len(),
                        self == old(self),
                        kept@ == entries_without(
                            self.all_entries@.subrange(0, i as int),
                            name@,
                        ),
                    decreases self.all_entries@.len() - i,
                {
                    let ghost pre = self.all_entries@.subrange(0, i as int);
                    let ghost cur = self.all_entries@.subrange(0, i + 1);
                    proof {
                        reveal(Seq::filter);
                        assert(cur.drop_last() =~= pre);
                        assert(cur.last() == self.all_entries@[i as int]);
                    }
                    if !str_eq(self.all_entries[i].name.as_str(), name.as_str()) {
                        kept.push(self.all_entries[i].clone());
                    }
                    i += 1;
                }
                proof {
                    assert(self.all_entries@.subrange(0, self.all_entries@.len() as int)
                        =~= self.all_entries@);
                }
                self.all_entries = kept;
                self.update_search();
                let path = join_path(self.base_path.as_str(), name.as_str());
                let msg = match method {
                    DeleteMethod::WorktreeRemove => String::from_str("Worktree removed: ").concat(
                        path.as_str(),
                    ),
                    DeleteMethod::RecursiveRemove => String::from_str("Deleted: ").concat(
                        path.as_str(),
                    ),
                };
                self.status_message = Some(msg);
            },
            Err(e) => {
                let first = line_prefix(e.as_str());
                self.status_message = Some(
                    String::from_str("Error deleting: ").concat(first.as_str()),
                );
            },
        }
        self.mode = AppMode::Normal;
    }

    /// Records the outcome of persisting the theme to the already-known
    /// configuration path: only the status line changes.
    pub fn apply_theme_save_result(&mut self, outcome: Result<(), String>)
        requires
            old(self).wf(),
        ensures
            final(self).wf(),
            *final(self) == (App { status_message: final(self).status_message, ..*old(self) }),
            match outcome {
                Result::Ok(_) => final(self).status_message matches Some(m) && m@
                    == "Theme saved."@,
                Result::Err(e) => final(self).status_message matches Some(m) && m@
                    == "Error saving: "@ + e@,
            },
    {
        match outcome {
            Ok(_) => {
                self.status_message = Some(String::from_str("Theme saved."));
            },
            Err(e) => {
                self.status_message = Some(String::from_str("Error saving: ").concat(e.as_str()));
            },
        }
    }

    /// Records the outcome of persisting the theme to a chosen location:
    /// on success the written path becomes the session's known
    /// configuration path for future saves.
    pub fn apply_location_save_result(&mut self, path: String, outcome: Result<(), String>)
        requires
            old(self).wf(),
        ensures
            final(self).wf(),
            *final(self) == (App {
                config_path: final(self).config_path,
                status_message: final(self).status_message,
                ..*old(self)
            }),
            match outcome {
                Result::Ok(_) => {
                    &&& final(self).config_path == Some(path)
                    &&& (final(self).status_message matches Some(m) && m@ == "Theme saved!"@)
                },
                Result::Err(e) => {
                    &&& final(self).config_path == old(self).config_path
                    &&& (final(self).status_message matches Some(m) && m@
                        == "Error saving config: "@ + e@)
                },
            },
    {
        match outcome {
            Ok(_) => {
                self.config_path = Some(path);
                self.status_message = Some(String::from_str("Theme saved!"));
            },
            Err(e) => {
                self.status_message = Some(
                    String::from_str("Error saving config: ").concat(e.as_str()),
                );
            },
        }
    }
}

/// With a non-empty query, every entry in the filtered result really
/// matches: the matcher accepts its raw name and assigned exactly the
/// score it carries — no false positives.
pub proof fn lemma_filtered_entries_all_match(app: App, i: int)
    requires
        app.wf(),
        app.query@.len() > 0,
        0 <= i < app.filtered_entries@.len(),
    ensures
        fuzzy_score(app.filtered_entries@[i].name@, app.query@) == Some(
            app.filtered_entries@[i].score,
        ),
{
}

/// With an empty query, the filtered result is exactly the whole catalog
/// in unchanged order.
pub proof fn lemma_empty_query_shows_all(app: App)
    requires
        app.wf(),
        app.query@.len() == 0,
    ensures
        app.filtered_entries@ == app.all_entries@,
{
}

/// The selection cursor never points outside a non-empty filtered list,
/// and a refiltering step always resets it to the top.
pub proof fn lemma_selection_in_bounds(pre: App, q: Seq<char>, post: App)
    requires
        refiltered(pre, q, post),
    ensures
        post.selected_index == 0,
{
}

/// Opening theme selection takes a snapshot of exactly the active theme
/// and transparency flag, for a later rollback.
pub proof fn lemma_theme_entry_takes_snapshot(pre: App, key: KeyPress, post: App, eff: Effect)
    requires
        pre.mode == AppMode::Normal,
        key.key == Key::Char('t'),
        key.ctrl,
        step(pre, key, post, eff),
    ensures
        post.original_theme == Some(pre.theme),
        post.original_transparent_background == Some(pre.transparent_background),
        post.mode == AppMode::ThemeSelect,
{
}

/// Any theme-selection step that stays in theme selection — previews and
/// the transparency toggle included — leaves the rollback snapshot
/// untouched.
pub proof fn lemma_theme_preview_keeps_snapshot(pre: App, key: KeyPress, post: App, eff: Effect)
    requires
        pre.mode == AppMode::ThemeSelect,
        step(pre, key, post, eff),
        post.mode == AppMode::ThemeSelect,
    ensures
        post.original_theme == pre.original_theme,
        post.original_transparent_background == pre.original_transparent_background,
{
}

/// Cancelling theme selection restores exactly the theme and the
/// transparency flag held in the snapshot — the preview is discarded.
pub proof fn lemma_theme_rollback_restores(
    pre: App,
    theme0: Theme,
    transparent0: bool,
    key: KeyPress,
    post: App,
    eff: Effect,
)
    requires
        pre.mode == AppMode::ThemeSelect,
        pre.original_theme == Some(theme0),
        pre.original_transparent_background == Some(transparent0),
        key.key == Key::Esc,
        step(pre, key, post, eff),
    ensures
        post.theme == theme0,
        post.transparent_background == transparent0,
        post.mode == AppMode::Normal,
        post.original_theme is None,
        post.original_transparent_background is None,
{
}

} // verus!
