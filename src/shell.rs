use vstd::prelude::*;

use crate::config::{adjust_quality, adjusted_quality, ConversionConfig, OutputFormat};
use crate::converter::ConvertError;
use crate::files::{has_gpr_extension, is_gpr_file, GprFile};
use crate::paths::{parent_of, path_parent};

verus! {

/// The screen the shell shows.
#[derive(Debug, Clone, Copy, PartialEq, Eq, Structural)]
pub enum AppState {
    MainMenu,
    FileBrowser,
    FileInfo,
    ConversionConfig,
    Converting,
    Complete,
    Error,
}

/// The entries of the main menu, in order.
#[derive(Debug, Clone, Copy, PartialEq, Eq, Structural)]
pub enum MainMenuItem {
    BrowseFiles,
    BatchConvert,
    Settings,
    Help,
    Quit,
}

pub const MENU_LEN: usize = 5;

/// The options of the conversion screen: format, quality, metadata, output directory.
pub const CONFIG_OPTIONS: usize = 4;

pub open spec fn menu_items() -> Seq<MainMenuItem> {
    seq![
        MainMenuItem::BrowseFiles,
        MainMenuItem::BatchConvert,
        MainMenuItem::Settings,
        MainMenuItem::Help,
        MainMenuItem::Quit,
    ]
}

impl MainMenuItem {
    /// The entry's label.
    pub fn as_str(&self) -> (r: &'static str)
        ensures
            r@ == match self {
                MainMenuItem::BrowseFiles => "Browse and Convert Files"@,
                MainMenuItem::BatchConvert => "Batch Convert Directory"@,
                MainMenuItem::Settings => "Settings"@,
                MainMenuItem::Help => "Help"@,
                MainMenuItem::Quit => "Quit"@,
            },
    {
        match self {
            MainMenuItem::BrowseFiles => "Browse and Convert Files",
            MainMenuItem::BatchConvert => "Batch Convert Directory",
            MainMenuItem::Settings => "Settings",
            MainMenuItem::Help => "Help",
            MainMenuItem::Quit => "Quit",
        }
    }

    /// Every entry, in menu order.
    pub fn all() -> (r: Vec<MainMenuItem>)
        ensures
            r@ == menu_items(),
    {
        let r = vec![
            MainMenuItem::BrowseFiles,
            MainMenuItem::BatchConvert,
            MainMenuItem::Settings,
            MainMenuItem::Help,
            MainMenuItem::Quit,
        ];
        assert(r@ =~= menu_items());
        r
    }
}

/// The message shown for a menu entry that does nothing yet.
pub open spec fn unavailable_message(item: MainMenuItem) -> Seq<char> {
    match item {
        MainMenuItem::BatchConvert => "Batch convert not yet implemented"@,
        MainMenuItem::Settings => "Settings not yet implemented"@,
        _ => "Help screen not yet implemented"@,
    }
}

/// A directory entry as listed: its path, and whether it is itself a directory.
#[derive(Debug, Clone)]
pub struct DirEntry {
    pub path: String,
    pub is_dir: bool,
}

/// Outside work that a transition asks the caller to do, and hand back the result of.
#[derive(Debug, Clone)]
pub enum ShellRequest {
    Nothing,
    /// List `current_directory` and pass the entries to `load_directory`.
    ListDirectory,
    /// Read the file's size and metadata and pass it to `open_file`.
    OpenFile(String),
    /// Convert the selected file and pass the outcome to `finish_conversion`.
    Convert,
}

/// Entries shown by the browser: directories, and files with a `.gpr` extension.
pub open spec fn listed(e: DirEntry) -> bool {
    e.is_dir || has_gpr_extension(e.path@)
}

/// Texts in the order of their characters, which for UTF-8 is the order of their bytes.
pub open spec fn text_le(a: Seq<char>, b: Seq<char>) -> bool
    decreases a.len(),
{
    if a.len() == 0 {
        true
    } else if b.len() == 0 {
        false
    } else if (a[0] as u32) != (b[0] as u32) {
        (a[0] as u32) < (b[0] as u32)
    } else {
        text_le(a.drop_first(), b.drop_first())
    }
}

pub open spec fn sorted_by_path(s: Seq<DirEntry>) -> bool {
    forall|i: int, j: int| 0 <= i < j < s.len() ==> text_le(s[i].path@, s[j].path@)
}

/// Any two texts are ordered one way or the other.
proof fn lemma_text_le_total(a: Seq<char>, b: Seq<char>)
    ensures
        text_le(a, b) || text_le(b, a),
    decreases a.len(),
{
    if a.len() > 0 && b.len() > 0 && (a[0] as u32) == (b[0] as u32) {
        lemma_text_le_total(a.drop_first(), b.drop_first());
    }
}

/// The order of texts is transitive.
proof fn lemma_text_le_transitive(a: Seq<char>, b: Seq<char>, c: Seq<char>)
    requires
        text_le(a, b),
        text_le(b, c),
    ensures
        text_le(a, c),
    decreases a.len(),
{
    if a.len() > 0 && b.len() > 0 && c.len() > 0 && (a[0] as u32) == (b[0] as u32) && (b[0] as u32)
        == (c[0] as u32) {
        lemma_text_le_transitive(a.drop_first(), b.drop_first(), c.drop_first());
    }
}

/// Whether `a` comes no later than `b` in the order of their characters.
pub fn text_le_exec(a: &str, b: &str) -> (r: bool)
    ensures
        r == text_le(a@, b@),
{
    let n = a.unicode_len();
    let m = b.unicode_len();
    let mut i: usize = 0;
    assert(a@.subrange(0, n as int) =~= a@);
    assert(b@.subrange(0, m as int) =~= b@);
    while i < n && i < m && (a.get_char(i) as u32) == (b.get_char(i) as u32)
        invariant
            i <= n,
            i <= m,
            n == a@.len(),
            m == b@.len(),
            text_le(a@, b@) == text_le(a@.subrange(i as int, n as int), b@.subrange(i as int, m as int)),
        decreases n - i,
    {
        assert(a@.subrange(i as int, n as int).drop_first() =~= a@.subrange(i + 1, n as int));
        assert(b@.subrange(i as int, m as int).drop_first() =~= b@.subrange(i + 1, m as int));
        i = i + 1;
    }
    if i == n {
        true
    } else if i == m {
        false
    } else {
        (a.get_char(i) as u32) < (b.get_char(i) as u32)
    }
}

/// The same entries, ordered by path, character by character. For the entries of one
/// directory, which share everything up to their final component, this is the order of
/// path components as well.
fn sort_by_path(v: Vec<DirEntry>) -> (r: Vec<DirEntry>)
    ensures
        r@.to_multiset() == v@.to_multiset(),
        sorted_by_path(r@),
{
    broadcast use vstd::seq_lib::group_to_multiset_ensures;

    let mut out: Vec<DirEntry> = Vec::new();
    let mut i: usize = 0;
    while i < v.len()
        invariant
            i <= v@.len(),
            sorted_by_path(out@),
            out@.to_multiset() == v@.subrange(0, i as int).to_multiset(),
        decreases v@.len() - i,
    {
        let e = DirEntry { path: v[i].path.clone(), is_dir: v[i].is_dir };
        let mut p: usize = 0;
        while p < out.len() && text_le_exec(out[p].path.as_str(), e.path.as_str())
            invariant
                p <= out@.len(),
                forall|k: int| 0 <= k < p ==> text_le(#[trigger] out@[k].path@, e.path@),
            decreases out@.len() - p,
        {
            p = p + 1;
        }
        assert forall|k: int| p <= k < out@.len() implies text_le(e.path@, #[trigger] out@[k].path@) by {
            lemma_text_le_total(out@[p as int].path@, e.path@);
            if k > p {
                lemma_text_le_transitive(e.path@, out@[p as int].path@, out@[k].path@);
            }
        }
        let ghost before = out@;
        out.insert(p, e);
        assert forall|a: int, b: int| 0 <= a < b < out@.len() implies text_le(
            out@[a].path@,
            out@[b].path@,
        ) by {
            if b < p {
            } else if b == p {
            } else if a < p {
                assert(out@[b] == before[b - 1]);
            } else if a == p {
                assert(out@[b] == before[b - 1]);
            } else {
                assert(out@[a] == before[a - 1] && out@[b] == before[b - 1]);
            }
        }
        proof {
            vstd::seq_lib::to_multiset_insert(before, p as int, e);
            assert(out@ == before.insert(p as int, e));
            assert(e == v@[i as int]);
            assert(v@.subrange(0, i + 1) =~= v@.subrange(0, i as int).push(v@[i as int]));
            v@.subrange(0, i as int).to_multiset_ensures();
        }
        i = i + 1;
    }
    assert(v@.subrange(0, v@.len() as int) =~= v@);
    out
}

/// The state of the interactive shell.
pub struct App {
    pub state: AppState,
    pub main_menu_index: usize,
    pub current_directory: String,
    pub files: Vec<DirEntry>,
    pub file_index: usize,
    pub selected_file: Option<GprFile>,
    pub conversion_config: ConversionConfig,
    pub config_option_index: usize,
    /// Percent done of the running conversion.
    pub conversion_progress: u8,
    pub error_message: Option<String>,
    pub success_message: Option<String>,
}

impl App {
    /// The indices point into the menu, the listing and the options.
    pub open spec fn wf(&self) -> bool {
        &&& self.main_menu_index < MENU_LEN
        &&& self.config_option_index < CONFIG_OPTIONS
        &&& (self.file_index < self.files@.len() || (self.files@.len() == 0 && self.file_index
            == 0))
    }

    /// The browser's place: its directory, listing and cursor.
    pub open spec fn same_browser(&self, other: &App) -> bool {
        &&& self.current_directory@ == other.current_directory@
        &&& self.files@ == other.files@
        &&& self.file_index == other.file_index
    }

    /// The chosen file, the settings, the progress and the messages.
    pub open spec fn same_session(&self, other: &App) -> bool {
        &&& self.selected_file == other.selected_file
        &&& self.conversion_config == other.conversion_config
        &&& self.config_option_index == other.config_option_index
        &&& self.conversion_progress == other.conversion_progress
        &&& self.error_message == other.error_message
        &&& self.success_message == other.success_message
    }

    /// The progress and the two messages.
    pub open spec fn same_messages(&self, other: &App) -> bool {
        &&& self.conversion_progress == other.conversion_progress
        &&& self.error_message == other.error_message
        &&& self.success_message == other.success_message
    }

    /// A shell at its main menu, browsing from `current_directory`.
    pub fn new(current_directory: String) -> (r: App)
        ensures
            r.wf(),
            r.state == AppState::MainMenu,
            r.main_menu_index == 0,
            r.current_directory@ == current_directory@,
            r.files@.len() == 0,
            r.selected_file is None,
            r.conversion_config.output_format == OutputFormat::Jpeg,
            r.conversion_config.quality == 95,
            r.conversion_config.output_directory is None,
            r.conversion_config.preserve_metadata,
            r.config_option_index == 0,
            r.conversion_progress == 0,
            r.error_message is None,
            r.success_message is None,
    {
        App {
            state: AppState::MainMenu,
            main_menu_index: 0,
            current_directory,
            files: Vec::new(),
            file_index: 0,
            selected_file: None,
            conversion_config: ConversionConfig::default(),
            config_option_index: 0,
            conversion_progress: 0,
            error_message: None,
            success_message: None,
        }
    }

    /// Moves the menu cursor down, wrapping to the top.
    pub fn next_menu_item(&mut self)
        requires
            old(self).wf(),
        ensures
            final(self).wf(),
            final(self).same_browser(&*old(self)),
            final(self).same_session(&*old(self)),
            final(self).main_menu_index == (old(self).main_menu_index + 1) % (MENU_LEN as int),
            final(self).state == old(self).state,
    {
        self.main_menu_index = (self.main_menu_index + 1) % MENU_LEN;
    }

    /// Moves the menu cursor up, wrapping to the bottom.
    pub fn previous_menu_item(&mut self)
        requires
            old(self).wf(),
        ensures
            final(self).wf(),
            final(self).same_browser(&*old(self)),
            final(self).same_session(&*old(self)),
            final(self).main_menu_index == if old(self).main_menu_index == 0 {
                MENU_LEN - 1
            } else {
                old(self).main_menu_index - 1
            },
            final(self).state == old(self).state,
    {
        self.main_menu_index = if self.main_menu_index == 0 {
            MENU_LEN - 1
        } else {
            self.main_menu_index - 1
        };
    }

    /// Acts on the menu entry under the cursor: browsing lists the current directory; the
    /// entries that are not available show a message; quitting is left to the caller.
    pub fn select_menu_item(&mut self) -> (r: ShellRequest)
        requires
            old(self).wf(),
        ensures
            final(self).wf(),
            final(self).same_browser(&*old(self)),
            final(self).selected_file == old(self).selected_file,
            final(self).conversion_config == old(self).conversion_config,
            final(self).main_menu_index == old(self).main_menu_index,
            match menu_items()[old(self).main_menu_index as int] {
                MainMenuItem::BrowseFiles => final(self).state == AppState::FileBrowser
                    && r is ListDirectory && final(self).error_message == old(self).error_message,
                MainMenuItem::Quit => final(self).state == old(self).state && r is Nothing
                    && final(self).error_message == old(self).error_message,
                item => final(self).state == AppState::Error && r is Nothing
                    && final(self).error_message is Some
                    && final(self).error_message->Some_0@ == unavailable_message(item),
            },
            final(self).success_message == old(self).success_message,
            final(self).conversion_progress == old(self).conversion_progress,
            final(self).config_option_index == old(self).config_option_index,
    {
        let items = MainMenuItem::all();
        match items[self.main_menu_index] {
            MainMenuItem::BrowseFiles => {
                self.state = AppState::FileBrowser;
                ShellRequest::ListDirectory
            },
            MainMenuItem::BatchConvert => {
                self.error_message = Some(
                    String::from_str("Batch convert not yet implemented"),
                );
                self.state = AppState::Error;
                ShellRequest::Nothing
            },
            MainMenuItem::Settings => {
                self.error_message = Some(
                    String::from_str("Settings not yet implemented"),
                );
                self.state = AppState::Error;
                ShellRequest::Nothing
            },
            MainMenuItem::Help => {
                self.error_message = Some(
                    String::from_str("Help screen not yet implemented"),
                );
                self.state = AppState::Error;
                ShellRequest::Nothing
            },
            MainMenuItem::Quit => ShellRequest::Nothing,
        }
    }

    /// Shows a directory listing: its subdirectories and `.gpr` files, ordered by path,
    /// with the cursor on the first.
    pub fn load_directory(&mut self, entries: Vec<DirEntry>)
        requires
            old(self).wf(),
        ensures
            final(self).wf(),
            final(self).same_session(&*old(self)),
            final(self).main_menu_index == old(self).main_menu_index,
            final(self).files@.to_multiset() == entries@.filter(|e: DirEntry| listed(e)).to_multiset(),
            sorted_by_path(final(self).files@),
            final(self).file_index == 0,
            final(self).state == old(self).state,
            final(self).current_directory@ == old(self).current_directory@,
    {
        let mut kept: Vec<DirEntry> = Vec::new();
        let mut i: usize = 0;
        while i < entries.len()
            invariant
                i <= entries@.len(),
                kept@ == entries@.subrange(0, i as int).filter(|e: DirEntry| listed(e)),
            decreases entries@.len() - i,
        {
            let e = &entries[i];
            assert(entries@.subrange(0, i + 1).drop_last() =~= entries@.subrange(0, i as int));
            proof {
                reveal(Seq::filter);
            }
            if e.is_dir || is_gpr_file(e.path.as_str()) {
                kept.push(DirEntry { path: e.path.clone(), is_dir: e.is_dir });
            }
            i = i + 1;
        }
        assert(entries@.subrange(0, entries@.len() as int) =~= entries@);
        self.files = sort_by_path(kept);
        self.file_index = 0;
    }

    /// Moves the browser cursor down, wrapping to the top.
    pub fn next_file(&mut self)
        requires
            old(self).wf(),
        ensures
            final(self).wf(),
            final(self).same_session(&*old(self)),
            final(self).main_menu_index == old(self).main_menu_index,
            final(self).state == old(self).state,
            final(self).current_directory@ == old(self).current_directory@,
            final(self).files@ == old(self).files@,
            old(self).files@.len() > 0 ==> final(self).file_index == (old(self).file_index + 1)
                % (old(self).files@.len() as int),
            old(self).files@.len() == 0 ==> final(self).file_index == old(self).file_index,
    {
        if self.files.len() > 0 {
            self.file_index = (self.file_index + 1) % self.files.len();
        }
    }

    /// Moves the browser cursor up, wrapping to the bottom.
    pub fn previous_file(&mut self)
        requires
            old(self).wf(),
        ensures
            final(self).wf(),
            final(self).same_session(&*old(self)),
            final(self).main_menu_index == old(self).main_menu_index,
            final(self).state == old(self).state,
            final(self).current_directory@ == old(self).current_directory@,
            final(self).files@ == old(self).files@,
            old(self).files@.len() > 0 ==> final(self).file_index == if old(self).file_index == 0 {
                old(self).files@.len() - 1
            } else {
                old(self).file_index - 1
            },
            old(self).files@.len() == 0 ==> final(self).file_index == old(self).file_index,
    {
        if self.files.len() > 0 {
            self.file_index = if self.file_index == 0 {
                self.files.len() - 1
            } else {
                self.file_index - 1
            };
        }
    }

    /// Acts on the entry under the cursor: enters a directory, which then needs listing, or
    /// asks for a `.gpr` file to be opened.
    pub fn select_file(&mut self) -> (r: ShellRequest)
        requires
            old(self).wf(),
        ensures
            final(self).wf(),
            final(self).same_session(&*old(self)),
            final(self).main_menu_index == old(self).main_menu_index,
            final(self).files@ == old(self).files@,
            final(self).file_index == old(self).file_index,
            final(self).state == old(self).state,
            old(self).files@.len() == 0 ==> r is Nothing && final(self).current_directory@ == old(
                self,
            ).current_directory@,
            old(self).files@.len() > 0 ==> ({
                let e = old(self).files@[old(self).file_index as int];
                if e.is_dir {
                    final(self).current_directory@ == e.path@ && r is ListDirectory
                } else if has_gpr_extension(e.path@) {
                    final(self).current_directory@ == old(self).current_directory@ && r
                        == ShellRequest::OpenFile(e.path)
                } else {
                    final(self).current_directory@ == old(self).current_directory@ && r is Nothing
                }
            }),
    {
        if self.file_index >= self.files.len() {
            return ShellRequest::Nothing;
        }
        let e = &self.files[self.file_index];
        if e.is_dir {
            self.current_directory = e.path.clone();
            ShellRequest::ListDirectory
        } else if is_gpr_file(e.path.as_str()) {
            ShellRequest::OpenFile(e.path.clone())
        } else {
            ShellRequest::Nothing
        }
    }

    /// Shows an opened file's information.
    pub fn open_file(&mut self, file: GprFile)
        requires
            old(self).wf(),
        ensures
            final(self).wf(),
            final(self).same_messages(&*old(self)),
            final(self).config_option_index == old(self).config_option_index,
            final(self).same_browser(&*old(self)),
            final(self).main_menu_index == old(self).main_menu_index,
            final(self).conversion_config == old(self).conversion_config,
            final(self).selected_file == Some(file),
            final(self).state == AppState::FileInfo,
    {
        self.selected_file = Some(file);
        self.state = AppState::FileInfo;
    }

    /// Moves up to the parent directory, which then needs listing; stays at a root.
    pub fn go_to_parent_directory(&mut self) -> (r: ShellRequest)
        requires
            old(self).wf(),
        ensures
            final(self).wf(),
            final(self).same_session(&*old(self)),
            final(self).main_menu_index == old(self).main_menu_index,
            final(self).files@ == old(self).files@,
            final(self).file_index == old(self).file_index,
            final(self).state == old(self).state,
            match parent_of(old(self).current_directory@) {
                Some(p) => final(self).current_directory@ == p && r is ListDirectory,
                None => final(self).current_directory@ == old(self).current_directory@
                    && r is Nothing,
            },
    {
        match path_parent(self.current_directory.as_str()) {
            Some(p) => {
                self.current_directory = p;
                ShellRequest::ListDirectory
            },
            None => ShellRequest::Nothing,
        }
    }

    /// Leaves the file information for the browser, forgetting the file.
    pub fn back_to_file_browser(&mut self)
        requires
            old(self).wf(),
        ensures
            final(self).wf(),
            final(self).same_messages(&*old(self)),
            final(self).config_option_index == old(self).config_option_index,
            final(self).same_browser(&*old(self)),
            final(self).main_menu_index == old(self).main_menu_index,
            final(self).conversion_config == old(self).conversion_config,
            final(self).selected_file is None,
            final(self).state == AppState::FileBrowser,
    {
        self.selected_file = None;
        self.state = AppState::FileBrowser;
    }

    /// Opens the conversion settings with the cursor on the first option.
    pub fn go_to_conversion_config(&mut self)
        requires
            old(self).wf(),
        ensures
            final(self).wf(),
            final(self).same_messages(&*old(self)),
            final(self).same_browser(&*old(self)),
            final(self).main_menu_index == old(self).main_menu_index,
            final(self).conversion_config == old(self).conversion_config,
            final(self).state == AppState::ConversionConfig,
            final(self).config_option_index == 0,
            final(self).selected_file == old(self).selected_file,
    {
        self.state = AppState::ConversionConfig;
        self.config_option_index = 0;
    }

    /// Leaves the conversion settings for the file information.
    pub fn back_to_file_info(&mut self)
        requires
            old(self).wf(),
        ensures
            final(self).wf(),
            final(self).same_messages(&*old(self)),
            final(self).same_browser(&*old(self)),
            final(self).main_menu_index == old(self).main_menu_index,
            final(self).conversion_config == old(self).conversion_config,
            final(self).config_option_index == old(self).config_option_index,
            final(self).state == AppState::FileInfo,
            final(self).selected_file == old(self).selected_file,
    {
        self.state = AppState::FileInfo;
    }

    /// Moves the option cursor down, wrapping to the top.
    pub fn next_config_option(&mut self)
        requires
            old(self).wf(),
        ensures
            final(self).wf(),
            final(self).same_messages(&*old(self)),
            final(self).same_browser(&*old(self)),
            final(self).main_menu_index == old(self).main_menu_index,
            final(self).state == old(self).state,
            final(self).selected_file == old(self).selected_file,
            final(self).conversion_config == old(self).conversion_config,
            final(self).config_option_index == (old(self).config_option_index + 1) % (
            CONFIG_OPTIONS as int),
    {
        self.config_option_index = (self.config_option_index + 1) % CONFIG_OPTIONS;
    }

    /// Moves the option cursor up, wrapping to the bottom.
    pub fn previous_config_option(&mut self)
        requires
            old(self).wf(),
        ensures
            final(self).wf(),
            final(self).same_messages(&*old(self)),
            final(self).same_browser(&*old(self)),
            final(self).main_menu_index == old(self).main_menu_index,
            final(self).state == old(self).state,
            final(self).selected_file == old(self).selected_file,
            final(self).conversion_config == old(self).conversion_config,
            final(self).config_option_index == if old(self).config_option_index == 0 {
                CONFIG_OPTIONS - 1
            } else {
                old(self).config_option_index - 1
            },
    {
        self.config_option_index = if self.config_option_index == 0 {
            CONFIG_OPTIONS - 1
        } else {
            self.config_option_index - 1
        };
    }

    /// Changes the option under the cursor: toggles the format, moves the JPEG quality by
    /// `delta` steps of five within 1 to 100, or toggles metadata preservation. The output
    /// directory is not changed here.
    pub fn adjust_config_option(&mut self, delta: i32)
        requires
            old(self).wf(),
        ensures
            final(self).wf(),
            final(self).same_messages(&*old(self)),
            final(self).same_browser(&*old(self)),
            final(self).main_menu_index == old(self).main_menu_index,
            final(self).state == old(self).state,
            final(self).selected_file == old(self).selected_file,
            final(self).config_option_index == old(self).config_option_index,
            final(self).conversion_config.output_directory == old(
                self,
            ).conversion_config.output_directory,
            ({
                let (o, n) = (old(self).conversion_config, final(self).conversion_config);
                let i = old(self).config_option_index;
                &&& n.output_format == if i == 0 {
                    match o.output_format {
                        OutputFormat::Jpeg => OutputFormat::Png,
                        OutputFormat::Png => OutputFormat::Jpeg,
                    }
                } else {
                    o.output_format
                }
                &&& n.quality == if i == 1 && o.output_format == OutputFormat::Jpeg {
                    adjusted_quality(o.quality as int, delta as int)
                } else {
                    o.quality as int
                }
                &&& n.preserve_metadata == if i == 2 {
                    !o.preserve_metadata
                } else {
                    o.preserve_metadata
                }
            }),
    {
        if self.config_option_index == 0 {
            self.conversion_config.output_format = match self.conversion_config.output_format {
                OutputFormat::Jpeg => OutputFormat::Png,
                OutputFormat::Png => OutputFormat::Jpeg,
            };
        } else if self.config_option_index == 1 {
            if self.conversion_config.output_format == OutputFormat::Jpeg {
                self.conversion_config.quality = adjust_quality(
                    self.conversion_config.quality,
                    delta,
                );
            }
        } else if self.config_option_index == 2 {
            self.conversion_config.preserve_metadata = !self.conversion_config.preserve_metadata;
        }
    }

    /// Starts converting the selected file, if there is one.
    pub fn start_conversion(&mut self) -> (r: ShellRequest)
        requires
            old(self).wf(),
        ensures
            final(self).wf(),
            final(self).error_message == old(self).error_message,
            final(self).success_message == old(self).success_message,
            final(self).config_option_index == old(self).config_option_index,
            old(self).selected_file is None ==> final(self).same_session(&*old(self)),
            final(self).same_browser(&*old(self)),
            final(self).main_menu_index == old(self).main_menu_index,
            final(self).conversion_config == old(self).conversion_config,
            final(self).selected_file == old(self).selected_file,
            old(self).selected_file is Some ==> final(self).state == AppState::Converting
                && final(self).conversion_progress == 0 && r is Convert,
            old(self).selected_file is None ==> final(self).state == old(self).state
                && r is Nothing,
    {
        if self.selected_file.is_some() {
            self.state = AppState::Converting;
            self.conversion_progress = 0;
            ShellRequest::Convert
        } else {
            ShellRequest::Nothing
        }
    }

    /// Records how a conversion ended: the output path, or the error.
    pub fn finish_conversion(&mut self, outcome: Result<String, ConvertError>)
        requires
            old(self).wf(),
        ensures
            final(self).wf(),
            final(self).config_option_index == old(self).config_option_index,
            final(self).same_browser(&*old(self)),
            final(self).selected_file == old(self).selected_file,
            final(self).conversion_config == old(self).conversion_config,
            final(self).main_menu_index == old(self).main_menu_index,
            match outcome {
                Ok(p) => {
                    &&& final(self).state == AppState::Complete
                    &&& final(self).conversion_progress == 100
                    &&& final(self).success_message is Some
                    &&& final(self).success_message->Some_0@
                        == "Conversion completed successfully!\n\nOutput: "@ + p@
                },
                Err(e) => {
                    &&& final(self).state == AppState::Error
                    &&& final(self).error_message is Some
                    &&& final(self).error_message->Some_0@ == "Conversion failed: "@
                        + crate::converter::error_text(e)
                },
            },
    {
        match outcome {
            Ok(p) => {
                let mut s = String::from_str("Conversion completed successfully!\n\nOutput: ");
                s.append(p.as_str());
                self.conversion_progress = 100;
                self.success_message = Some(s);
                self.state = AppState::Complete;
            },
            Err(e) => {
                let mut s = String::from_str("Conversion failed: ");
                let d = e.describe();
                s.append(d.as_str());
                self.error_message = Some(s);
                self.state = AppState::Error;
            },
        }
    }

    /// Returns to the conversion settings; a conversion already running is not stopped.
    pub fn cancel_conversion(&mut self)
        requires
            old(self).wf(),
        ensures
            final(self).wf(),
            final(self).error_message == old(self).error_message,
            final(self).success_message == old(self).success_message,
            final(self).config_option_index == old(self).config_option_index,
            final(self).same_browser(&*old(self)),
            final(self).selected_file == old(self).selected_file,
            final(self).conversion_config == old(self).conversion_config,
            final(self).main_menu_index == old(self).main_menu_index,
            final(self).state == AppState::ConversionConfig,
            final(self).conversion_progress == 0,
    {
        self.state = AppState::ConversionConfig;
        self.conversion_progress = 0;
    }

    /// Returns to the main menu, forgetting the file and any message.
    pub fn back_to_main_menu(&mut self)
        requires
            old(self).wf(),
        ensures
            final(self).wf(),
            final(self).config_option_index == old(self).config_option_index,
            final(self).same_browser(&*old(self)),
            final(self).main_menu_index == old(self).main_menu_index,
            final(self).conversion_config == old(self).conversion_config,
            final(self).state == AppState::MainMenu,
            final(self).selected_file is None,
            final(self).error_message is None,
            final(self).success_message is None,
            final(self).conversion_progress == 0,
    {
        self.state = AppState::MainMenu;
        self.selected_file = None;
        self.error_message = None;
        self.success_message = None;
        self.conversion_progress = 0;
    }
}

} // verus!
