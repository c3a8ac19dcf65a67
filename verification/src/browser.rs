//! The browser's state machine: which panel is active, what each list has
//! selected, the loaded chapter, the verse cursor and copy range, search
//! and bookmark modes, the note editor and side-by-side comparison.
use vstd::prelude::*;
use std::time::Instant;
use crate::books::{self, BOOK_COUNT, book_name, book_chapters};
use crate::text::{self, string_of, eq_ignore_ascii_case};
use crate::translations::{self, TRANSLATION_COUNT, translation_code, translation_index};
use crate::types::{self, Chapter, SearchResult, Bookmark, SessionState};
use crate::bookmarks;

verus! {

/// The three side-by-side panels.
#[derive(Clone, Copy, Debug, PartialEq, Eq)]
pub enum Panel {
    Books,
    Chapters,
    Scripture,
}

/// How the scripture panel lays out verses.
#[derive(Clone, Copy, Debug, PartialEq, Eq)]
pub enum ViewMode {
    /// One verse per line with a selectable verse cursor.
    VersePerLine,
    /// Verses flow together for a natural reading experience.
    Paragraph,
}

impl Default for ViewMode {
    fn default() -> (m: ViewMode)
        ensures
            m == ViewMode::VersePerLine,
    {
        ViewMode::VersePerLine
    }
}

/// Selection and scroll offset of a list widget.
#[derive(Clone, Copy, Debug, PartialEq, Eq)]
pub struct ListState {
    /// Index of the first item displayed.
    pub offset: usize,
    /// Index of the selected item, if any.
    pub selected: Option<usize>,
}

impl Default for ListState {
    fn default() -> (s: ListState)
        ensures
            s == (ListState { offset: 0, selected: None }),
    {
        ListState { offset: 0, selected: None }
    }
}

impl ListState {
    /// Selects an item; selecting nothing also scrolls back to the top.
    pub fn select(&mut self, index: Option<usize>)
        ensures
            final(self).selected == index,
            final(self).offset == if index is None { 0 } else { old(self).offset },
    {
        self.selected = index;
        if index.is_none() {
            self.offset = 0;
        }
    }

    /// The selected item, if any.
    pub fn selected(&self) -> (r: Option<usize>)
        ensures
            r == self.selected,
    {
        self.selected
    }

    /// The first item displayed.
    pub fn offset(&self) -> (r: usize)
        ensures
            r == self.offset,
    {
        self.offset
    }

    /// Sets the first item displayed.
    pub fn set_offset(&mut self, offset: usize)
        ensures
            final(self).offset == offset,
            final(self).selected == old(self).selected,
    {
        self.offset = offset;
    }
}

/// The list state after `select(index)`.
pub open spec fn selected_as(s: ListState, index: Option<usize>) -> ListState {
    ListState { offset: if index is None { 0 } else { s.offset }, selected: index }
}

/// The search overlay: off, or a query with its results and cursor.
#[derive(Clone, Debug)]
pub enum SearchMode {
    Off,
    Active { query: String, results: Vec<SearchResult>, list_state: ListState },
}

/// The bookmark list overlay: off, or on with its cursor.
#[derive(Clone, Copy, Debug, PartialEq, Eq)]
pub enum BookmarkMode {
    Off,
    Active { list_state: ListState },
}

/// State for the note-entry overlay, opened either from the scripture
/// panel or from within the bookmark list.
#[derive(Clone, Debug)]
pub struct NoteEditor {
    pub translation: String,
    pub book: String,
    pub chapter: u32,
    pub verse: u32,
    pub verse_text: String,
    pub draft: String,
}

/// How long Books/Chapters browsing must be still, in milliseconds,
/// before the scripture panel loads a preview for online translations.
pub const PREVIEW_DEBOUNCE_ONLINE: u64 = 150;

/// Debounce, in milliseconds, for translations that load from bundled or
/// cached data: one frame batches held-down j/k without perceptible lag.
pub const PREVIEW_DEBOUNCE_OFFLINE: u64 = 16;

/// Everything the browser screen shows and edits.
pub struct BrowserState {
    pub active_panel: Panel,
    pub book_list: ListState,
    pub chapter_list: ListState,
    pub scripture_scroll: u16,
    pub selected_book_idx: usize,
    pub selected_chapter: u32,
    pub current_chapter: Option<Chapter>,
    pub loading: bool,
    pub search: SearchMode,
    pub translation: String,
    pub translation_picker: bool,
    pub translation_list: ListState,
    /// Localized book names for the current translation (indexed by the
    /// canonical book order). Empty means English names.
    pub localized_books: Vec<String>,
    /// Verse to highlight after jumping from search results.
    pub highlight_verse: Option<u32>,
    /// Error message to display in the scripture panel.
    pub error: Option<String>,
    /// Verse-per-line vs paragraph rendering of the scripture panel.
    pub view_mode: ViewMode,
    /// Verse cursor for the scripture panel (verse-per-line mode).
    pub verse_list: ListState,
    /// Anchor verse index while selecting a range to copy.
    pub visual_anchor: Option<usize>,
    /// Transient status-bar message after a copy, with its timestamp.
    pub copy_flash: Option<(String, Instant)>,
    /// One-shot request to scroll paragraph view to the selected verse.
    pub pending_paragraph_scroll: bool,
    /// One-shot request to derive the verse cursor from the paragraph
    /// scroll position (paragraph to verse-per-line toggle).
    pub pending_cursor_sync: bool,
    /// Whether the help overlay is open.
    pub help_open: bool,
    /// Scroll offset inside the help overlay.
    pub help_scroll: u16,
    /// Set while browsing Books/Chapters: the scripture panel live-previews
    /// the highlighted target after a short debounce.
    pub preview_pending: Option<Instant>,
    /// Saved bookmarks.
    pub bookmarks: Vec<Bookmark>,
    /// Whether the bookmark list replaces the scripture panel.
    pub bookmark_mode: BookmarkMode,
    /// Open while the note-entry overlay is active.
    pub note_editor: Option<NoteEditor>,
    /// Side-by-side comparison: the translation shown read-only alongside
    /// the primary one, when active.
    pub compare_translation: Option<String>,
    pub compare_chapter: Option<Chapter>,
    pub compare_loading: bool,
    pub compare_error: Option<String>,
    pub compare_picker: bool,
    pub compare_translation_list: ListState,
    /// The last translation compared against, kept after compare mode
    /// closes so the picker reopens on it.
    pub last_compare_translation: Option<String>,
}

/// A copy of an optional string.
pub fn clone_opt_string(s: &Option<String>) -> (r: Option<String>)
    ensures
        r == *s,
{
    match s {
        Some(x) => Some(x.clone()),
        None => None,
    }
}

// ---------------------------------------------------------------------------
// Specifications
// ---------------------------------------------------------------------------

/// The panel a saved panel number restores.
pub open spec fn panel_from_code(code: u8) -> Panel {
    if code == 0 {
        Panel::Books
    } else if code == 1 {
        Panel::Chapters
    } else {
        Panel::Scripture
    }
}

/// The number a panel is saved as.
pub open spec fn panel_code(p: Panel) -> u8 {
    match p {
        Panel::Books => 0,
        Panel::Chapters => 1,
        Panel::Scripture => 2,
    }
}

/// The view mode a saved number restores.
pub open spec fn view_mode_from_code(code: u8) -> ViewMode {
    if code == 1 {
        ViewMode::Paragraph
    } else {
        ViewMode::VersePerLine
    }
}

/// The number a view mode is saved as.
pub open spec fn view_mode_code(m: ViewMode) -> u8 {
    match m {
        ViewMode::VersePerLine => 0,
        ViewMode::Paragraph => 1,
    }
}

/// `v` limited to `lo..=hi`.
pub open spec fn clamp_spec(v: u32, lo: u32, hi: u32) -> u32 {
    if v < lo {
        lo
    } else if v > hi {
        hi
    } else {
        v
    }
}

/// The state a saved session restores onto `s`.
pub open spec fn restore_spec(s: BrowserState, saved: SessionState) -> BrowserState {
    let book_idx = if saved.book_index < BOOK_COUNT { saved.book_index } else { (BOOK_COUNT - 1) as usize };
    let ch = clamp_spec(saved.chapter, 1, books::book_chapters_spec(book_idx as int));
    BrowserState {
        selected_book_idx: book_idx,
        book_list: selected_as(s.book_list, Some(book_idx)),
        selected_chapter: ch,
        chapter_list: selected_as(s.chapter_list, Some((ch - 1) as usize)),
        scripture_scroll: saved.scroll_position,
        active_panel: panel_from_code(saved.active_panel),
        translation: if saved.translation@.len() > 0 { saved.translation } else { s.translation },
        view_mode: view_mode_from_code(saved.view_mode),
        verse_list: selected_as(s.verse_list, Some(saved.selected_verse as usize)),
        last_compare_translation: saved.last_compare_translation,
        ..s
    }
}

/// The session saved from `s`.
pub open spec fn snapshot_spec(s: BrowserState) -> SessionState {
    SessionState {
        book_index: s.selected_book_idx,
        chapter: s.selected_chapter,
        scroll_position: s.scripture_scroll,
        active_panel: panel_code(s.active_panel),
        translation: s.translation,
        view_mode: view_mode_code(s.view_mode),
        selected_verse: (match s.verse_list.selected {
            Some(i) => i,
            None => 0,
        }) as u32,
        last_compare_translation: s.last_compare_translation,
    }
}

/// Number of verses in the loaded chapter.
pub open spec fn verse_count_spec(s: BrowserState) -> nat {
    match s.current_chapter {
        Some(c) => c.verses@.len(),
        None => 0,
    }
}

/// The verse cursor, clamped to the loaded chapter.
pub open spec fn selected_verse_idx_spec(s: BrowserState) -> nat {
    let i = match s.verse_list.selected {
        Some(i) => i as nat,
        None => 0,
    };
    let last = if verse_count_spec(s) > 0 { (verse_count_spec(s) - 1) as nat } else { 0 };
    if i < last {
        i
    } else {
        last
    }
}

/// The chapter number a chapter-list row stands for: the row (no
/// selection reads as row 0) taken as a `u32`, plus one.
pub open spec fn chapter_number_of(sel: Option<usize>) -> u32 {
    ((match sel {
        Some(i) => i,
        None => 0,
    }) as u32 + 1) as u32
}

/// The selected chapter row can be turned into a chapter number
/// without overflowing.
pub open spec fn chapter_row_fits(sel: Option<usize>) -> bool {
    ((match sel {
        Some(i) => i,
        None => 0,
    }) as u32) < u32::MAX
}

/// The loaded chapter is not chapter `ch` of the book highlighted in the
/// Books panel (or nothing is loaded).
pub open spec fn needs_reload_spec(s: BrowserState, ch: u32) -> bool {
    match s.current_chapter {
        Some(c) => c.chapter != ch || c.book@ != books::book_name_spec(s.selected_book_idx as int),
        None => true,
    }
}

/// The state after committing the highlighted chapter: Scripture becomes
/// active, and a different chapter resets the scroll, cursor, highlight
/// and copy range.
pub open spec fn commit_spec(s: BrowserState) -> BrowserState {
    let ch = chapter_number_of(s.chapter_list.selected);
    let reload = needs_reload_spec(s, ch);
    BrowserState {
        selected_chapter: ch,
        active_panel: Panel::Scripture,
        scripture_scroll: if reload { 0 } else { s.scripture_scroll },
        verse_list: if reload { selected_as(s.verse_list, Some(0)) } else { s.verse_list },
        highlight_verse: if reload { None } else { s.highlight_verse },
        visual_anchor: if reload { None } else { s.visual_anchor },
        ..s
    }
}

/// The state after leaving Books for Chapters, starting at chapter 1.
pub open spec fn enter_chapters_spec(s: BrowserState) -> BrowserState {
    BrowserState {
        chapter_list: selected_as(s.chapter_list, Some(0)),
        active_panel: Panel::Chapters,
        ..s
    }
}

/// The display name of canonical book `i`: the localized name when one is
/// present and not empty, the English name otherwise.
pub open spec fn display_name_spec(localized: Seq<String>, i: int) -> Seq<char> {
    if 0 <= i < localized.len() && localized[i]@.len() > 0 {
        localized[i]@
    } else {
        books::book_name_spec(i)
    }
}

/// Book `i` has a display name: a localized one or a canonical one.
pub open spec fn has_display_name(localized: Seq<String>, i: int) -> bool {
    (0 <= i < BOOK_COUNT) || (0 <= i < localized.len() && localized[i]@.len() > 0)
}

/// The state is one the reader can be in: the selected book is a
/// canonical book.
pub open spec fn wf(s: BrowserState) -> bool {
    s.selected_book_idx < BOOK_COUNT
}

// ---------------------------------------------------------------------------
// Construction and persistence
// ---------------------------------------------------------------------------

impl BrowserState {
    /// A fresh browser on Genesis 1 in the KJV, Books panel active, with
    /// no bookmarks loaded.
    pub fn new() -> (s: Self)
        ensures
            s.active_panel == Panel::Books,
            s.book_list == (ListState { offset: 0, selected: Some(0) }),
            s.chapter_list == (ListState { offset: 0, selected: Some(0) }),
            s.verse_list == (ListState { offset: 0, selected: Some(0) }),
            s.translation_list == (ListState { offset: 0, selected: None }),
            s.compare_translation_list == (ListState { offset: 0, selected: None }),
            s.scripture_scroll == 0,
            s.selected_book_idx == 0,
            s.selected_chapter == 1,
            s.current_chapter is None,
            !s.loading,
            s.search is Off,
            s.translation@ == "KJV"@,
            !s.translation_picker,
            s.localized_books@.len() == 0,
            s.highlight_verse is None,
            s.error is None,
            s.view_mode == ViewMode::VersePerLine,
            s.visual_anchor is None,
            s.copy_flash is None,
            !s.pending_paragraph_scroll,
            !s.pending_cursor_sync,
            !s.help_open,
            s.help_scroll == 0,
            s.preview_pending is None,
            s.bookmarks@.len() == 0,
            s.bookmark_mode is Off,
            s.note_editor is None,
            s.compare_translation is None,
            s.compare_chapter is None,
            !s.compare_loading,
            s.compare_error is None,
            !s.compare_picker,
            s.last_compare_translation is None,
            wf(s),
    {
        let mut book_list = ListState::default();
        book_list.select(Some(0));
        let mut chapter_list = ListState::default();
        chapter_list.select(Some(0));
        let mut verse_list = ListState::default();
        verse_list.select(Some(0));
        BrowserState {
            active_panel: Panel::Books,
            book_list,
            chapter_list,
            scripture_scroll: 0,
            selected_book_idx: 0,
            selected_chapter: 1,
            current_chapter: None,
            loading: false,
            search: SearchMode::Off,
            translation: string_of("KJV"),
            translation_picker: false,
            translation_list: ListState::default(),
            localized_books: Vec::new(),
            highlight_verse: None,
            error: None,
            view_mode: ViewMode::default(),
            verse_list,
            visual_anchor: None,
            copy_flash: None,
            pending_paragraph_scroll: false,
            pending_cursor_sync: false,
            help_open: false,
            help_scroll: 0,
            preview_pending: None,
            bookmarks: Vec::new(),
            bookmark_mode: BookmarkMode::Off,
            note_editor: None,
            compare_translation: None,
            compare_chapter: None,
            compare_loading: false,
            compare_error: None,
            compare_picker: false,
            compare_translation_list: ListState::default(),
            last_compare_translation: None,
        }
    }

    /// Restores a saved session: book clamped to the canonical table,
    /// chapter clamped to the book, panel, scroll, translation (when the
    /// saved one is not empty), view mode, verse cursor and last compare
    /// translation.
    #[verifier::spinoff_prover]
    #[verifier::rlimit(40)]
    pub fn restore(&mut self, saved: &SessionState)
        ensures
            *final(self) == restore_spec(*old(self), *saved),
            wf(*final(self)),
    {
        let book_idx = if saved.book_index < BOOK_COUNT - 1 { saved.book_index } else { BOOK_COUNT - 1 };
        self.selected_book_idx = book_idx;
        self.book_list.select(Some(book_idx));
        let max_ch = book_chapters(book_idx);
        let ch = if saved.chapter < 1 {
            1
        } else if saved.chapter > max_ch {
            max_ch
        } else {
            saved.chapter
        };
        self.selected_chapter = ch;
        self.chapter_list.select(Some((ch - 1) as usize));
        self.scripture_scroll = saved.scroll_position;
        self.active_panel = match saved.active_panel {
            0 => Panel::Books,
            1 => Panel::Chapters,
            _ => Panel::Scripture,
        };
        if !saved.translation.as_str().is_empty() {
            self.translation = saved.translation.clone();
        }
        self.view_mode = match saved.view_mode {
            1 => ViewMode::Paragraph,
            _ => ViewMode::VersePerLine,
        };
        self.verse_list.select(Some(saved.selected_verse as usize));
        self.last_compare_translation = clone_opt_string(&saved.last_compare_translation);
    }

    /// The session to save: book, chapter, scroll, panel, translation,
    /// view mode, verse cursor and last compare translation.
    pub fn snapshot(&self) -> (r: SessionState)
        ensures
            r == snapshot_spec(*self),
    {
        let sel = match self.verse_list.selected() {
            Some(i) => i,
            None => 0,
        };
        SessionState {
            book_index: self.selected_book_idx,
            chapter: self.selected_chapter,
            scroll_position: self.scripture_scroll,
            active_panel: match self.active_panel {
                Panel::Books => 0,
                Panel::Chapters => 1,
                Panel::Scripture => 2,
            },
            translation: self.translation.clone(),
            view_mode: match self.view_mode {
                ViewMode::VersePerLine => 0,
                ViewMode::Paragraph => 1,
            },
            selected_verse: sel as u32,
            last_compare_translation: clone_opt_string(&self.last_compare_translation),
        }
    }
}

impl BrowserState {
    /// Opens the translation picker on the current translation (the first
    /// entry when the current code is not in the catalogue).
    pub fn open_translation_picker(&mut self)
        ensures
            *final(self) == (BrowserState {
                translation_list: selected_as(old(self).translation_list, Some(
                    match translations::translation_index_spec(old(self).translation@) {
                        Some(i) => i as usize,
                        None => 0usize,
                    },
                )),
                translation_picker: true,
                ..*old(self)
            }),
    {
        let current_idx = match translation_index(self.translation.as_str()) {
            Some(i) => i,
            None => 0,
        };
        self.translation_list.select(Some(current_idx));
        self.translation_picker = true;
    }

    /// Applies the translation highlighted in the picker and closes it.
    /// Returns whether the translation changed (codes compared ignoring
    /// ASCII case).
    pub fn pick_translation(&mut self) -> (changed: bool)
        requires
            (match old(self).translation_list.selected {
                Some(i) => i,
                None => 0,
            }) < TRANSLATION_COUNT,
        ensures
            ({
                let idx = match old(self).translation_list.selected {
                    Some(i) => i as int,
                    None => 0int,
                };
                &&& final(self).translation@ == translations::translation_code_spec(idx)
                &&& changed == !text::eq_ignore_ascii_case_spec(translations::translation_code_spec(idx), old(self).translation@)
            }),
            *final(self) == (BrowserState {
                translation: final(self).translation,
                translation_picker: false,
                ..*old(self)
            }),
    {
        let idx = match self.translation_list.selected() {
            Some(i) => i,
            None => 0,
        };
        let new_trans = string_of(translation_code(idx));
        let changed = !eq_ignore_ascii_case(new_trans.as_str(), self.translation.as_str());
        self.translation = new_trans;
        self.translation_picker = false;
        changed
    }

    /// English name of the book highlighted in the Books panel.
    pub fn selected_book_name(&self) -> (r: &'static str)
        requires
            wf(*self),
        ensures
            r@ == books::book_name_spec(self.selected_book_idx as int),
    {
        book_name(self.selected_book_idx)
    }

    /// The display name for a book: its localized name when present and
    /// not empty, the English name otherwise.
    pub fn book_display_name(&self, idx: usize) -> (r: &str)
        requires
            has_display_name(self.localized_books@, idx as int),
        ensures
            r@ == display_name_spec(self.localized_books@, idx as int),
    {
        if idx < self.localized_books.len() {
            let name = &self.localized_books[idx];
            if !name.as_str().is_empty() {
                return name.as_str();
            }
        }
        book_name(idx)
    }

    /// Number of chapters of the book highlighted in the Books panel.
    pub fn selected_book_chapters(&self) -> (r: u32)
        requires
            wf(*self),
        ensures
            r == books::book_chapters_spec(self.selected_book_idx as int),
            r >= 1,
    {
        book_chapters(self.selected_book_idx)
    }

    /// Moves to the next panel (right arrow). On Chapters this commits the
    /// highlighted chapter; returns whether the chapter must be loaded.
    pub fn next_panel_or_select(&mut self) -> (reload: bool)
        requires
            old(self).active_panel == Panel::Chapters ==> wf(*old(self)) && chapter_row_fits(old(self).chapter_list.selected),
        ensures
            match old(self).active_panel {
                Panel::Books => !reload && *final(self) == enter_chapters_spec(*old(self)),
                Panel::Chapters => reload == needs_reload_spec(
                    *old(self),
                    chapter_number_of(old(self).chapter_list.selected),
                ) && *final(self) == commit_spec(*old(self)),
                Panel::Scripture => !reload && *final(self) == *old(self),
            },
            wf(*old(self)) ==> wf(*final(self)),
    {
        match self.active_panel {
            Panel::Books => {
                self.chapter_list.select(Some(0));
                self.active_panel = Panel::Chapters;
                false
            },
            Panel::Chapters => self.commit_chapter_selection(),
            Panel::Scripture => false,
        }
    }

    /// Commits the chapter highlighted in the Chapters panel and switches
    /// to Scripture, keeping the reading position when the chapter is the
    /// one already loaded.
    fn commit_chapter_selection(&mut self) -> (reload: bool)
        requires
            wf(*old(self)),
            chapter_row_fits(old(self).chapter_list.selected),
        ensures
            reload == needs_reload_spec(*old(self), chapter_number_of(old(self).chapter_list.selected)),
            *final(self) == commit_spec(*old(self)),
    {
        let sel = match self.chapter_list.selected() {
            Some(i) => i,
            None => 0,
        };
        let ch = (sel as u32) + 1;
        let target_book = self.selected_book_name();
        let needs_reload = match &self.current_chapter {
            Some(c) => c.chapter != ch || !str_eq(c.book.as_str(), target_book),
            None => true,
        };
        self.selected_chapter = ch;
        self.active_panel = Panel::Scripture;
        if needs_reload {
            self.scripture_scroll = 0;
            self.verse_list.select(Some(0));
            self.highlight_verse = None;
            self.visual_anchor = None;
        }
        needs_reload
    }

    /// Moves to the previous panel (left arrow).
    pub fn prev_panel(&mut self)
        ensures
            *final(self) == (BrowserState {
                active_panel: match old(self).active_panel {
                    Panel::Books => Panel::Books,
                    Panel::Chapters => Panel::Books,
                    Panel::Scripture => Panel::Chapters,
                },
                ..*old(self)
            }),
    {
        self.active_panel = match self.active_panel {
            Panel::Books => Panel::Books,
            Panel::Chapters => Panel::Books,
            Panel::Scripture => Panel::Chapters,
        };
    }
}

/// The selected row of a list, reading no selection as row 0.
pub open spec fn sel_or_zero(l: ListState) -> nat {
    match l.selected {
        Some(i) => i as nat,
        None => 0,
    }
}

/// Whether moving up in the active panel arms the live preview: only
/// Books and Chapters moves that are not against the top edge do.
pub open spec fn move_up_arms(s: BrowserState) -> bool {
    match s.active_panel {
        Panel::Books => sel_or_zero(s.book_list) > 0,
        Panel::Chapters => sel_or_zero(s.chapter_list) > 0,
        Panel::Scripture => false,
    }
}

/// The state after moving up, apart from the preview timestamp.
pub open spec fn move_up_spec(s: BrowserState) -> BrowserState {
    match s.active_panel {
        Panel::Books => {
            let i = sel_or_zero(s.book_list);
            if i > 0 {
                BrowserState {
                    book_list: selected_as(s.book_list, Some((i - 1) as usize)),
                    selected_book_idx: (i - 1) as usize,
                    ..s
                }
            } else {
                s
            }
        },
        Panel::Chapters => {
            let i = sel_or_zero(s.chapter_list);
            if i > 0 {
                BrowserState { chapter_list: selected_as(s.chapter_list, Some((i - 1) as usize)), ..s }
            } else {
                s
            }
        },
        Panel::Scripture => match s.view_mode {
            ViewMode::VersePerLine => {
                let i = selected_verse_idx_spec(s);
                BrowserState {
                    highlight_verse: None,
                    verse_list: if i > 0 { selected_as(s.verse_list, Some((i - 1) as usize)) } else { s.verse_list },
                    ..s
                }
            },
            ViewMode::Paragraph => BrowserState {
                highlight_verse: None,
                scripture_scroll: if s.scripture_scroll > 0 { (s.scripture_scroll - 1) as u16 } else { 0 },
                ..s
            },
        },
    }
}

/// Whether moving down in the active panel arms the live preview: only
/// Books and Chapters moves that are not against the bottom edge do.
pub open spec fn move_down_arms(s: BrowserState) -> bool {
    match s.active_panel {
        Panel::Books => sel_or_zero(s.book_list) + 1 < BOOK_COUNT,
        Panel::Chapters => sel_or_zero(s.chapter_list) + 1 < books::book_chapters_spec(s.selected_book_idx as int),
        Panel::Scripture => false,
    }
}

/// The state after moving down, apart from the preview timestamp.
pub open spec fn move_down_spec(s: BrowserState) -> BrowserState {
    match s.active_panel {
        Panel::Books => {
            let i = sel_or_zero(s.book_list);
            if i + 1 < BOOK_COUNT {
                BrowserState {
                    book_list: selected_as(s.book_list, Some((i + 1) as usize)),
                    selected_book_idx: (i + 1) as usize,
                    ..s
                }
            } else {
                s
            }
        },
        Panel::Chapters => {
            let i = sel_or_zero(s.chapter_list);
            if i + 1 < books::book_chapters_spec(s.selected_book_idx as int) {
                BrowserState { chapter_list: selected_as(s.chapter_list, Some((i + 1) as usize)), ..s }
            } else {
                s
            }
        },
        Panel::Scripture => match s.view_mode {
            ViewMode::VersePerLine => {
                let i = selected_verse_idx_spec(s);
                BrowserState {
                    highlight_verse: None,
                    verse_list: if i + 1 < verse_count_spec(s) {
                        selected_as(s.verse_list, Some((i + 1) as usize))
                    } else {
                        s.verse_list
                    },
                    ..s
                }
            },
            ViewMode::Paragraph => BrowserState {
                highlight_verse: None,
                scripture_scroll: (s.scripture_scroll + 1) as u16,
                ..s
            },
        },
    }
}

/// The debounce, in milliseconds, before a live preview loads.
pub open spec fn debounce_spec(fully_offline: bool) -> u64 {
    if fully_offline {
        PREVIEW_DEBOUNCE_OFFLINE
    } else {
        PREVIEW_DEBOUNCE_ONLINE
    }
}

/// The (book, chapter) a live preview shows: chapter 1 of the highlighted
/// book while browsing Books, the highlighted chapter while browsing
/// Chapters.
pub open spec fn preview_target_spec(s: BrowserState) -> (usize, u32) {
    (
        s.selected_book_idx,
        match s.active_panel {
            Panel::Chapters => chapter_number_of(s.chapter_list.selected),
            _ => 1,
        },
    )
}

/// The index of the first verse at or after `i` numbered `number`.
pub open spec fn verse_position_from(vs: Seq<types::Verse>, number: u32, i: int) -> Option<int>
    decreases vs.len() - i,
{
    if i < 0 || i >= vs.len() {
        None
    } else if vs[i].verse == number {
        Some(i)
    } else {
        verse_position_from(vs, number, i + 1)
    }
}

/// The cursor row for verse `number`: the position of that verse in the
/// loaded chapter, else `number - 1` (saturating at 0).
pub open spec fn verse_row_for_number(s: BrowserState, number: u32) -> usize {
    let fallback = if number > 0 { (number - 1) as usize } else { 0usize };
    match s.current_chapter {
        Some(c) => match verse_position_from(c.verses@, number, 0) {
            Some(i) => i as usize,
            None => fallback,
        },
        None => fallback,
    }
}

impl BrowserState {
    /// Moves the cursor up in the active panel: the book or chapter
    /// highlight (arming the live preview), the verse cursor, or the
    /// paragraph scroll.
    pub fn move_up(&mut self)
        ensures
            *final(self) == (BrowserState { preview_pending: final(self).preview_pending, ..move_up_spec(*old(self)) }),
            move_up_arms(*old(self)) ==> final(self).preview_pending is Some,
            !move_up_arms(*old(self)) ==> final(self).preview_pending == old(self).preview_pending,
    {
        match self.active_panel {
            Panel::Books => {
                let i = match self.book_list.selected() {
                    Some(i) => i,
                    None => 0,
                };
                if i > 0 {
                    self.book_list.select(Some(i - 1));
                    self.selected_book_idx = i - 1;
                    self.request_preview();
                }
            },
            Panel::Chapters => {
                let i = match self.chapter_list.selected() {
                    Some(i) => i,
                    None => 0,
                };
                if i > 0 {
                    self.chapter_list.select(Some(i - 1));
                    self.request_preview();
                }
            },
            Panel::Scripture => {
                self.highlight_verse = None;
                match self.view_mode {
                    ViewMode::VersePerLine => {
                        let i = self.selected_verse_idx();
                        if i > 0 {
                            self.verse_list.select(Some(i - 1));
                        }
                    },
                    ViewMode::Paragraph => {
                        if self.scripture_scroll > 0 {
                            self.scripture_scroll = self.scripture_scroll - 1;
                        }
                    },
                }
            },
        }
    }

    /// Moves the cursor down in the active panel: the book or chapter
    /// highlight (arming the live preview), the verse cursor, or the
    /// paragraph scroll.
    pub fn move_down(&mut self)
        requires
            old(self).active_panel == Panel::Chapters ==> wf(*old(self)),
            old(self).active_panel == Panel::Scripture && old(self).view_mode == ViewMode::Paragraph
                ==> old(self).scripture_scroll < u16::MAX,
        ensures
            *final(self) == (BrowserState { preview_pending: final(self).preview_pending, ..move_down_spec(*old(self)) }),
            move_down_arms(*old(self)) ==> final(self).preview_pending is Some,
            !move_down_arms(*old(self)) ==> final(self).preview_pending == old(self).preview_pending,
            wf(*old(self)) ==> wf(*final(self)),
    {
        match self.active_panel {
            Panel::Books => {
                let i = match self.book_list.selected() {
                    Some(i) => i,
                    None => 0,
                };
                if i < BOOK_COUNT - 1 {
                    self.book_list.select(Some(i + 1));
                    self.selected_book_idx = i + 1;
                    self.request_preview();
                }
            },
            Panel::Chapters => {
                let i = match self.chapter_list.selected() {
                    Some(i) => i,
                    None => 0,
                };
                let max = self.selected_book_chapters() as usize;
                if i < max - 1 {
                    self.chapter_list.select(Some(i + 1));
                    self.request_preview();
                }
            },
            Panel::Scripture => {
                self.highlight_verse = None;
                match self.view_mode {
                    ViewMode::VersePerLine => {
                        let i = self.selected_verse_idx();
                        let n = self.verse_count();
                        if i + 1 < n {
                            self.verse_list.select(Some(i + 1));
                        }
                    },
                    ViewMode::Paragraph => {
                        self.scripture_scroll = self.scripture_scroll + 1;
                    },
                }
            },
        }
    }

    /// Arms the live-preview debounce timer.
    fn request_preview(&mut self)
        ensures
            *final(self) == (BrowserState { preview_pending: final(self).preview_pending, ..*old(self) }),
            final(self).preview_pending is Some,
    {
        self.preview_pending = Some(crate::clock::instant_now());
    }

    /// Whether the armed live preview is due: it has been armed at least
    /// the debounce ago. `fully_offline` tells whether the translation
    /// loads without the network.
    pub fn preview_due(&self, fully_offline: bool) -> (r: bool)
        ensures
            self.preview_pending is None ==> !r,
    {
        match &self.preview_pending {
            Some(t) => {
                let ms = crate::clock::as_millis(&crate::clock::elapsed(t));
                preview_due_after(ms, fully_offline)
            },
            None => false,
        }
    }

    /// The (book, chapter) the live preview should show.
    pub fn preview_target(&self) -> (r: (usize, u32))
        requires
            self.active_panel == Panel::Chapters ==> chapter_row_fits(self.chapter_list.selected),
        ensures
            r == preview_target_spec(*self),
    {
        let chapter = match self.active_panel {
            Panel::Chapters => {
                let sel = match self.chapter_list.selected() {
                    Some(i) => i,
                    None => 0,
                };
                (sel as u32) + 1
            },
            _ => 1,
        };
        (self.selected_book_idx, chapter)
    }

    /// Number of verses in the loaded chapter.
    pub fn verse_count(&self) -> (r: usize)
        ensures
            r == verse_count_spec(*self),
    {
        match &self.current_chapter {
            Some(c) => c.verses.len(),
            None => 0,
        }
    }

    /// The verse cursor, clamped to the loaded chapter.
    pub fn selected_verse_idx(&self) -> (r: usize)
        ensures
            r == selected_verse_idx_spec(*self),
            verse_count_spec(*self) > 0 ==> r < verse_count_spec(*self),
            verse_count_spec(*self) == 0 ==> r == 0,
    {
        let i = match self.verse_list.selected() {
            Some(i) => i,
            None => 0,
        };
        let n = self.verse_count();
        let last = if n > 0 { n - 1 } else { 0 };
        if i < last { i } else { last }
    }

    /// Toggles verse-per-line and paragraph view, dropping the copy range
    /// and asking the next frame to carry the reading position across.
    pub fn toggle_view_mode(&mut self)
        ensures
            *final(self) == (match old(self).view_mode {
                ViewMode::VersePerLine => BrowserState {
                    visual_anchor: None,
                    pending_paragraph_scroll: true,
                    view_mode: ViewMode::Paragraph,
                    ..*old(self)
                },
                ViewMode::Paragraph => BrowserState {
                    visual_anchor: None,
                    pending_cursor_sync: true,
                    view_mode: ViewMode::VersePerLine,
                    ..*old(self)
                },
            }),
    {
        self.visual_anchor = None;
        self.view_mode = match self.view_mode {
            ViewMode::VersePerLine => {
                self.pending_paragraph_scroll = true;
                ViewMode::Paragraph
            },
            ViewMode::Paragraph => {
                self.pending_cursor_sync = true;
                ViewMode::VersePerLine
            },
        };
    }

    /// Moves the verse cursor to the verse with this number, tolerating
    /// chapters whose numbering has gaps.
    pub fn select_verse_by_number(&mut self, number: u32)
        ensures
            *final(self) == (BrowserState {
                verse_list: selected_as(old(self).verse_list, Some(verse_row_for_number(*old(self), number))),
                ..*old(self)
            }),
    {
        let idx = match &self.current_chapter {
            Some(c) => match verse_position(&c.verses, number) {
                Some(i) => i,
                None => fallback_row(number),
            },
            None => fallback_row(number),
        };
        self.verse_list.select(Some(idx));
    }
}

/// The name shown for the book a loaded chapter belongs to: the display
/// name of the canonical book it names (ASCII case ignored), else the
/// chapter's own book name.
pub open spec fn loaded_name_spec(s: BrowserState, c: Chapter) -> Seq<char> {
    match books::book_index_spec(c.book@) {
        Some(i) => display_name_spec(s.localized_books@, i),
        None => c.book@,
    }
}

/// The verse rows covered by the copy selection (inclusive): the cursor
/// alone, or the cursor and anchor in ascending order.
pub open spec fn bounds_spec(s: BrowserState) -> (nat, nat) {
    let cur = selected_verse_idx_spec(s);
    match s.visual_anchor {
        Some(a) => if (a as nat) < cur { (a as nat, cur) } else { (cur, a as nat) },
        None => (cur, cur),
    }
}

/// One copied line per verse in `lo..hi`: number, space, text, newline.
pub open spec fn verse_lines(vs: Seq<types::Verse>, lo: int, hi: int) -> Seq<char>
    decreases hi - lo,
{
    if hi <= lo {
        Seq::empty()
    } else {
        verse_lines(vs, lo, hi - 1) + text::decimal(vs[hi - 1].verse as nat) + " "@ + vs[hi - 1].text@ + "\n"@
    }
}

/// Copying is defined: a copy range never reaches past the loaded chapter.
pub open spec fn copy_defined(s: BrowserState) -> bool {
    match (s.current_chapter, s.visual_anchor) {
        (Some(c), Some(a)) => s.view_mode == ViewMode::VersePerLine && c.verses@.len() > 0 ==> a < c.verses@.len(),
        _ => true,
    }
}

/// The clipboard text and its short label. Paragraph view copies the
/// whole chapter; verse-per-line copies the selected verse, or the
/// verses of the copy range, one per line under a heading.
pub open spec fn payload_spec(s: BrowserState) -> Option<(Seq<char>, Seq<char>)> {
    match s.current_chapter {
        None => None,
        Some(c) => if c.verses@.len() == 0 {
            None
        } else {
            let book = loaded_name_spec(s, c);
            let trans = c.translation@;
            let head = book + " "@ + text::decimal(c.chapter as nat);
            match s.view_mode {
                ViewMode::Paragraph => Some(
                    (head + " ("@ + trans + ")\n"@ + verse_lines(c.verses@, 0, c.verses@.len() as int), head),
                ),
                ViewMode::VersePerLine => {
                    let (start, end) = bounds_spec(s);
                    if start == end {
                        let v = c.verses@[start as int];
                        let label = head + ":"@ + text::decimal(v.verse as nat);
                        Some((label + " - "@ + v.text@ + " ("@ + trans + ")"@, label))
                    } else {
                        let label = head + ":"@ + text::decimal(c.verses@[start as int].verse as nat) + "-"@
                            + text::decimal(c.verses@[end as int].verse as nat);
                        Some((label + " ("@ + trans + ")\n"@ + verse_lines(c.verses@, start as int, end as int + 1), label))
                    }
                },
            }
        },
    }
}

/// The selected search hit: the hit under the results cursor, when
/// search is active and the cursor is on a hit.
pub open spec fn selected_result_spec(s: BrowserState) -> Option<SearchResult> {
    match s.search {
        SearchMode::Active { results, list_state, .. } => match list_state.selected {
            Some(i) => if i < results@.len() { Some(results@[i as int]) } else { None },
            None => None,
        },
        SearchMode::Off => None,
    }
}

/// The selected bookmark: the one under the bookmark-list cursor, when
/// the list is open and the cursor is on a bookmark.
pub open spec fn selected_bookmark_spec(s: BrowserState) -> Option<Bookmark> {
    match s.bookmark_mode {
        BookmarkMode::Active { list_state } => match list_state.selected {
            Some(i) => if i < s.bookmarks@.len() { Some(s.bookmarks@[i as int]) } else { None },
            None => None,
        },
        BookmarkMode::Off => None,
    }
}

/// (translation, book, chapter, verse, text) of the verse under the cursor
/// in the loaded chapter.
pub open spec fn bookmark_target_spec(s: BrowserState) -> Option<(Seq<char>, Seq<char>, u32, u32, Seq<char>)> {
    match s.current_chapter {
        None => None,
        Some(c) => if c.verses@.len() == 0 {
            None
        } else {
            let v = c.verses@[selected_verse_idx_spec(s) as int];
            Some((c.translation@, c.book@, c.chapter, v.verse, v.text@))
        },
    }
}

/// The draft a note editor opens with: the note of the first bookmark on
/// that verse, or empty.
pub open spec fn note_draft_spec(s: BrowserState, translation: Seq<char>, book: Seq<char>, chapter: u32, verse: u32) -> Seq<char> {
    match bookmarks::find_bookmark_spec(s.bookmarks@, translation, book, chapter, verse) {
        Some(i) => match s.bookmarks@[i].note {
            Some(n) => n@,
            None => Seq::empty(),
        },
        None => Seq::empty(),
    }
}

/// The translation the compare picker opens on: the active comparison,
/// else the last one, else the primary translation.
pub open spec fn compare_default_spec(s: BrowserState) -> Seq<char> {
    match s.compare_translation {
        Some(c) => c@,
        None => match s.last_compare_translation {
            Some(c) => c@,
            None => s.translation@,
        },
    }
}

impl BrowserState {
    /// Display name of the book the loaded chapter belongs to: not the
    /// Books-panel cursor, which moves independently of the text.
    fn loaded_book_display_name(&self, chapter: &Chapter) -> (r: String)
        ensures
            r@ == loaded_name_spec(*self, *chapter),
    {
        match books::book_index(chapter.book.as_str()) {
            Some(i) => string_of(self.book_display_name(i)),
            None => chapter.book.clone(),
        }
    }

    /// The scripture panel's title: the loaded chapter's book (by its
    /// display name) and number, or a plain heading before any chapter.
    pub fn scripture_title(&self) -> (r: String)
        ensures
            r@ == match self.current_chapter {
                Some(c) => " "@ + loaded_name_spec(*self, c) + " "@ + text::decimal(c.chapter as nat) + " "@,
                None => " Scripture "@,
            },
    {
        match &self.current_chapter {
            Some(c) => {
                let mut t = string_of(" ");
                let name = self.loaded_book_display_name(c);
                text::push_str(&mut t, name.as_str());
                text::push_str(&mut t, " ");
                text::push_decimal(&mut t, c.chapter as u64);
                text::push_str(&mut t, " ");
                t
            },
            None => string_of(" Scripture "),
        }
    }

    /// Verse rows covered by the copy selection (inclusive).
    pub fn selection_bounds(&self) -> (r: (usize, usize))
        ensures
            (r.0 as nat, r.1 as nat) == bounds_spec(*self),
    {
        let cur = self.selected_verse_idx();
        match self.visual_anchor {
            Some(a) => if a < cur { (a, cur) } else { (cur, a) },
            None => (cur, cur),
        }
    }

    /// Whether a verse row is inside the active copy range.
    pub fn in_visual_range(&self, idx: usize) -> (r: bool)
        ensures
            r == (self.visual_anchor is Some && bounds_spec(*self).0 <= idx && idx <= bounds_spec(*self).1),
    {
        if self.visual_anchor.is_none() {
            return false;
        }
        let (start, end) = self.selection_bounds();
        idx >= start && idx <= end
    }

    /// The clipboard text and a short label for what gets copied.
    pub fn copy_payload(&self) -> (r: Option<(String, String)>)
        requires
            copy_defined(*self),
        ensures
            match r {
                Some((t, l)) => payload_spec(*self) == Some((t@, l@)),
                None => payload_spec(*self) is None,
            },
    {
        let chapter = match &self.current_chapter {
            Some(c) => c,
            None => {
                return None;
            },
        };
        if chapter.verses.len() == 0 {
            return None;
        }
        let book = self.loaded_book_display_name(chapter);
        let trans = chapter.translation.as_str();
        let mut head = book;
        text::push_str(&mut head, " ");
        text::push_decimal(&mut head, chapter.chapter as u64);
        match self.view_mode {
            ViewMode::Paragraph => {
                let label = head.clone();
                let mut out = head;
                text::push_str(&mut out, " (");
                text::push_str(&mut out, trans);
                text::push_str(&mut out, ")\n");
                push_verse_lines(&mut out, &chapter.verses, 0, chapter.verses.len());
                Some((out, label))
            },
            ViewMode::VersePerLine => {
                let (start, end) = self.selection_bounds();
                if start == end {
                    let v = &chapter.verses[start];
                    let mut label = head;
                    text::push_str(&mut label, ":");
                    text::push_decimal(&mut label, v.verse as u64);
                    let mut out = label.clone();
                    text::push_str(&mut out, " - ");
                    text::push_str(&mut out, v.text.as_str());
                    text::push_str(&mut out, " (");
                    text::push_str(&mut out, trans);
                    text::push_str(&mut out, ")");
                    Some((out, label))
                } else {
                    let mut label = head;
                    text::push_str(&mut label, ":");
                    text::push_decimal(&mut label, chapter.verses[start].verse as u64);
                    text::push_str(&mut label, "-");
                    text::push_decimal(&mut label, chapter.verses[end].verse as u64);
                    let mut out = label.clone();
                    text::push_str(&mut out, " (");
                    text::push_str(&mut out, trans);
                    text::push_str(&mut out, ")\n");
                    push_verse_lines(&mut out, &chapter.verses, start, end + 1);
                    Some((out, label))
                }
            },
        }
    }

    /// Shows a transient message in the status bar.
    pub fn flash(&mut self, message: String)
        ensures
            *final(self) == (BrowserState { copy_flash: final(self).copy_flash, ..*old(self) }),
            final(self).copy_flash matches Some((m, _)) && m == message,
    {
        self.copy_flash = Some((message, crate::clock::instant_now()));
    }

    /// Enter: opens the highlighted book's chapters, or commits the
    /// highlighted chapter; returns whether the chapter must be loaded.
    pub fn select_current(&mut self) -> (reload: bool)
        requires
            old(self).active_panel == Panel::Chapters ==> wf(*old(self)) && chapter_row_fits(old(self).chapter_list.selected),
        ensures
            match old(self).active_panel {
                Panel::Books => !reload && *final(self) == enter_chapters_spec(*old(self)),
                Panel::Chapters => reload == needs_reload_spec(
                    *old(self),
                    chapter_number_of(old(self).chapter_list.selected),
                ) && *final(self) == commit_spec(*old(self)),
                Panel::Scripture => !reload && *final(self) == *old(self),
            },
            wf(*old(self)) ==> wf(*final(self)),
    {
        match self.active_panel {
            Panel::Books => {
                self.chapter_list.select(Some(0));
                self.active_panel = Panel::Chapters;
                false
            },
            Panel::Chapters => self.commit_chapter_selection(),
            Panel::Scripture => false,
        }
    }

    /// The search hit under the results cursor.
    pub fn selected_search_result(&self) -> (r: Option<&SearchResult>)
        ensures
            match r {
                Some(x) => selected_result_spec(*self) == Some(*x),
                None => selected_result_spec(*self) is None,
            },
    {
        match &self.search {
            SearchMode::Active { results, list_state, .. } => {
                let idx = list_state.selected()?;
                if idx < results.len() {
                    Some(&results[idx])
                } else {
                    None
                }
            },
            SearchMode::Off => None,
        }
    }

    /// (translation, book, chapter, verse, text) of the selected verse in
    /// the scripture panel: the target of bookmarking and note editing.
    pub fn bookmark_target(&self) -> (r: Option<(String, String, u32, u32, String)>)
        ensures
            match r {
                Some((t, b, c, v, x)) => bookmark_target_spec(*self) == Some((t@, b@, c, v, x@)),
                None => bookmark_target_spec(*self) is None,
            },
    {
        let chapter = match &self.current_chapter {
            Some(c) => c,
            None => {
                return None;
            },
        };
        if chapter.verses.len() == 0 {
            return None;
        }
        let idx = self.selected_verse_idx();
        let v = &chapter.verses[idx];
        Some((chapter.translation.clone(), chapter.book.clone(), chapter.chapter, v.verse, v.text.clone()))
    }

    /// The number of the verse under the cursor in the loaded chapter.
    pub fn selected_verse_number(&self) -> (r: Option<u32>)
        ensures
            r == match bookmark_target_spec(*self) {
                Some((_, _, _, v, _)) => Some(v),
                None => None,
            },
    {
        match &self.current_chapter {
            Some(c) => {
                if c.verses.len() == 0 {
                    None
                } else {
                    Some(c.verses[self.selected_verse_idx()].verse)
                }
            },
            None => None,
        }
    }

    /// Whether the selected scripture-panel verse is bookmarked.
    pub fn current_verse_is_bookmarked(&self) -> (r: bool)
        ensures
            r == match bookmark_target_spec(*self) {
                Some((t, b, c, v, _)) => bookmarks::find_bookmark_spec(self.bookmarks@, t, b, c, v) is Some,
                None => false,
            },
    {
        match self.bookmark_target() {
            Some((translation, book, chapter, verse, _text)) => bookmarks::is_bookmarked(
                &self.bookmarks,
                translation.as_str(),
                book.as_str(),
                chapter,
                verse,
            ),
            None => false,
        }
    }

    /// The bookmark under the bookmark-list cursor.
    pub fn selected_bookmark(&self) -> (r: Option<&Bookmark>)
        ensures
            match r {
                Some(x) => selected_bookmark_spec(*self) == Some(*x),
                None => selected_bookmark_spec(*self) is None,
            },
    {
        match &self.bookmark_mode {
            BookmarkMode::Active { list_state } => {
                let idx = list_state.selected()?;
                if idx < self.bookmarks.len() {
                    Some(&self.bookmarks[idx])
                } else {
                    None
                }
            },
            BookmarkMode::Off => None,
        }
    }

    /// Opens the note editor for a verse, the draft pre-filled with the
    /// note already saved on that verse's bookmark, if any.
    pub fn open_note_editor(&mut self, translation: String, book: String, chapter: u32, verse: u32, verse_text: String)
        ensures
            *final(self) == (BrowserState { note_editor: final(self).note_editor, ..*old(self) }),
            final(self).note_editor matches Some(e) && {
                &&& e.translation == translation
                &&& e.book == book
                &&& e.chapter == chapter
                &&& e.verse == verse
                &&& e.verse_text == verse_text
                &&& e.draft@ == note_draft_spec(*old(self), translation@, book@, chapter, verse)
            },
    {
        let existing = match bookmarks::find_bookmark(&self.bookmarks, translation.as_str(), book.as_str(), chapter, verse) {
            Some(i) => match &self.bookmarks[i].note {
                Some(n) => n.clone(),
                None => String::new(),
            },
            None => String::new(),
        };
        self.note_editor = Some(NoteEditor { translation, book, chapter, verse, verse_text, draft: existing });
    }

    /// Opens the compare picker on the active comparison, else the last
    /// one compared against, else the primary translation (the first
    /// entry when that code is not in the catalogue).
    pub fn open_compare_picker(&mut self)
        ensures
            *final(self) == (BrowserState {
                compare_translation_list: selected_as(old(self).compare_translation_list, Some(
                    match translations::translation_index_spec(compare_default_spec(*old(self))) {
                        Some(i) => i as usize,
                        None => 0usize,
                    },
                )),
                compare_picker: true,
                ..*old(self)
            }),
    {
        let current: &str = match &self.compare_translation {
            Some(c) => c.as_str(),
            None => match &self.last_compare_translation {
                Some(c) => c.as_str(),
                None => self.translation.as_str(),
            },
        };
        let current_idx = match translation_index(current) {
            Some(i) => i,
            None => 0,
        };
        self.compare_translation_list.select(Some(current_idx));
        self.compare_picker = true;
    }

    /// Turns comparison on with the translation highlighted in the compare
    /// picker, remembers it, closes the picker and forces verse-per-line
    /// view, since side-by-side rows need one verse per line.
    pub fn pick_compare_translation(&mut self)
        requires
            (match old(self).compare_translation_list.selected {
                Some(i) => i,
                None => 0,
            }) < TRANSLATION_COUNT,
        ensures
            ({
                let idx = match old(self).compare_translation_list.selected {
                    Some(i) => i as int,
                    None => 0int,
                };
                &&& final(self).compare_translation matches Some(c) && c@ == translations::translation_code_spec(idx)
                &&& final(self).last_compare_translation == final(self).compare_translation
            }),
            *final(self) == (BrowserState {
                compare_translation: final(self).compare_translation,
                last_compare_translation: final(self).last_compare_translation,
                compare_picker: false,
                view_mode: ViewMode::VersePerLine,
                ..*old(self)
            }),
    {
        let idx = match self.compare_translation_list.selected() {
            Some(i) => i,
            None => 0,
        };
        let code = string_of(translation_code(idx));
        self.compare_translation = Some(code.clone());
        self.last_compare_translation = Some(code);
        self.compare_picker = false;
        self.view_mode = ViewMode::VersePerLine;
    }

    /// Ends comparison, keeping the last compared translation.
    pub fn close_compare(&mut self)
        ensures
            *final(self) == (BrowserState {
                compare_translation: None,
                compare_chapter: None,
                compare_loading: false,
                compare_error: None,
                compare_picker: false,
                ..*old(self)
            }),
    {
        self.compare_translation = None;
        self.compare_chapter = None;
        self.compare_loading = false;
        self.compare_error = None;
        self.compare_picker = false;
    }

    /// Navigates to a verse from a search hit or bookmark: selects the book
    /// (named ignoring ASCII case) and chapter, opens Scripture, closes
    /// search and the bookmark list, highlights the verse and puts the
    /// cursor on it. An unknown book changes nothing.
    pub fn jump_to_result(&mut self, book: &str, chapter: u32, verse: u32)
        requires
            books::book_index_spec(book@) is Some ==> chapter >= 1,
        ensures
            match books::book_index_spec(book@) {
                Some(idx) => *final(self) == (BrowserState {
                    selected_book_idx: idx as usize,
                    book_list: selected_as(old(self).book_list, Some(idx as usize)),
                    selected_chapter: chapter,
                    chapter_list: selected_as(old(self).chapter_list, Some((chapter - 1) as usize)),
                    scripture_scroll: 0,
                    active_panel: Panel::Scripture,
                    search: SearchMode::Off,
                    bookmark_mode: BookmarkMode::Off,
                    highlight_verse: Some(verse),
                    verse_list: selected_as(old(self).verse_list, Some(verse_row_for_number(*old(self), verse))),
                    visual_anchor: None,
                    pending_paragraph_scroll: true,
                    ..*old(self)
                }),
                None => *final(self) == *old(self),
            },
    {
        if let Some(idx) = books::book_index(book) {
            self.selected_book_idx = idx;
            self.book_list.select(Some(idx));
            self.selected_chapter = chapter;
            self.chapter_list.select(Some((chapter - 1) as usize));
            self.scripture_scroll = 0;
            self.active_panel = Panel::Scripture;
            self.search = SearchMode::Off;
            self.bookmark_mode = BookmarkMode::Off;
            self.highlight_verse = Some(verse);
            self.select_verse_by_number(verse);
            self.visual_anchor = None;
            self.pending_paragraph_scroll = true;
        }
    }
}

/// Appends one copied line per verse in `lo..hi`.
fn push_verse_lines(out: &mut String, vs: &Vec<types::Verse>, lo: usize, hi: usize)
    requires
        lo <= hi <= vs@.len(),
    ensures
        final(out)@ == old(out)@ + verse_lines(vs@, lo as int, hi as int),
{
    let mut i: usize = lo;
    while i < hi
        invariant
            lo <= i <= hi <= vs@.len(),
            out@ == old(out)@ + verse_lines(vs@, lo as int, i as int),
        decreases hi - i,
    {
        text::push_decimal(out, vs[i].verse as u64);
        text::push_str(out, " ");
        text::push_str(out, vs[i].text.as_str());
        text::push_str(out, "\n");
        i = i + 1;
    }
}

/// Whether a preview armed `elapsed_ms` milliseconds ago is due.
pub fn preview_due_after(elapsed_ms: u128, fully_offline: bool) -> (r: bool)
    ensures
        r == (elapsed_ms >= debounce_spec(fully_offline)),
{
    let debounce = preview_debounce(fully_offline);
    elapsed_ms >= debounce as u128
}

/// The debounce, in milliseconds, before a live preview loads: short for
/// translations that load without the network.
pub fn preview_debounce(fully_offline: bool) -> (r: u64)
    ensures
        r == debounce_spec(fully_offline),
{
    if fully_offline {
        PREVIEW_DEBOUNCE_OFFLINE
    } else {
        PREVIEW_DEBOUNCE_ONLINE
    }
}

/// The cursor row used when a verse number is not in the loaded chapter.
fn fallback_row(number: u32) -> (r: usize)
    ensures
        r == (if number > 0 { (number - 1) as usize } else { 0usize }),
{
    if number > 0 { (number - 1) as usize } else { 0 }
}

/// The position of the first verse numbered `number`.
fn verse_position(vs: &Vec<types::Verse>, number: u32) -> (r: Option<usize>)
    ensures
        match r {
            Some(i) => verse_position_from(vs@, number, 0) == Some(i as int),
            None => verse_position_from(vs@, number, 0) is None,
        },
{
    let mut i: usize = 0;
    while i < vs.len()
        invariant
            i <= vs@.len(),
            verse_position_from(vs@, number, 0) == verse_position_from(vs@, number, i as int),
        decreases vs.len() - i,
    {
        if vs[i].verse == number {
            return Some(i);
        }
        i = i + 1;
    }
    None
}

/// Whether two strings are equal.
pub fn str_eq(a: &str, b: &str) -> (r: bool)
    ensures
        r == (a@ == b@),
{
    let x = text::chars_of(a);
    let y = text::chars_of(b);
    if x.len() != y.len() {
        return false;
    }
    let mut i: usize = 0;
    while i < x.len()
        invariant
            x@ == a@,
            y@ == b@,
            x.len() == y.len(),
            i <= x.len(),
            forall|j: int| 0 <= j < i ==> x@[j] == y@[j],
        decreases x.len() - i,
    {
        if x[i] != y[i] {
            assert(x@[i as int] != y@[i as int]);
            return false;
        }
        i = i + 1;
    }
    assert(x@ =~= y@);
    true
}

} // verus!
