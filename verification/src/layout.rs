//! The decisions the browser screen is drawn from: panel widths, which
//! view fills the main area, list windows, result rows and their query
//! highlight, picker rows, scroll clamps and verse row styles.
use vstd::prelude::*;
use crate::books::{self, BOOK_COUNT};
use crate::browser::{self, BrowserState, Panel, ViewMode, SearchMode, BookmarkMode, ListState};
use crate::text::{self, string_of, to_lower, chars_of, str_width, push_char, push_str, push_decimal};
use crate::translations::{self, TRANSLATION_COUNT};
use crate::types::{self, SearchResult, Bookmark};

verus! {

// ---------------------------------------------------------------------------
// Books panel width
// ---------------------------------------------------------------------------

/// The column count of book `i`'s display name, as the panel stores it.
pub open spec fn name_cols(localized: Seq<String>, i: int) -> u16 {
    text::display_width(browser::display_name_spec(localized, i)) as u16
}

/// The widest of the first `n` display names (0 when `n` is 0).
pub open spec fn widest_spec(localized: Seq<String>, n: int) -> u16
    decreases n,
{
    if n <= 0 {
        0
    } else {
        let w = name_cols(localized, n - 1);
        let rest = widest_spec(localized, n - 1);
        if n == 1 || w > rest {
            w
        } else {
            rest
        }
    }
}

/// Every display name leaves room for the panel chrome.
pub open spec fn names_fit(localized: Seq<String>) -> bool {
    forall|i: int| 0 <= i < BOOK_COUNT ==> #[trigger] name_cols(localized, i) <= u16::MAX - 7
}

/// The Books panel width: the widest name plus 7 columns of chrome,
/// capped at 32 and at a third of the screen, never below 12.
pub open spec fn books_panel_width_spec(localized: Seq<String>, total: u16) -> u16 {
    let want = (widest_spec(localized, BOOK_COUNT as int) + 7) as u16;
    let capped = if want < 32 { want } else { 32u16 };
    let third = (total / 3) as u16;
    let fit = if capped < third { capped } else { third };
    if fit > 12 {
        fit
    } else {
        12
    }
}

proof fn lemma_widest_bound(localized: Seq<String>, n: int)
    requires
        0 <= n <= BOOK_COUNT,
        names_fit(localized),
    ensures
        widest_spec(localized, n) <= u16::MAX - 7,
    decreases n,
{
    if n > 0 {
        lemma_widest_bound(localized, n - 1);
        assert(name_cols(localized, n - 1) <= u16::MAX - 7);
    }
}

/// Width of the Books panel: the widest (localized) book name plus
/// borders, padding and highlight symbol.
pub fn books_panel_width(state: &BrowserState, total: u16) -> (w: u16)
    requires
        names_fit(state.localized_books@),
    ensures
        w == books_panel_width_spec(state.localized_books@, total),
{
    let mut widest: u16 = 0;
    let mut i: usize = 0;
    while i < BOOK_COUNT
        invariant
            i <= BOOK_COUNT,
            names_fit(state.localized_books@),
            widest == widest_spec(state.localized_books@, i as int),
        decreases BOOK_COUNT - i,
    {
        let w = str_width(state.book_display_name(i)) as u16;
        assert(w == name_cols(state.localized_books@, i as int));
        if i == 0 || w > widest {
            widest = w;
        }
        i = i + 1;
    }
    proof {
        lemma_widest_bound(state.localized_books@, BOOK_COUNT as int);
    }
    let want = widest + 7;
    let capped = if want < 32 { want } else { 32 };
    let third = total / 3;
    let fit = if capped < third { capped } else { third };
    if fit > 12 { fit } else { 12 }
}

/// The Books panel width, or `None` when some display name is too wide to
/// add the panel chrome to (the width computation would overflow).
pub fn books_panel_width_checked(state: &BrowserState, total: u16) -> (r: Option<u16>)
    ensures
        match r {
            Some(w) => names_fit(state.localized_books@) && w == books_panel_width_spec(state.localized_books@, total),
            None => !names_fit(state.localized_books@),
        },
{
    let mut i: usize = 0;
    while i < BOOK_COUNT
        invariant
            i <= BOOK_COUNT,
            forall|j: int| 0 <= j < i ==> #[trigger] name_cols(state.localized_books@, j) <= u16::MAX - 7,
        decreases BOOK_COUNT - i,
    {
        let w = str_width(state.book_display_name(i)) as u16;
        if w > u16::MAX - 7 {
            assert(name_cols(state.localized_books@, i as int) > u16::MAX - 7);
            return None;
        }
        i = i + 1;
    }
    Some(books_panel_width(state, total))
}

// ---------------------------------------------------------------------------
// Which view fills the screen
// ---------------------------------------------------------------------------

/// What the main area shows.
#[derive(Clone, Copy, Debug, PartialEq, Eq)]
pub enum MainView {
    /// Search results over the scripture area, with the search input.
    SearchResults,
    /// The bookmark list over the scripture area.
    Bookmarks,
    /// Two scripture columns side by side, sidebars hidden.
    Compare,
    /// Books, chapters and the scripture panel.
    Scripture,
}

/// Side-by-side comparison shows only when a comparison is set and no
/// search or bookmark list covers it.
pub open spec fn compare_active_spec(s: BrowserState) -> bool {
    s.compare_translation is Some && s.search is Off && s.bookmark_mode is Off
}

/// What the main area shows for a state.
pub open spec fn main_view_spec(s: BrowserState) -> MainView {
    if s.search is Active {
        MainView::SearchResults
    } else if s.bookmark_mode is Active {
        MainView::Bookmarks
    } else if compare_active_spec(s) {
        MainView::Compare
    } else {
        MainView::Scripture
    }
}

/// Whether side-by-side comparison is showing.
pub fn compare_active(s: &BrowserState) -> (r: bool)
    ensures
        r == compare_active_spec(*s),
{
    s.compare_translation.is_some() && matches!(s.search, SearchMode::Off) && matches!(s.bookmark_mode, BookmarkMode::Off)
}

/// What the main area shows.
pub fn main_view(s: &BrowserState) -> (r: MainView)
    ensures
        r == main_view_spec(*s),
{
    if matches!(s.search, SearchMode::Active { .. }) {
        MainView::SearchResults
    } else if matches!(s.bookmark_mode, BookmarkMode::Active { .. }) {
        MainView::Bookmarks
    } else if compare_active(s) {
        MainView::Compare
    } else {
        MainView::Scripture
    }
}

/// Whether a panel is drawn as the focused one: it is the active panel and
/// no search or bookmark list has the focus.
pub fn panel_is_active(s: &BrowserState, panel: Panel) -> (r: bool)
    ensures
        r == (s.active_panel == panel && s.search is Off && s.bookmark_mode is Off),
{
    let same = match (s.active_panel, panel) {
        (Panel::Books, Panel::Books) => true,
        (Panel::Chapters, Panel::Chapters) => true,
        (Panel::Scripture, Panel::Scripture) => true,
        _ => false,
    };
    same && matches!(s.search, SearchMode::Off) && matches!(s.bookmark_mode, BookmarkMode::Off)
}

/// What the scripture panel shows.
#[derive(Clone, Copy, Debug, PartialEq, Eq)]
pub enum ScriptureContent {
    Loading,
    Error,
    VerseList,
    Paragraph,
    /// No chapter yet: how to start reading.
    Hint,
}

/// What the scripture panel shows for a state.
pub open spec fn scripture_content_spec(s: BrowserState) -> ScriptureContent {
    if s.loading {
        ScriptureContent::Loading
    } else if s.error is Some {
        ScriptureContent::Error
    } else if s.current_chapter is Some {
        match s.view_mode {
            ViewMode::VersePerLine => ScriptureContent::VerseList,
            ViewMode::Paragraph => ScriptureContent::Paragraph,
        }
    } else {
        ScriptureContent::Hint
    }
}

/// What the scripture panel shows: loading, an error, the chapter in the
/// current view mode, or the hint.
pub fn scripture_content(s: &BrowserState) -> (r: ScriptureContent)
    ensures
        r == scripture_content_spec(*s),
{
    if s.loading {
        ScriptureContent::Loading
    } else if s.error.is_some() {
        ScriptureContent::Error
    } else if s.current_chapter.is_some() {
        match s.view_mode {
            ViewMode::VersePerLine => ScriptureContent::VerseList,
            ViewMode::Paragraph => ScriptureContent::Paragraph,
        }
    } else {
        ScriptureContent::Hint
    }
}

// ---------------------------------------------------------------------------
// List windows
// ---------------------------------------------------------------------------

/// The first row shown of a list of `total` rows in a window of `height`
/// rows: scrolled just enough to show the selection, then kept so that the
/// window is filled when it can be.
pub open spec fn window_offset_spec(offset: usize, selected: Option<usize>, height: usize, total: usize) -> usize {
    let o = match selected {
        Some(sel) => if sel < offset {
            sel
        } else if height > 0 && sel - offset >= height {
            (sel - height + 1) as usize
        } else {
            offset
        },
        None => offset,
    };
    let max_offset = if total > height { (total - height) as usize } else { 0usize };
    if o < max_offset {
        o
    } else {
        max_offset
    }
}

/// The first shown row and the end of the shown rows of a windowed list.
pub fn list_window(offset: usize, selected: Option<usize>, height: usize, total: usize) -> (r: (usize, usize))
    ensures
        r.0 == window_offset_spec(offset, selected, height, total),
        r.1 == if r.0 + height < total { (r.0 + height) as usize } else { total },
        r.0 <= r.1 <= total,
{
    let mut o = offset;
    if let Some(sel) = selected {
        if sel < o {
            o = sel;
        } else if height > 0 && sel - o >= height {
            o = sel - height + 1;
        }
    }
    let max_offset = if total > height { total - height } else { 0 };
    if o > max_offset {
        o = max_offset;
    }
    let end = if height < total - o { o + height } else { total };
    (o, end)
}

// ---------------------------------------------------------------------------
// Result and bookmark rows
// ---------------------------------------------------------------------------

/// The reference shown for a verse: book, space, chapter, colon, verse.
pub open spec fn reference_spec(book: Seq<char>, chapter: u32, verse: u32) -> Seq<char> {
    book + " "@ + text::decimal(chapter as nat) + ":"@ + text::decimal(verse as nat)
}

/// The reference shown for a verse.
pub fn reference(book: &str, chapter: u32, verse: u32) -> (r: String)
    ensures
        r@ == reference_spec(book@, chapter, verse),
{
    let mut s = string_of(book);
    push_str(&mut s, " ");
    push_decimal(&mut s, chapter as u64);
    push_str(&mut s, ":");
    push_decimal(&mut s, verse as u64);
    s
}

/// How many characters of text a list row has room for after its
/// reference and chrome: the row width less the chrome, at least 20.
pub open spec fn text_budget_spec(ref_width: usize, marker_len: usize, panel_width: u16) -> usize {
    let chrome = 6 + ref_width + marker_len;
    if panel_width as int - chrome > 20 {
        (panel_width as int - chrome) as usize
    } else {
        20
    }
}

/// How many characters of text a list row has room for: borders, padding
/// and highlight symbol (6), the reference's display width and a marker
/// are taken from the row width; never fewer than 20.
pub fn text_budget(ref_width: usize, marker_len: usize, panel_width: u16) -> (r: usize)
    requires
        6 + ref_width + marker_len <= usize::MAX,
    ensures
        r == text_budget_spec(ref_width, marker_len, panel_width),
        r >= 20,
{
    let chrome = 6 + ref_width + marker_len;
    let w = panel_width as usize;
    let room = if w > chrome { w - chrome } else { 0 };
    if room > 20 { room } else { 20 }
}

/// A search-result row: its reference and its text shortened to fit a
/// row `panel_width` columns wide; `None` when the reference is too wide
/// to add the chrome to.
pub fn search_row(r: &SearchResult, panel_width: u16) -> (row: Option<(String, String)>)
    ensures
        match row {
            Some((reference_text, shown)) => {
                let rs = reference_spec(r.book@, r.chapter, r.verse);
                &&& text::display_width(rs) <= usize::MAX - 6
                &&& reference_text@ == rs
                &&& shown@ == text::truncate_result_spec(r.text@, text_budget_spec(text::display_width(rs), 0, panel_width) as nat)
            },
            None => text::display_width(reference_spec(r.book@, r.chapter, r.verse)) > usize::MAX - 6,
        },
{
    let reference_text = reference(r.book.as_str(), r.chapter, r.verse);
    let w = str_width(reference_text.as_str());
    if w > usize::MAX - 6 {
        return None;
    }
    let budget = text_budget(w, 0, panel_width);
    let shown = text::truncate_result_text(r.text.as_str(), budget);
    Some((reference_text, shown))
}

/// The marker after a bookmark's reference when it carries a note.
pub open spec fn note_marker_spec(b: Bookmark) -> Seq<char> {
    if b.note is Some {
        " [note]"@
    } else {
        Seq::empty()
    }
}

/// A bookmark-list row: its reference, note marker and text shortened to
/// fit a row `panel_width` columns wide; `None` when the reference is too
/// wide to add the chrome to.
pub fn bookmark_row(b: &Bookmark, panel_width: u16) -> (row: Option<(String, String, String)>)
    ensures
        match row {
            Some((reference_text, marker, shown)) => {
                let rs = reference_spec(b.book@, b.chapter, b.verse);
                &&& text::display_width(rs) <= usize::MAX - 13
                &&& reference_text@ == rs
                &&& marker@ == note_marker_spec(*b)
                &&& shown@ == text::truncate_result_spec(
                    b.verse_text@,
                    text_budget_spec(text::display_width(rs), if b.note is Some { 7 } else { 0 }, panel_width) as nat,
                )
            },
            None => text::display_width(reference_spec(b.book@, b.chapter, b.verse)) > usize::MAX - 13,
        },
{
    let reference_text = reference(b.book.as_str(), b.chapter, b.verse);
    let w = str_width(reference_text.as_str());
    if w > usize::MAX - 13 {
        return None;
    }
    let (marker, marker_len) = if b.note.is_some() {
        (string_of(" [note]"), 7)
    } else {
        (String::new(), 0)
    };
    let budget = text_budget(w, marker_len, panel_width);
    let shown = text::truncate_result_text(b.verse_text.as_str(), budget);
    Some((reference_text, marker, shown))
}

/// The search panel's title: the query in quotes and the number of hits.
pub fn search_title(query: &str, count: usize) -> (r: String)
    ensures
        r@ == " Search: \""@ + query@ + "\" ("@ + text::decimal(count as nat) + " results) "@,
{
    let mut t = string_of(" Search: \"");
    push_str(&mut t, query);
    push_str(&mut t, "\" (");
    push_decimal(&mut t, count as u64);
    push_str(&mut t, " results) ");
    t
}

/// The bookmark list's title with the number of bookmarks.
pub fn bookmarks_title(count: usize) -> (r: String)
    ensures
        r@ == " Bookmarks ("@ + text::decimal(count as nat) + ") "@,
{
    let mut t = string_of(" Bookmarks (");
    push_decimal(&mut t, count as u64);
    push_str(&mut t, ") ");
    t
}

/// The title of a full-text preview: reference and translation.
pub fn preview_title(book: &str, chapter: u32, verse: u32, translation: &str) -> (r: String)
    ensures
        r@ == " "@ + reference_spec(book@, chapter, verse) + " \u{00b7} "@ + translation@ + " "@,
{
    let mut t = string_of(" ");
    let rf = reference(book, chapter, verse);
    push_str(&mut t, rf.as_str());
    push_str(&mut t, " \u{00b7} ");
    push_str(&mut t, translation);
    push_str(&mut t, " ");
    t
}

/// The note editor's title: the verse the note is for.
pub fn note_title(editor: &browser::NoteEditor) -> (r: String)
    ensures
        r@ == " Note \u{00b7} "@ + reference_spec(editor.book@, editor.chapter, editor.verse) + " "@,
{
    let mut t = string_of(" Note \u{00b7} ");
    let rf = reference(editor.book.as_str(), editor.chapter, editor.verse);
    push_str(&mut t, rf.as_str());
    push_str(&mut t, " ");
    t
}

/// The compare column's title: the compared translation, with the book
/// and chapter once that chapter is loaded.
pub fn compare_title(s: &BrowserState) -> (r: String)
    ensures
        ({
            let code = match s.compare_translation {
                Some(c) => c@,
                None => Seq::<char>::empty(),
            };
            r@ == match s.compare_chapter {
                Some(ch) => " "@ + code + " \u{00b7} "@ + ch.book@ + " "@ + text::decimal(ch.chapter as nat) + " "@,
                None => " "@ + code + " "@,
            }
        }),
{
    let mut t = string_of(" ");
    match &s.compare_translation {
        Some(c) => push_str(&mut t, c.as_str()),
        None => {},
    }
    match &s.compare_chapter {
        Some(ch) => {
            push_str(&mut t, " \u{00b7} ");
            push_str(&mut t, ch.book.as_str());
            push_str(&mut t, " ");
            push_decimal(&mut t, ch.chapter as u64);
            push_str(&mut t, " ");
        },
        None => push_str(&mut t, " "),
    }
    t
}

/// The message of an empty search-results panel: a query shorter than 3
/// bytes has not been searched yet.
pub fn empty_results_message(query: &str) -> (m: &'static str)
    ensures
        m@ == if query.len() < 3 { "Type at least 3 characters to search"@ } else { "No results found"@ },
{
    if query.len() < 3 {
        "Type at least 3 characters to search"
    } else {
        "No results found"
    }
}

// ---------------------------------------------------------------------------
// Query highlight
// ---------------------------------------------------------------------------

/// The characters `p..p + l` of `text` (at least one) lower-case to
/// exactly `query_lower`.
pub open spec fn run_matches(text: Seq<char>, query_lower: Seq<char>, p: int, l: int) -> bool {
    &&& 0 <= p
    &&& 1 <= l
    &&& p + l <= text.len()
    &&& text::lowercase(text.subrange(p, p + l)) == query_lower
}

/// `p..p + l` is the first matching run of a non-empty query: no matching
/// run starts earlier, and none that starts at `p` is shorter.
pub open spec fn is_first_run(text: Seq<char>, query_lower: Seq<char>, p: int, l: int) -> bool {
    &&& query_lower.len() > 0
    &&& run_matches(text, query_lower, p, l)
    &&& forall|p2: int, l2: int|
        #[trigger] run_matches(text, query_lower, p2, l2) ==> p < p2 || (p == p2 && l <= l2)
}

/// The text split around the first run of its own characters whose lower
/// case is the query: before, match, after. `None` when the query is
/// empty or no run of the text lower-cases to it.
pub open spec fn highlight_spec(text: Seq<char>, query_lower: Seq<char>) -> Option<(Seq<char>, Seq<char>, Seq<char>)> {
    if exists|p: int, l: int| is_first_run(text, query_lower, p, l) {
        let (p, l) = choose|p: int, l: int| is_first_run(text, query_lower, p, l);
        Some((text.take(p), text.subrange(p, p + l), text.skip(p + l)))
    } else {
        None
    }
}

/// There is at most one first run.
proof fn lemma_first_run_unique(text: Seq<char>, q: Seq<char>, p1: int, l1: int, p2: int, l2: int)
    requires
        is_first_run(text, q, p1, l1),
        is_first_run(text, q, p2, l2),
    ensures
        p1 == p2 && l1 == l2,
{
    assert(run_matches(text, q, p2, l2));
    assert(run_matches(text, q, p1, l1));
}

/// The characters `lo..hi` of `cs` as a new `String`.
fn string_from_range(cs: &Vec<char>, lo: usize, hi: usize) -> (s: String)
    requires
        lo <= hi <= cs@.len(),
    ensures
        s@ == cs@.subrange(lo as int, hi as int),
{
    let mut s = String::new();
    let mut i: usize = lo;
    while i < hi
        invariant
            lo <= i <= hi <= cs@.len(),
            s@ == cs@.subrange(lo as int, i as int),
        decreases hi - i,
    {
        push_char(&mut s, cs[i]);
        i = i + 1;
        assert(cs@.subrange(lo as int, i as int) == cs@.subrange(lo as int, i - 1 as int).push(cs@[i - 1 as int]));
    }
    s
}

/// Splits `text` around the first run of its own characters whose lower
/// case is `query_lower`, for styling the match.
pub fn highlight_split(text: &str, query_lower: &str) -> (r: Option<(String, String, String)>)
    ensures
        match r {
            Some((a, b, c)) => highlight_spec(text@, query_lower@) == Some((a@, b@, c@)),
            None => highlight_spec(text@, query_lower@) is None,
        },
        r is None <==> (query_lower@.len() == 0 || forall|p: int, l: int|
            !#[trigger] run_matches(text@, query_lower@, p, l)),
{
    let text_chars = chars_of(text);
    let query_chars = chars_of(query_lower);
    if query_chars.len() == 0 {
        return None;
    }
    let n = text_chars.len();
    let mut p: usize = 0;
    while p < n
        invariant
            p <= n,
            n == text@.len(),
            text_chars@ == text@,
            query_lower@.len() > 0,
            forall|p2: int, l2: int| 0 <= p2 < p ==> !#[trigger] run_matches(text@, query_lower@, p2, l2),
        decreases n - p,
    {
        let mut run = String::new();
        let mut e: usize = p;
        while e < n
            invariant
                p <= e <= n,
                n == text@.len(),
                text_chars@ == text@,
                run@ == text@.subrange(p as int, e as int),
                query_lower@.len() > 0,
                forall|p2: int, l2: int| 0 <= p2 < p ==> !#[trigger] run_matches(text@, query_lower@, p2, l2),
                forall|l2: int| l2 <= e - p ==> !#[trigger] run_matches(text@, query_lower@, p as int, l2),
            decreases n - e,
        {
            push_char(&mut run, text_chars[e]);
            e = e + 1;
            assert(run@ == text@.subrange(p as int, e as int));
            let low = to_lower(run.as_str());
            if crate::browser::str_eq(low.as_str(), query_lower) {
                let before = string_from_range(&text_chars, 0, p);
                let after = string_from_range(&text_chars, e, n);
                proof {
                    let l = e - p;
                    assert(run_matches(text@, query_lower@, p as int, l));
                    assert(is_first_run(text@, query_lower@, p as int, l));
                    let (p1, l1) = choose|p1: int, l1: int| is_first_run(text@, query_lower@, p1, l1);
                    lemma_first_run_unique(text@, query_lower@, p1, l1, p as int, l);
                    assert(text_chars@.subrange(0, p as int) == text@.take(p as int));
                    assert(text_chars@.subrange(e as int, n as int) == text@.skip(e as int));
                }
                return Some((before, run, after));
            }
        }
        assert forall|l2: int| !#[trigger] run_matches(text@, query_lower@, p as int, l2) by {
            if l2 <= e - p {
            }
        }
        p = p + 1;
    }
    assert forall|p2: int, l2: int| !#[trigger] is_first_run(text@, query_lower@, p2, l2) by {
        if 0 <= p2 < n {
            assert(!run_matches(text@, query_lower@, p2, l2));
        }
    }
    None
}

// ---------------------------------------------------------------------------
// Status bar
// ---------------------------------------------------------------------------

/// Download progress in whole percent (0 when the total is unknown).
pub fn download_percent(completed: usize, total: usize) -> (p: usize)
    requires
        completed * 100 <= usize::MAX,
    ensures
        p == if total > 0 { (completed * 100) / total as int } else { 0 },
{
    if total > 0 {
        (completed * 100) / total
    } else {
        0
    }
}

// ---------------------------------------------------------------------------
// Translation pickers
// ---------------------------------------------------------------------------

/// A line of a translation picker.
#[derive(Clone, Copy, Debug, PartialEq, Eq)]
pub enum PickerRow {
    /// Empty line between language groups.
    Blank,
    /// Language heading above catalogue entry `i`.
    Header(usize),
    /// Catalogue entry `i`.
    Entry(usize),
}

/// The language of the entry before `i` (empty before the first).
pub open spec fn prev_lang(i: int) -> Seq<char> {
    if i <= 0 {
        Seq::empty()
    } else {
        translations::translation_lang_spec(i - 1)
    }
}

/// The picker lines for the first `n` catalogue entries: a heading
/// whenever the language changes (after a blank line, except at the top),
/// then the entry.
pub open spec fn picker_rows_spec(n: int) -> Seq<PickerRow>
    decreases n,
{
    if n <= 0 {
        Seq::empty()
    } else {
        let i = n - 1;
        let prev = picker_rows_spec(i);
        let lang = translations::translation_lang_spec(i);
        let group = if lang != prev_lang(i) {
            if prev_lang(i).len() > 0 {
                seq![PickerRow::Blank, PickerRow::Header(i as usize)]
            } else {
                seq![PickerRow::Header(i as usize)]
            }
        } else {
            Seq::empty()
        };
        prev + group + seq![PickerRow::Entry(i as usize)]
    }
}

/// The lines of a translation picker, grouped by language.
pub fn picker_rows() -> (rows: Vec<PickerRow>)
    ensures
        rows@ == picker_rows_spec(TRANSLATION_COUNT as int),
{
    let mut rows: Vec<PickerRow> = Vec::new();
    let mut last_lang: &str = "";
    let mut i: usize = 0;
    proof {
        reveal_strlit("");
    }
    while i < TRANSLATION_COUNT
        invariant
            i <= TRANSLATION_COUNT,
            last_lang@ == prev_lang(i as int),
            rows@ == picker_rows_spec(i as int),
        decreases TRANSLATION_COUNT - i,
    {
        let t = translations::translation_info(i);
        if !crate::browser::str_eq(t.lang, last_lang) {
            if !last_lang.is_empty() {
                rows.push(PickerRow::Blank);
            }
            rows.push(PickerRow::Header(i));
            last_lang = t.lang;
        }
        rows.push(PickerRow::Entry(i));
        assert(rows@ =~= picker_rows_spec(i + 1));
        i = i + 1;
    }
    rows
}

/// The line of the picker that shows the selected entry (0 when nothing
/// is selected or no line shows it).
pub open spec fn picker_selected_line_spec(rows: Seq<PickerRow>, selected: Option<usize>, n: int) -> u16
    decreases n,
{
    if n <= 0 {
        0
    } else if selected matches Some(s) && rows[n - 1] == PickerRow::Entry(s) {
        (n - 1) as u16
    } else {
        picker_selected_line_spec(rows, selected, n - 1)
    }
}

/// The picker line showing the selected entry.
pub fn picker_selected_line(rows: &Vec<PickerRow>, selected: Option<usize>) -> (r: u16)
    ensures
        r == picker_selected_line_spec(rows@, selected, rows@.len() as int),
{
    let mut i = rows.len();
    while i > 0
        invariant
            i <= rows@.len(),
            picker_selected_line_spec(rows@, selected, rows@.len() as int) == picker_selected_line_spec(rows@, selected, i as int),
        decreases i,
    {
        if let Some(s) = selected {
            let same = match rows[i - 1] {
                PickerRow::Entry(k) => k == s,
                _ => false,
            };
            if same {
                return (i - 1) as u16;
            }
        }
        i = i - 1;
    }
    0
}

/// Scroll of a popup so that line `row` is visible: none while it fits,
/// otherwise centred.
pub fn picker_scroll(row: u16, inner_height: u16) -> (r: u16)
    ensures
        r == if row >= inner_height {
            if row >= inner_height / 2 { (row - inner_height / 2) as u16 } else { 0u16 }
        } else {
            0u16
        },
{
    if row >= inner_height {
        if row >= inner_height / 2 { row - inner_height / 2 } else { 0 }
    } else {
        0
    }
}

/// Height of a popup of `lines` lines with borders and padding (4 rows),
/// kept `margin` rows smaller than the screen.
pub fn popup_height(lines: u16, area_height: u16, margin: u16) -> (r: u16)
    requires
        lines <= u16::MAX - 4,
    ensures
        r == if lines + 4 < (if area_height >= margin { area_height - margin } else { 0 }) {
            lines + 4
        } else {
            if area_height >= margin { area_height - margin } else { 0 }
        },
{
    let room = if area_height >= margin { area_height - margin } else { 0 };
    let want = lines + 4;
    if want < room { want } else { room }
}

/// The suffix of a picker entry: bundled or fully cached translations
/// read offline, partly cached ones are marked cached.
pub fn cache_suffix(offline: bool, fully_cached: bool, has_cached: bool) -> (s: &'static str)
    ensures
        s@ == if offline || fully_cached {
            " (offline)"@
        } else if has_cached {
            " (cached)"@
        } else {
            ""@
        },
{
    if offline || fully_cached {
        " (offline)"
    } else if has_cached {
        " (cached)"
    } else {
        ""
    }
}

// ---------------------------------------------------------------------------
// Scroll positions
// ---------------------------------------------------------------------------

/// The help overlay's scroll, kept within its content.
pub fn clamp_help_scroll(scroll: u16, content_height: u16, inner_height: u16) -> (r: u16)
    ensures
        r == if content_height > inner_height {
            if scroll < content_height - inner_height { scroll } else { (content_height - inner_height) as u16 }
        } else {
            0u16
        },
{
    let max_scroll = if content_height > inner_height { content_height - inner_height } else { 0 };
    if scroll > max_scroll { max_scroll } else { scroll }
}

/// The paragraph view's scroll: when asked to, the selected verse's first
/// row less a third of the view; then kept within the content.
pub open spec fn paragraph_scroll_spec(
    scroll: u16,
    pending: bool,
    rows_before: u16,
    content_height: u16,
    visible_height: u16,
) -> u16 {
    let s = if pending {
        if rows_before >= visible_height / 3 { (rows_before - visible_height / 3) as u16 } else { 0u16 }
    } else {
        scroll
    };
    if content_height > visible_height {
        if s > content_height - visible_height { (content_height - visible_height) as u16 } else { s }
    } else {
        0
    }
}

/// The paragraph view's scroll for this frame. `verse_rows` holds the
/// row each verse starts on in the wrapped text.
pub fn paragraph_scroll(
    scroll: u16,
    pending: bool,
    selected: usize,
    verse_rows: &Vec<u16>,
    content_height: u16,
    visible_height: u16,
) -> (r: u16)
    ensures
        r == paragraph_scroll_spec(
            scroll,
            pending,
            if selected < verse_rows@.len() { verse_rows@[selected as int] } else { 0 },
            content_height,
            visible_height,
        ),
{
    let rows_before = if selected < verse_rows.len() { verse_rows[selected] } else { 0 };
    let mut s = scroll;
    if pending {
        let third = visible_height / 3;
        s = if rows_before >= third { rows_before - third } else { 0 };
    }
    if content_height > visible_height {
        let max_scroll = content_height - visible_height;
        if s > max_scroll {
            s = max_scroll;
        }
    } else {
        s = 0;
    }
    s
}

/// The verse whose rows reach a target row: scanning verses in order, the
/// last one that starts at or above the target before the first that
/// starts below it (the first verse when none does).
pub open spec fn cursor_for_row_spec(starts: Seq<usize>, target: usize, n: int) -> usize
    decreases n,
{
    if n <= 0 {
        0
    } else if forall|j: int| 0 <= j < n ==> #[trigger] starts[j] <= target {
        (n - 1) as usize
    } else {
        cursor_for_row_spec(starts, target, n - 1)
    }
}

/// The verse cursor that lands on the reading position when leaving
/// paragraph view: `starts` holds the row each verse starts on.
pub fn cursor_for_row(starts: &Vec<usize>, target: usize) -> (r: usize)
    ensures
        r == cursor_for_row_spec(starts@, target, starts@.len() as int),
{
    let mut idx: usize = 0;
    let mut i: usize = 0;
    while i < starts.len()
        invariant
            i <= starts@.len(),
            forall|j: int| 0 <= j < i ==> #[trigger] starts@[j] <= target,
            idx == cursor_for_row_spec(starts@, target, i as int),
        ensures
            i <= starts@.len(),
            idx == cursor_for_row_spec(starts@, target, i as int),
            forall|j: int| 0 <= j < i ==> #[trigger] starts@[j] <= target,
            i < starts@.len() ==> starts@[i as int] > target,
        decreases starts.len() - i,
    {
        if starts[i] <= target {
            idx = i;
        } else {
            break;
        }
        i = i + 1;
    }
    proof {
        lemma_cursor_stable(starts@, target, i as int, starts@.len() as int);
    }
    idx
}

proof fn lemma_cursor_stable(starts: Seq<usize>, target: usize, i: int, n: int)
    requires
        0 <= i <= n <= starts.len(),
        i < n ==> starts[i] > target,
    ensures
        cursor_for_row_spec(starts, target, n) == cursor_for_row_spec(starts, target, i),
    decreases n - i,
{
    if i < n {
        assert(!(starts[i] <= target));
        lemma_cursor_stable_above(starts, target, i, n);
    }
}

proof fn lemma_cursor_stable_above(starts: Seq<usize>, target: usize, i: int, n: int)
    requires
        0 <= i < n <= starts.len(),
        starts[i] > target,
    ensures
        cursor_for_row_spec(starts, target, n) == cursor_for_row_spec(starts, target, i),
    decreases n - i,
{
    if n > i + 1 {
        lemma_cursor_stable_above(starts, target, i, n - 1);
    }
    assert(!(forall|j: int| 0 <= j < n ==> #[trigger] starts[j] <= target)) by {
        assert(!(starts[i] <= target));
    }
}

/// How a verse row is styled, in order of precedence.
#[derive(Clone, Copy, Debug, PartialEq, Eq)]
pub enum VerseRowStyle {
    /// The verse jumped to from a search hit.
    Highlighted,
    /// The verse under the cursor.
    Selected { bookmarked: bool },
    /// A verse inside the copy range.
    InRange { bookmarked: bool },
    /// A bookmarked verse.
    Bookmarked,
    Plain,
}

/// The style of a verse row: highlight beats cursor beats copy range beats
/// bookmark.
pub fn verse_row_style(highlighted: bool, selected: bool, in_range: bool, bookmarked: bool) -> (r: VerseRowStyle)
    ensures
        r == if highlighted {
            VerseRowStyle::Highlighted
        } else if selected {
            VerseRowStyle::Selected { bookmarked }
        } else if in_range {
            VerseRowStyle::InRange { bookmarked }
        } else if bookmarked {
            VerseRowStyle::Bookmarked
        } else {
            VerseRowStyle::Plain
        },
{
    if highlighted {
        VerseRowStyle::Highlighted
    } else if selected {
        VerseRowStyle::Selected { bookmarked }
    } else if in_range {
        VerseRowStyle::InRange { bookmarked }
    } else if bookmarked {
        VerseRowStyle::Bookmarked
    } else {
        VerseRowStyle::Plain
    }
}

/// The scroll that centres line `target` in a view `visible` lines high
/// (used by the compare column to follow the primary cursor).
pub fn centred_scroll(target: usize, visible: usize) -> (r: usize)
    ensures
        r == if target >= visible / 2 { (target - visible / 2) as usize } else { 0usize },
{
    if target >= visible / 2 { target - visible / 2 } else { 0 }
}

/// The sum of the first `n` row counts.
pub open spec fn rows_sum(heights: Seq<usize>, n: int) -> nat
    decreases n,
{
    if n <= 0 {
        0
    } else {
        rows_sum(heights, n - 1) + heights[n - 1] as nat
    }
}

proof fn lemma_rows_sum_mono(heights: Seq<usize>, i: int, j: int)
    requires
        0 <= i <= j <= heights.len(),
    ensures
        rows_sum(heights, i) <= rows_sum(heights, j),
    decreases j - i,
{
    if i < j {
        lemma_rows_sum_mono(heights, i, j - 1);
    }
}

/// The verse list's scrollbar, when the rows overflow the view: the
/// largest scroll and the position of the first shown verse (its rows
/// before it, at most that largest scroll).
pub open spec fn scrollbar_spec(heights: Seq<usize>, offset: usize, visible: usize) -> Option<(nat, nat)> {
    let total = rows_sum(heights, heights.len() as int);
    if total > visible && visible > 0 {
        let first = if offset < heights.len() { offset as int } else { heights.len() as int };
        let max_scroll = (total - visible) as nat;
        let before = rows_sum(heights, first);
        Some((max_scroll, if before < max_scroll { before } else { max_scroll }))
    } else {
        None
    }
}

/// The verse list's scrollbar (largest scroll, position), or `None` when
/// every row fits. `heights` holds the rows of each verse.
pub fn verse_scrollbar(heights: &Vec<usize>, offset: usize, visible: usize) -> (r: Option<(usize, usize)>)
    requires
        rows_sum(heights@, heights@.len() as int) <= usize::MAX,
    ensures
        match r {
            Some((m, p)) => scrollbar_spec(heights@, offset, visible) == Some((m as nat, p as nat)),
            None => scrollbar_spec(heights@, offset, visible) is None,
        },
{
    let ghost hs = heights@;
    let first = if offset < heights.len() { offset } else { heights.len() };
    let mut total: usize = 0;
    let mut before: usize = 0;
    let mut i: usize = 0;
    while i < heights.len()
        invariant
            i <= hs.len(),
            hs == heights@,
            first <= hs.len(),
            rows_sum(hs, hs.len() as int) <= usize::MAX,
            total as nat == rows_sum(hs, i as int),
            before as nat == rows_sum(hs, if i < first { i as int } else { first as int }),
        decreases heights.len() - i,
    {
        proof {
            lemma_rows_sum_mono(hs, i + 1, hs.len() as int);
        }
        total = total + heights[i];
        if i < first {
            before = before + heights[i];
        }
        i = i + 1;
    }
    if total > visible && visible > 0 {
        let max_scroll = total - visible;
        Some((max_scroll, if before < max_scroll { before } else { max_scroll }))
    } else {
        None
    }
}

/// The line of the compare column where the verse numbered `selected`
/// starts: each verse before it takes its wrapped lines plus a blank one;
/// the last verse with that number counts; 0 when none has it.
pub open spec fn compare_target_spec(lines: Seq<usize>, numbers: Seq<u32>, selected: Option<u32>, n: int) -> nat
    decreases n,
{
    if n <= 0 {
        0
    } else if selected == Some(numbers[n - 1]) {
        rows_sum(lines, n - 1)
    } else {
        compare_target_spec(lines, numbers, selected, n - 1)
    }
}

/// The line the compare column keeps centred: where the verse under the
/// primary cursor starts. `lines` holds each verse's rows (wrapped lines
/// plus the blank separator), `numbers` each verse's number.
pub fn compare_target_line(lines: &Vec<usize>, numbers: &Vec<u32>, selected: Option<u32>) -> (r: usize)
    requires
        lines@.len() == numbers@.len(),
        rows_sum(lines@, lines@.len() as int) <= usize::MAX,
    ensures
        r as nat == compare_target_spec(lines@, numbers@, selected, numbers@.len() as int),
{
    let mut target: usize = 0;
    let mut acc: usize = 0;
    let mut i: usize = 0;
    while i < numbers.len()
        invariant
            i <= numbers@.len(),
            lines@.len() == numbers@.len(),
            rows_sum(lines@, lines@.len() as int) <= usize::MAX,
            acc as nat == rows_sum(lines@, i as int),
            target as nat == compare_target_spec(lines@, numbers@, selected, i as int),
        decreases numbers.len() - i,
    {
        if selected == Some(numbers[i]) {
            target = acc;
        }
        proof {
            lemma_rows_sum_mono(lines@, i + 1, lines@.len() as int);
        }
        acc = acc + lines[i];
        i = i + 1;
    }
    target
}

// ---------------------------------------------------------------------------
// Per-frame state updates
// ---------------------------------------------------------------------------

impl BrowserState {
    /// Before drawing the verse list: when coming back from paragraph view,
    /// puts the cursor on the verse at the reading position (the scroll
    /// plus a third of the view); then clamps the cursor to the chapter.
    /// `starts` holds the row each verse starts on in paragraph layout.
    pub fn settle_verse_cursor(&mut self, starts: &Vec<usize>, visible_height: u16)
        ensures
            ({
                let synced = if old(self).pending_cursor_sync && old(self).current_chapter is Some {
                    browser::selected_as(old(self).verse_list, Some(cursor_for_row_spec(
                        starts@,
                        (old(self).scripture_scroll + visible_height / 3) as usize,
                        starts@.len() as int,
                    )))
                } else {
                    old(self).verse_list
                };
                let mid = BrowserState { pending_cursor_sync: false, verse_list: synced, ..*old(self) };
                *final(self) == BrowserState {
                    verse_list: browser::selected_as(synced, Some(browser::selected_verse_idx_spec(mid) as usize)),
                    ..mid
                }
            }),
    {
        if self.pending_cursor_sync {
            self.pending_cursor_sync = false;
            if self.current_chapter.is_some() {
                let target = self.scripture_scroll as usize + (visible_height as usize) / 3;
                let idx = cursor_for_row(starts, target);
                self.verse_list.select(Some(idx));
            }
        }
        let selected = self.selected_verse_idx();
        self.verse_list.select(Some(selected));
    }

    /// Before drawing paragraph view: carries the reading position in when
    /// asked to, then keeps the scroll within the content.
    /// `verse_rows` holds the row each verse starts on.
    pub fn settle_paragraph_scroll(&mut self, verse_rows: &Vec<u16>, content_height: u16, visible_height: u16)
        ensures
            *final(self) == (BrowserState {
                scripture_scroll: paragraph_scroll_spec(
                    old(self).scripture_scroll,
                    old(self).pending_paragraph_scroll,
                    if browser::selected_verse_idx_spec(*old(self)) < verse_rows@.len() {
                        verse_rows@[browser::selected_verse_idx_spec(*old(self)) as int]
                    } else {
                        0
                    },
                    content_height,
                    visible_height,
                ),
                pending_paragraph_scroll: false,
                ..*old(self)
            }),
    {
        let idx = self.selected_verse_idx();
        self.scripture_scroll = paragraph_scroll(
            self.scripture_scroll,
            self.pending_paragraph_scroll,
            idx,
            verse_rows,
            content_height,
            visible_height,
        );
        self.pending_paragraph_scroll = false;
    }

    /// Before drawing search results: scrolls the results list so the
    /// cursor row is shown in a window of `height` rows and returns the
    /// shown rows. Nothing changes when search is off.
    pub fn settle_results_window(&mut self, height: usize) -> (r: Option<(usize, usize)>)
        ensures
            match old(self).search {
                SearchMode::Active { query, results, list_state } => {
                    let o = window_offset_spec(list_state.offset, list_state.selected, height, results@.len() as usize);
                    &&& *final(self) == (BrowserState {
                        search: SearchMode::Active { query, results, list_state: ListState { offset: o, ..list_state } },
                        ..*old(self)
                    })
                    &&& r == Some((o, if o + height < results@.len() { (o + height) as usize } else { results@.len() as usize }))
                },
                SearchMode::Off => *final(self) == *old(self) && r is None,
            },
    {
        match &mut self.search {
            SearchMode::Active { results, list_state, .. } => {
                let w = list_window(list_state.offset, list_state.selected, height, results.len());
                list_state.offset = w.0;
                Some(w)
            },
            SearchMode::Off => None,
        }
    }

    /// Before drawing the bookmark list: scrolls it so the cursor row is
    /// shown in a window of `height` rows and returns the shown rows.
    /// Nothing changes when the list is closed.
    pub fn settle_bookmarks_window(&mut self, height: usize) -> (r: Option<(usize, usize)>)
        ensures
            match old(self).bookmark_mode {
                BookmarkMode::Active { list_state } => {
                    let total = old(self).bookmarks@.len() as usize;
                    let o = window_offset_spec(list_state.offset, list_state.selected, height, total);
                    &&& *final(self) == (BrowserState {
                        bookmark_mode: BookmarkMode::Active { list_state: ListState { offset: o, ..list_state } },
                        ..*old(self)
                    })
                    &&& r == Some((o, if o + height < total { (o + height) as usize } else { total }))
                },
                BookmarkMode::Off => *final(self) == *old(self) && r is None,
            },
    {
        let total = self.bookmarks.len();
        match &mut self.bookmark_mode {
            BookmarkMode::Active { list_state } => {
                let w = list_window(list_state.offset, list_state.selected, height, total);
                list_state.offset = w.0;
                Some(w)
            },
            BookmarkMode::Off => None,
        }
    }

    /// Keeps the help overlay's scroll within its content.
    pub fn settle_help_scroll(&mut self, content_height: u16, inner_height: u16)
        ensures
            *final(self) == (BrowserState {
                help_scroll: if content_height > inner_height {
                    if old(self).help_scroll < content_height - inner_height {
                        old(self).help_scroll
                    } else {
                        (content_height - inner_height) as u16
                    }
                } else {
                    0u16
                },
                ..*old(self)
            }),
    {
        self.help_scroll = clamp_help_scroll(self.help_scroll, content_height, inner_height);
    }
}

// ---------------------------------------------------------------------------
// Verse layout cache
// ---------------------------------------------------------------------------

/// The wrapped layout of one verse in verse-per-line view.
#[derive(Clone, Debug)]
pub struct VerseLayoutEntry {
    pub verse: u32,
    /// The verse number followed by a space.
    pub num: String,
    /// Display width of `num`.
    pub num_w: usize,
    /// The verse text wrapped to the body width.
    pub wrapped: Vec<String>,
    /// Rows the verse takes: its lines plus a blank separator.
    pub height: usize,
}

/// The word-wrapped layout of the loaded chapter, rebuilt only when the
/// chapter or the panel width changes so cursor moves stay cheap.
#[derive(Debug)]
pub struct VerseLayoutCache {
    pub book: String,
    pub chapter: u32,
    pub translation: String,
    pub text_w: u16,
    pub entries: Vec<VerseLayoutEntry>,
}

/// The text width the cache lays verses out for: at least 10 columns.
pub open spec fn layout_width(text_w: u16) -> u16 {
    if text_w > 10 {
        text_w
    } else {
        10
    }
}

/// The cache already holds the layout of this chapter at this width.
pub open spec fn cache_current(c: VerseLayoutCache, ch: types::Chapter, text_w: u16) -> bool {
    &&& c.book@ == ch.book@
    &&& c.chapter == ch.chapter
    &&& c.translation@ == ch.translation@
    &&& c.text_w == layout_width(text_w)
    &&& c.entries@.len() > 0
}

/// The width verse text wraps to after a number of width `num_w`.
pub open spec fn body_width(text_w: u16, num_w: usize) -> usize {
    if (text_w as int) - num_w > 10 {
        ((text_w as int) - num_w) as usize
    } else {
        10
    }
}

/// Entry `e` lays out verse `v` at width `text_w` using `wrap`.
pub open spec fn entry_lays_out<F: Fn(&str, usize) -> Vec<String>>(
    e: VerseLayoutEntry,
    v: types::Verse,
    text_w: u16,
    wrap: F,
) -> bool {
    &&& e.verse == v.verse
    &&& e.num@ == text::decimal(v.verse as nat) + " "@
    &&& e.num_w == text::display_width(e.num@)
    &&& exists|t: &str| t@ == v.text@ && #[trigger] call_ensures(wrap, (t, body_width(text_w, e.num_w)), e.wrapped)
    &&& e.height == if e.wrapped@.len() < usize::MAX { (e.wrapped@.len() + 1) as usize } else { usize::MAX }
}

/// What `ensure` leaves: the cache unchanged when it already holds the
/// chapter at that width; otherwise the chapter's identity, the width (at
/// least 10) and one entry per verse, each laid out with `wrap`.
pub open spec fn ensure_outcome<F: Fn(&str, usize) -> Vec<String>>(
    before: VerseLayoutCache,
    after: VerseLayoutCache,
    chapter: types::Chapter,
    text_w: u16,
    wrap: F,
) -> bool {
    if cache_current(before, chapter, text_w) {
        after == before
    } else {
        &&& after.book@ == chapter.book@
        &&& after.chapter == chapter.chapter
        &&& after.translation@ == chapter.translation@
        &&& after.text_w == layout_width(text_w)
        &&& after.entries@.len() == chapter.verses@.len()
        &&& forall|i: int|
            0 <= i < chapter.verses@.len() ==> entry_lays_out(
                #[trigger] after.entries@[i],
                chapter.verses@[i],
                layout_width(text_w),
                wrap,
            )
    }
}

impl Default for VerseLayoutCache {
    fn default() -> (c: VerseLayoutCache)
        ensures
            c.book@ == Seq::<char>::empty(),
            c.chapter == 0,
            c.translation@ == Seq::<char>::empty(),
            c.text_w == 0,
            c.entries@.len() == 0,
    {
        VerseLayoutCache { book: String::new(), chapter: 0, translation: String::new(), text_w: 0, entries: Vec::new() }
    }
}

impl VerseLayoutCache {
    /// Makes the cache hold the layout of `chapter` at `text_w` columns
    /// (at least 10), wrapping each verse with `wrap`; does nothing when it
    /// already does.
    pub fn ensure<F: Fn(&str, usize) -> Vec<String>>(&mut self, chapter: &types::Chapter, text_w: u16, wrap: &F)
        requires
            forall|t: &str, w: usize| call_requires(*wrap, (t, w)),
        ensures
            ensure_outcome(*old(self), *final(self), *chapter, text_w, *wrap),
    {
        let w = if text_w > 10 { text_w } else { 10 };
        if crate::browser::str_eq(self.book.as_str(), chapter.book.as_str()) && self.chapter == chapter.chapter
            && crate::browser::str_eq(self.translation.as_str(), chapter.translation.as_str()) && self.text_w == w
            && self.entries.len() > 0 {
            return;
        }
        self.book = chapter.book.clone();
        self.chapter = chapter.chapter;
        self.translation = chapter.translation.clone();
        self.text_w = w;
        let mut entries: Vec<VerseLayoutEntry> = Vec::new();
        let mut i: usize = 0;
        while i < chapter.verses.len()
            invariant
                i <= chapter.verses@.len(),
                w == layout_width(text_w),
                forall|t: &str, x: usize| call_requires(*wrap, (t, x)),
                entries@.len() == i,
                forall|j: int| 0 <= j < i ==> entry_lays_out(#[trigger] entries@[j], chapter.verses@[j], w, *wrap),
            decreases chapter.verses.len() - i,
        {
            let v = &chapter.verses[i];
            let mut num = text::decimal_string(v.verse as u64);
            push_str(&mut num, " ");
            let num_w = str_width(num.as_str());
            let body_w = if (w as usize) > num_w && (w as usize) - num_w > 10 { (w as usize) - num_w } else { 10 };
            let t = v.text.as_str();
            let wrapped = wrap(t, body_w);
            assert(body_w == body_width(w, num_w));
            let n = wrapped.len();
            let height = if n < usize::MAX { n + 1 } else { usize::MAX };
            let e = VerseLayoutEntry { verse: v.verse, num, num_w, wrapped, height };
            assert(call_ensures(*wrap, (t, body_width(w, e.num_w)), e.wrapped));
            entries.push(e);
            i = i + 1;
        }
        self.entries = entries;
    }

    /// The cached verse layouts.
    pub fn entries(&self) -> (r: &Vec<VerseLayoutEntry>)
        ensures
            r == &self.entries,
    {
        &self.entries
    }
}

} // verus!
