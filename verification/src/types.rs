//! Plain records shared by the reader: verses, chapters, search hits,
//! bookmarks and the saved session.
use vstd::prelude::*;

verus! {

/// A verse as the contracts see it: every string by its characters.
pub struct VerseView {
    pub book: Seq<char>,
    pub chapter: u32,
    pub verse: u32,
    pub text: Seq<char>,
    pub translation: Seq<char>,
}

/// One verse of one translation.
#[derive(Clone, Debug)]
pub struct Verse {
    pub book: String,
    pub chapter: u32,
    pub verse: u32,
    pub text: String,
    pub translation: String,
}

impl View for Verse {
    type V = VerseView;

    open spec fn view(&self) -> VerseView {
        VerseView {
            book: self.book@,
            chapter: self.chapter,
            verse: self.verse,
            text: self.text@,
            translation: self.translation@,
        }
    }
}

/// A search hit: the verse that matched, with its reference.
#[derive(Clone, Debug)]
pub struct SearchResult {
    pub book: String,
    pub chapter: u32,
    pub verse: u32,
    pub text: String,
    pub translation: String,
}

impl View for SearchResult {
    type V = VerseView;

    open spec fn view(&self) -> VerseView {
        VerseView {
            book: self.book@,
            chapter: self.chapter,
            verse: self.verse,
            text: self.text@,
            translation: self.translation@,
        }
    }
}

/// A chapter of one translation with its verses in order.
#[derive(Clone, Debug)]
pub struct Chapter {
    pub book: String,
    pub chapter: u32,
    pub verses: Vec<Verse>,
    pub translation: String,
}

/// A chapter as the contracts see it.
pub struct ChapterView {
    pub book: Seq<char>,
    pub chapter: u32,
    pub verses: Seq<VerseView>,
    pub translation: Seq<char>,
}

/// The views of a sequence of verses.
pub open spec fn verse_views(vs: Seq<Verse>) -> Seq<VerseView> {
    vs.map_values(|v: Verse| v@)
}

/// The view of a verse that may be absent.
pub open spec fn opt_verse_view(o: Option<Verse>) -> Option<VerseView> {
    match o {
        Some(v) => Some(v@),
        None => None,
    }
}

/// The views of a sequence of search hits.
pub open spec fn result_views(rs: Seq<SearchResult>) -> Seq<VerseView> {
    rs.map_values(|r: SearchResult| r@)
}

impl View for Chapter {
    type V = ChapterView;

    open spec fn view(&self) -> ChapterView {
        ChapterView {
            book: self.book@,
            chapter: self.chapter,
            verses: verse_views(self.verses@),
            translation: self.translation@,
        }
    }
}

/// A saved verse, optionally with a note.
#[derive(Clone, Debug)]
pub struct Bookmark {
    pub translation: String,
    pub book: String,
    pub chapter: u32,
    pub verse: u32,
    pub verse_text: String,
    pub note: Option<String>,
}

/// The reading position saved between sessions.
#[derive(Clone, Debug)]
pub struct SessionState {
    pub book_index: usize,
    pub chapter: u32,
    pub scroll_position: u16,
    pub active_panel: u8,
    pub translation: String,
    pub view_mode: u8,
    pub selected_verse: u32,
    pub last_compare_translation: Option<String>,
}

} // verus!
