//! Bookmark lookups: whether a verse is saved, and the note saved on it.
use vstd::prelude::*;
use crate::text::{self, eq_ignore_ascii_case};
use crate::types::Bookmark;

verus! {

/// Bookmark `b` is the verse given by translation, book, chapter and verse,
/// the names compared ignoring ASCII case.
pub open spec fn bookmark_is(b: Bookmark, translation: Seq<char>, book: Seq<char>, chapter: u32, verse: u32) -> bool {
    &&& text::eq_ignore_ascii_case_spec(b.translation@, translation)
    &&& text::eq_ignore_ascii_case_spec(b.book@, book)
    &&& b.chapter == chapter
    &&& b.verse == verse
}

/// The first of the bookmarks at or after `i` that is the given verse.
pub open spec fn first_bookmark_from(
    bs: Seq<Bookmark>,
    translation: Seq<char>,
    book: Seq<char>,
    chapter: u32,
    verse: u32,
    i: int,
) -> Option<int>
    decreases bs.len() - i,
{
    if i < 0 || i >= bs.len() {
        None
    } else if bookmark_is(bs[i], translation, book, chapter, verse) {
        Some(i)
    } else {
        first_bookmark_from(bs, translation, book, chapter, verse, i + 1)
    }
}

/// The first bookmark that is the given verse.
pub open spec fn find_bookmark_spec(bs: Seq<Bookmark>, translation: Seq<char>, book: Seq<char>, chapter: u32, verse: u32) -> Option<int> {
    first_bookmark_from(bs, translation, book, chapter, verse, 0)
}

/// The position of the first bookmark on the given verse.
pub fn find_bookmark(bookmarks: &Vec<Bookmark>, translation: &str, book: &str, chapter: u32, verse: u32) -> (r: Option<usize>)
    ensures
        match r {
            Some(i) => i < bookmarks@.len() && find_bookmark_spec(bookmarks@, translation@, book@, chapter, verse) == Some(i as int),
            None => find_bookmark_spec(bookmarks@, translation@, book@, chapter, verse) is None,
        },
{
    let mut i: usize = 0;
    while i < bookmarks.len()
        invariant
            i <= bookmarks@.len(),
            find_bookmark_spec(bookmarks@, translation@, book@, chapter, verse)
                == first_bookmark_from(bookmarks@, translation@, book@, chapter, verse, i as int),
        decreases bookmarks.len() - i,
    {
        let b = &bookmarks[i];
        if eq_ignore_ascii_case(b.translation.as_str(), translation) && eq_ignore_ascii_case(b.book.as_str(), book)
            && b.chapter == chapter && b.verse == verse {
            return Some(i);
        }
        i = i + 1;
    }
    None
}

/// Whether some bookmark is the given verse.
pub fn is_bookmarked(bookmarks: &Vec<Bookmark>, translation: &str, book: &str, chapter: u32, verse: u32) -> (r: bool)
    ensures
        r == (find_bookmark_spec(bookmarks@, translation@, book@, chapter, verse) is Some),
{
    find_bookmark(bookmarks, translation, book, chapter, verse).is_some()
}

} // verus!
