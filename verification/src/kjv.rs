//! The bundled King James text and its lookups: a verse, a chapter, a
//! range of verses, a full-text search in canonical order, and a verse
//! picked from a seed.
use vstd::prelude::*;
use crate::books::{self, BOOK_COUNT, book_name};
use crate::text::{self, to_lower, parse_u32, string_of, chars_of, chars_contain};
use crate::types::{self, Verse, VerseView, Chapter, ChapterView, SearchResult};

verus! {

/// One verse as stored in the bundled data: its number and text as strings.
#[derive(Clone, Debug)]
pub struct KjvVerse {
    pub verse: String,
    pub text: String,
}

/// One chapter as stored in the bundled data.
#[derive(Clone, Debug)]
pub struct KjvChapter {
    pub chapter: String,
    pub verses: Vec<KjvVerse>,
}

/// One book as stored in the bundled data.
#[derive(Clone, Debug)]
pub struct KjvBook {
    pub book: String,
    pub chapters: Vec<KjvChapter>,
}

/// The whole bundled translation, books in the order the data lists them.
#[derive(Clone, Debug)]
pub struct Kjv {
    pub books: Vec<KjvBook>,
}

// ---------------------------------------------------------------------------
// Specifications
// ---------------------------------------------------------------------------

/// The translation code every bundled verse carries.
pub open spec fn kjv_code() -> Seq<char> {
    "KJV"@
}

/// Book `i` has the lookup key `key` (names compare by their lower-case form).
pub open spec fn book_has_key(books: Seq<KjvBook>, i: int, key: Seq<char>) -> bool {
    text::lowercase(books[i].book@) == key
}

/// The last of the first `n` books whose key is `key`: looking a name up
/// in a map built from the books in order keeps the last book of each key.
pub open spec fn last_book_with_key(books: Seq<KjvBook>, key: Seq<char>, n: int) -> Option<int>
    decreases n,
{
    if n <= 0 {
        None
    } else if book_has_key(books, n - 1, key) {
        Some(n - 1)
    } else {
        last_book_with_key(books, key, n - 1)
    }
}

/// The book that a name refers to, compared without regard to case.
pub open spec fn find_book_spec(kjv: Kjv, name: Seq<char>) -> Option<int> {
    last_book_with_key(kjv.books@, text::lowercase(name), kjv.books@.len() as int)
}

/// The first chapter at or after index `i` whose number parses to `n`.
pub open spec fn first_chapter_from(chs: Seq<KjvChapter>, n: u32, i: int) -> Option<int>
    decreases chs.len() - i,
{
    if i < 0 || i >= chs.len() {
        None
    } else if text::parse_u32_spec(chs[i].chapter@) == Some(n) {
        Some(i)
    } else {
        first_chapter_from(chs, n, i + 1)
    }
}

/// The first chapter whose number parses to `n`.
pub open spec fn find_chapter_spec(chs: Seq<KjvChapter>, n: u32) -> Option<int> {
    first_chapter_from(chs, n, 0)
}

/// The first verse at or after index `i` whose number parses to `n`.
pub open spec fn first_verse_from(vs: Seq<KjvVerse>, n: u32, i: int) -> Option<int>
    decreases vs.len() - i,
{
    if i < 0 || i >= vs.len() {
        None
    } else if text::parse_u32_spec(vs[i].verse@) == Some(n) {
        Some(i)
    } else {
        first_verse_from(vs, n, i + 1)
    }
}

/// The first verse whose number parses to `n`.
pub open spec fn find_verse_spec(vs: Seq<KjvVerse>, n: u32) -> Option<int> {
    first_verse_from(vs, n, 0)
}

/// The verse record built for a stored verse.
pub open spec fn verse_record(book: Seq<char>, chapter: u32, verse: u32, text: Seq<char>) -> VerseView {
    VerseView { book, chapter, verse, text, translation: kjv_code() }
}

/// The chapter and verse that a lookup by book name and numbers finds.
pub open spec fn get_verse_spec(kjv: Kjv, name: Seq<char>, chapter: u32, verse: u32) -> Option<VerseView> {
    match find_book_spec(kjv, name) {
        None => None,
        Some(b) => {
            let book = kjv.books@[b];
            match find_chapter_spec(book.chapters@, chapter) {
                None => None,
                Some(c) => {
                    let vs = book.chapters@[c].verses@;
                    match find_verse_spec(vs, verse) {
                        None => None,
                        Some(v) => Some(verse_record(book.book@, chapter, verse, vs[v].text@)),
                    }
                },
            }
        },
    }
}

/// The records of the first `n` stored verses whose number parses to a
/// value in `lo..=hi`, in order; verses whose number does not parse are left out.
pub open spec fn verses_in_range(
    book: Seq<char>,
    chapter: u32,
    vs: Seq<KjvVerse>,
    lo: u32,
    hi: u32,
    n: int,
) -> Seq<VerseView>
    decreases n,
{
    if n <= 0 {
        Seq::empty()
    } else {
        let prev = verses_in_range(book, chapter, vs, lo, hi, n - 1);
        match text::parse_u32_spec(vs[n - 1].verse@) {
            Some(k) => if lo <= k && k <= hi {
                prev.push(verse_record(book, chapter, k, vs[n - 1].text@))
            } else {
                prev
            },
            None => prev,
        }
    }
}

/// The chapter that a lookup by book name and number finds, with every
/// verse whose number parses.
pub open spec fn get_chapter_spec(kjv: Kjv, name: Seq<char>, chapter: u32) -> Option<ChapterView> {
    match find_book_spec(kjv, name) {
        None => None,
        Some(b) => {
            let book = kjv.books@[b];
            match find_chapter_spec(book.chapters@, chapter) {
                None => None,
                Some(c) => {
                    let vs = book.chapters@[c].verses@;
                    Some(
                        ChapterView {
                            book: book.book@,
                            chapter,
                            verses: verses_in_range(book.book@, chapter, vs, 0, u32::MAX, vs.len() as int),
                            translation: kjv_code(),
                        },
                    )
                },
            }
        },
    }
}

/// The verses numbered `start..=end` of a chapter; empty when the book or
/// chapter is not found.
pub open spec fn get_verse_range_spec(
    kjv: Kjv,
    name: Seq<char>,
    chapter: u32,
    start: u32,
    end: u32,
) -> Seq<VerseView> {
    match find_book_spec(kjv, name) {
        None => Seq::empty(),
        Some(b) => {
            let book = kjv.books@[b];
            match find_chapter_spec(book.chapters@, chapter) {
                None => Seq::empty(),
                Some(c) => {
                    let vs = book.chapters@[c].verses@;
                    verses_in_range(book.book@, chapter, vs, start, end, vs.len() as int)
                },
            }
        },
    }
}

/// Search hits among the first `n` verses of a chapter: verses whose
/// lower-case text contains `key` and whose number parses.
pub open spec fn verse_hits(book: Seq<char>, chapter: u32, vs: Seq<KjvVerse>, key: Seq<char>, n: int) -> Seq<VerseView>
    decreases n,
{
    if n <= 0 {
        Seq::empty()
    } else {
        let prev = verse_hits(book, chapter, vs, key, n - 1);
        if text::contains_spec(text::lowercase(vs[n - 1].text@), key) {
            match text::parse_u32_spec(vs[n - 1].verse@) {
                Some(k) => prev.push(verse_record(book, chapter, k, vs[n - 1].text@)),
                None => prev,
            }
        } else {
            prev
        }
    }
}

/// Search hits among the first `n` chapters of a book, skipping chapters
/// whose number does not parse.
pub open spec fn chapter_hits(book: KjvBook, key: Seq<char>, n: int) -> Seq<VerseView>
    decreases n,
{
    if n <= 0 {
        Seq::empty()
    } else {
        let prev = chapter_hits(book, key, n - 1);
        let ch = book.chapters@[n - 1];
        match text::parse_u32_spec(ch.chapter@) {
            Some(c) => prev + verse_hits(book.book@, c, ch.verses@, key, ch.verses@.len() as int),
            None => prev,
        }
    }
}

/// Search hits in the stored book that canonical book `i` names.
pub open spec fn book_hits(kjv: Kjv, key: Seq<char>, i: int) -> Seq<VerseView> {
    match find_book_spec(kjv, books::book_name_spec(i)) {
        None => Seq::empty(),
        Some(b) => chapter_hits(kjv.books@[b], key, kjv.books@[b].chapters@.len() as int),
    }
}

/// Search hits in the first `n` canonical books, in canonical order.
pub open spec fn canonical_hits(kjv: Kjv, key: Seq<char>, n: int) -> Seq<VerseView>
    decreases n,
{
    if n <= 0 {
        Seq::empty()
    } else {
        canonical_hits(kjv, key, n - 1) + book_hits(kjv, key, n - 1)
    }
}

/// Every verse whose text contains the query, ignoring case, in canonical
/// book order (Genesis to Revelation), then chapter and verse order.
pub open spec fn search_spec(kjv: Kjv, query: Seq<char>) -> Seq<VerseView> {
    canonical_hits(kjv, text::lowercase(query), BOOK_COUNT as int)
}

/// Every verse of the first `n` chapters of a book whose chapter and verse
/// numbers parse, in stored order.
pub open spec fn chapter_verses(book: KjvBook, n: int) -> Seq<VerseView>
    decreases n,
{
    if n <= 0 {
        Seq::empty()
    } else {
        let prev = chapter_verses(book, n - 1);
        let ch = book.chapters@[n - 1];
        match text::parse_u32_spec(ch.chapter@) {
            Some(c) => prev + verses_in_range(book.book@, c, ch.verses@, 0, u32::MAX, ch.verses@.len() as int),
            None => prev,
        }
    }
}

/// Every verse of the stored books that the first `n` canonical books name,
/// in canonical order.
pub open spec fn canonical_verses(kjv: Kjv, n: int) -> Seq<VerseView>
    decreases n,
{
    if n <= 0 {
        Seq::empty()
    } else {
        canonical_verses(kjv, n - 1) + match find_book_spec(kjv, books::book_name_spec(n - 1)) {
            None => Seq::empty(),
            Some(b) => chapter_verses(kjv.books@[b], kjv.books@[b].chapters@.len() as int),
        }
    }
}

proof fn lemma_verse_hits_empty_key(book: Seq<char>, chapter: u32, vs: Seq<KjvVerse>, n: int)
    ensures
        verse_hits(book, chapter, vs, Seq::empty(), n) == verses_in_range(book, chapter, vs, 0, u32::MAX, n),
    decreases n,
{
    if n > 0 {
        lemma_verse_hits_empty_key(book, chapter, vs, n - 1);
        let low = text::lowercase(vs[n - 1].text@);
        assert(text::occurs_at(low, Seq::<char>::empty(), 0)) by {
            assert(low.subrange(0, 0) =~= Seq::<char>::empty());
        }
    }
}

proof fn lemma_chapter_hits_empty_key(book: KjvBook, n: int)
    ensures
        chapter_hits(book, Seq::empty(), n) == chapter_verses(book, n),
    decreases n,
{
    if n > 0 {
        lemma_chapter_hits_empty_key(book, n - 1);
        let ch = book.chapters@[n - 1];
        match text::parse_u32_spec(ch.chapter@) {
            Some(c) => lemma_verse_hits_empty_key(book.book@, c, ch.verses@, ch.verses@.len() as int),
            None => {},
        }
    }
}

proof fn lemma_canonical_hits_empty_key(kjv: Kjv, n: int)
    ensures
        canonical_hits(kjv, Seq::empty(), n) == canonical_verses(kjv, n),
    decreases n,
{
    if n > 0 {
        lemma_canonical_hits_empty_key(kjv, n - 1);
        match find_book_spec(kjv, books::book_name_spec(n - 1)) {
            None => {},
            Some(b) => lemma_chapter_hits_empty_key(kjv.books@[b], kjv.books@[b].chapters@.len() as int),
        }
    }
}

/// The book index a seed picks.
pub open spec fn seed_book(kjv: Kjv, seed: usize) -> int {
    seed as int % kjv.books@.len() as int
}

/// The chapter index a seed picks within its book.
pub open spec fn seed_chapter(kjv: Kjv, seed: usize) -> int {
    (seed as int / 7) % kjv.books@[seed_book(kjv, seed)].chapters@.len() as int
}

/// The verse index a seed picks within its chapter.
pub open spec fn seed_verse(kjv: Kjv, seed: usize) -> int {
    (seed as int / 13) % kjv.books@[seed_book(kjv, seed)].chapters@[seed_chapter(kjv, seed)].verses@.len() as int
}

/// A seed picks a book, chapter and verse that exist.
pub open spec fn seed_picks_verse(kjv: Kjv, seed: usize) -> bool {
    &&& kjv.books@.len() > 0
    &&& kjv.books@[seed_book(kjv, seed)].chapters@.len() > 0
    &&& kjv.books@[seed_book(kjv, seed)].chapters@[seed_chapter(kjv, seed)].verses@.len() > 0
}

/// The verse a seed picks, numbers that do not parse read as 1.
pub open spec fn verse_from_seed_spec(kjv: Kjv, seed: usize) -> VerseView {
    let book = kjv.books@[seed_book(kjv, seed)];
    let ch = book.chapters@[seed_chapter(kjv, seed)];
    let v = ch.verses@[seed_verse(kjv, seed)];
    verse_record(
        book.book@,
        match text::parse_u32_spec(ch.chapter@) {
            Some(n) => n,
            None => 1,
        },
        match text::parse_u32_spec(v.verse@) {
            Some(n) => n,
            None => 1,
        },
        v.text@,
    )
}

/// What a seed gives: the verse it picks, or nothing when it lands on no
/// book, an empty book or an empty chapter.
pub open spec fn seed_outcome(kjv: Kjv, seed: usize) -> Option<VerseView> {
    if seed_picks_verse(kjv, seed) {
        Some(verse_from_seed_spec(kjv, seed))
    } else {
        None
    }
}

// ---------------------------------------------------------------------------
// Lookups
// ---------------------------------------------------------------------------

/// The index of the book a name refers to, compared case-insensitively.
pub fn find_book(kjv: &Kjv, book_name: &str) -> (r: Option<usize>)
    ensures
        match r {
            Some(i) => find_book_spec(*kjv, book_name@) == Some(i as int),
            None => find_book_spec(*kjv, book_name@) is None,
        },
        r matches Some(i) ==> i < kjv.books@.len(),
{
    let key = to_lower(book_name);
    let mut i = kjv.books.len();
    while i > 0
        invariant
            i <= kjv.books@.len(),
            key@ == text::lowercase(book_name@),
            find_book_spec(*kjv, book_name@) == last_book_with_key(kjv.books@, key@, i as int),
        decreases i,
    {
        let k = to_lower(kjv.books[i - 1].book.as_str());
        if k == key {
            return Some(i - 1);
        }
        i = i - 1;
    }
    None
}

/// The index of the first chapter whose number parses to `chapter`.
fn find_chapter(chs: &Vec<KjvChapter>, chapter: u32) -> (r: Option<usize>)
    ensures
        match r {
            Some(i) => find_chapter_spec(chs@, chapter) == Some(i as int) && i < chs@.len(),
            None => find_chapter_spec(chs@, chapter) is None,
        },
{
    let mut i: usize = 0;
    while i < chs.len()
        invariant
            i <= chs@.len(),
            find_chapter_spec(chs@, chapter) == first_chapter_from(chs@, chapter, i as int),
        decreases chs.len() - i,
    {
        if parse_u32(chs[i].chapter.as_str()) == Some(chapter) {
            return Some(i);
        }
        i = i + 1;
    }
    None
}

/// The index of the first verse whose number parses to `verse`.
fn find_verse(vs: &Vec<KjvVerse>, verse: u32) -> (r: Option<usize>)
    ensures
        match r {
            Some(i) => find_verse_spec(vs@, verse) == Some(i as int) && i < vs@.len(),
            None => find_verse_spec(vs@, verse) is None,
        },
{
    let mut i: usize = 0;
    while i < vs.len()
        invariant
            i <= vs@.len(),
            find_verse_spec(vs@, verse) == first_verse_from(vs@, verse, i as int),
        decreases vs.len() - i,
    {
        if parse_u32(vs[i].verse.as_str()) == Some(verse) {
            return Some(i);
        }
        i = i + 1;
    }
    None
}

/// The record for a stored verse.
fn make_verse(book: &String, chapter: u32, verse: u32, text: &String) -> (v: Verse)
    ensures
        v@ == verse_record(book@, chapter, verse, text@),
{
    Verse {
        book: book.clone(),
        chapter,
        verse,
        text: text.clone(),
        translation: string_of("KJV"),
    }
}

/// Looks up one verse by book name (any case), chapter and verse number.
pub fn get_verse(kjv: &Kjv, book_name: &str, chapter: u32, verse: u32) -> (r: Option<Verse>)
    ensures
        match r {
            Some(v) => get_verse_spec(*kjv, book_name@, chapter, verse) == Some(v@),
            None => get_verse_spec(*kjv, book_name@, chapter, verse) is None,
        },
{
    let b = find_book(kjv, book_name)?;
    let book = &kjv.books[b];
    let c = find_chapter(&book.chapters, chapter)?;
    let ch = &book.chapters[c];
    let v = find_verse(&ch.verses, verse)?;
    Some(make_verse(&book.book, chapter, verse, &ch.verses[v].text))
}

/// The records of the stored verses of a chapter whose number parses to a
/// value in `lo..=hi`.
fn collect_verses(book: &String, chapter: u32, vs: &Vec<KjvVerse>, lo: u32, hi: u32) -> (r: Vec<Verse>)
    ensures
        types::verse_views(r@) == verses_in_range(book@, chapter, vs@, lo, hi, vs@.len() as int),
{
    let mut out: Vec<Verse> = Vec::new();
    let mut i: usize = 0;
    while i < vs.len()
        invariant
            i <= vs@.len(),
            types::verse_views(out@) == verses_in_range(book@, chapter, vs@, lo, hi, i as int),
        decreases vs.len() - i,
    {
        if let Some(k) = parse_u32(vs[i].verse.as_str()) {
            if lo <= k && k <= hi {
                let v = make_verse(book, chapter, k, &vs[i].text);
                out.push(v);
                assert(types::verse_views(out@) == types::verse_views(out@.drop_last()).push(v@));
            }
        }
        i = i + 1;
    }
    out
}

/// Looks up a whole chapter by book name (any case) and number; verses
/// whose number does not parse are left out.
pub fn get_chapter(kjv: &Kjv, book_name: &str, chapter: u32) -> (r: Option<Chapter>)
    ensures
        match r {
            Some(c) => get_chapter_spec(*kjv, book_name@, chapter) == Some(c@),
            None => get_chapter_spec(*kjv, book_name@, chapter) is None,
        },
{
    let b = find_book(kjv, book_name)?;
    let book = &kjv.books[b];
    let c = find_chapter(&book.chapters, chapter)?;
    let ch = &book.chapters[c];
    let verses = collect_verses(&book.book, chapter, &ch.verses, 0, u32::MAX);
    Some(Chapter { book: book.book.clone(), chapter, verses, translation: string_of("KJV") })
}

/// The verses numbered `verse_start..=verse_end` of a chapter, in order;
/// empty when the book or chapter is not found.
pub fn get_verse_range(kjv: &Kjv, book_name: &str, chapter: u32, verse_start: u32, verse_end: u32) -> (r: Vec<Verse>)
    ensures
        types::verse_views(r@) == get_verse_range_spec(*kjv, book_name@, chapter, verse_start, verse_end),
{
    let b = match find_book(kjv, book_name) {
        Some(b) => b,
        None => {
            return Vec::new();
        },
    };
    let book = &kjv.books[b];
    let c = match find_chapter(&book.chapters, chapter) {
        Some(c) => c,
        None => {
            return Vec::new();
        },
    };
    collect_verses(&book.book, chapter, &book.chapters[c].verses, verse_start, verse_end)
}

// ---------------------------------------------------------------------------
// Search
// ---------------------------------------------------------------------------

/// The hit record for a stored verse.
fn make_result(book: &String, chapter: u32, verse: u32, text: &String) -> (r: SearchResult)
    ensures
        r@ == verse_record(book@, chapter, verse, text@),
{
    SearchResult {
        book: book.clone(),
        chapter,
        verse,
        text: text.clone(),
        translation: string_of("KJV"),
    }
}

/// Appends the hits of one chapter to `out`.
fn push_verse_hits(
    out: &mut Vec<SearchResult>,
    book: &String,
    chapter: u32,
    vs: &Vec<KjvVerse>,
    key: &Vec<char>,
)
    ensures
        types::result_views(final(out)@) == types::result_views(old(out)@) + verse_hits(book@, chapter, vs@, key@, vs@.len() as int),
{
    let ghost start = types::result_views(out@);
    let mut i: usize = 0;
    while i < vs.len()
        invariant
            i <= vs@.len(),
            types::result_views(out@) == start + verse_hits(book@, chapter, vs@, key@, i as int),
        decreases vs.len() - i,
    {
        let lower = to_lower(vs[i].text.as_str());
        let lower_chars = chars_of(lower.as_str());
        if chars_contain(&lower_chars, key) {
            if let Some(k) = parse_u32(vs[i].verse.as_str()) {
                let r = make_result(book, chapter, k, &vs[i].text);
                let ghost before = types::result_views(out@);
                out.push(r);
                assert(types::result_views(out@) == before.push(r@));
            }
        }
        i = i + 1;
    }
}

/// Appends the hits of one book to `out`.
fn push_book_hits(out: &mut Vec<SearchResult>, book: &KjvBook, key: &Vec<char>)
    ensures
        types::result_views(final(out)@) == types::result_views(old(out)@) + chapter_hits(*book, key@, book.chapters@.len() as int),
{
    let ghost start = types::result_views(out@);
    let mut i: usize = 0;
    while i < book.chapters.len()
        invariant
            i <= book.chapters@.len(),
            types::result_views(out@) == start + chapter_hits(*book, key@, i as int),
        decreases book.chapters.len() - i,
    {
        let ch = &book.chapters[i];
        if let Some(c) = parse_u32(ch.chapter.as_str()) {
            push_verse_hits(out, &book.book, c, &ch.verses, key);
            assert(start + chapter_hits(*book, key@, i + 1) == (start + chapter_hits(*book, key@, i as int))
                + verse_hits(book.book@, c, ch.verses@, key@, ch.verses@.len() as int));
        }
        i = i + 1;
    }
}

/// Every verse whose text contains `query`, compared in lower case, walked
/// in canonical book order (Genesis to Revelation) rather than storage order.
pub fn search(kjv: &Kjv, query: &str) -> (r: Vec<SearchResult>)
    ensures
        types::result_views(r@) == search_spec(*kjv, query@),
        text::is_ascii_text(query@) ==> types::result_views(r@) == canonical_hits(
            *kjv,
            text::ascii_fold(query@),
            BOOK_COUNT as int,
        ),
        query@.len() == 0 ==> types::result_views(r@) == canonical_verses(*kjv, BOOK_COUNT as int),
{
    let query_lower = to_lower(query);
    proof {
        if query@.len() == 0 {
            assert(text::ascii_fold(query@) =~= Seq::<char>::empty());
            lemma_canonical_hits_empty_key(*kjv, BOOK_COUNT as int);
        }
    }
    let key = chars_of(query_lower.as_str());
    let mut results: Vec<SearchResult> = Vec::new();
    let mut i: usize = 0;
    while i < BOOK_COUNT
        invariant
            i <= BOOK_COUNT,
            key@ == text::lowercase(query@),
            types::result_views(results@) == canonical_hits(*kjv, key@, i as int),
        decreases BOOK_COUNT - i,
    {
        if let Some(b) = find_book(kjv, book_name(i)) {
            push_book_hits(&mut results, &kjv.books[b], &key);
        }
        assert(canonical_hits(*kjv, key@, i + 1) == canonical_hits(*kjv, key@, i as int) + book_hits(*kjv, key@, i as int));
        i = i + 1;
    }
    results
}

// ---------------------------------------------------------------------------
// Random verse
// ---------------------------------------------------------------------------

/// The verse that `seed` picks: book `seed % books`, chapter
/// `seed / 7 % chapters`, verse `seed / 13 % verses`; numbers that do not
/// parse read as 1.
pub fn verse_from_seed(kjv: &Kjv, seed: usize) -> (v: Verse)
    requires
        seed_picks_verse(*kjv, seed),
    ensures
        v@ == verse_from_seed_spec(*kjv, seed),
{
    let book = &kjv.books[seed % kjv.books.len()];
    let ch = &book.chapters[seed / 7 % book.chapters.len()];
    let v = &ch.verses[seed / 13 % ch.verses.len()];
    let chapter = match parse_u32(ch.chapter.as_str()) {
        Some(n) => n,
        None => 1,
    };
    let verse = match parse_u32(v.verse.as_str()) {
        Some(n) => n,
        None => 1,
    };
    make_verse(&book.book, chapter, verse, &v.text)
}

/// The verse that `seed` picks, or `None` when the pick lands on no book,
/// an empty book or an empty chapter.
pub fn verse_for_seed(kjv: &Kjv, seed: usize) -> (r: Option<Verse>)
    ensures
        match r {
            Some(v) => seed_picks_verse(*kjv, seed) && v@ == verse_from_seed_spec(*kjv, seed),
            None => !seed_picks_verse(*kjv, seed),
        },
{
    if kjv.books.len() == 0 {
        return None;
    }
    let b = seed % kjv.books.len();
    if kjv.books[b].chapters.len() == 0 {
        return None;
    }
    let c = seed / 7 % kjv.books[b].chapters.len();
    if kjv.books[b].chapters[c].verses.len() == 0 {
        return None;
    }
    Some(verse_from_seed(kjv, seed))
}

/// The clock could not be read as a time since the Unix epoch.
#[derive(Clone, Copy, Debug, PartialEq, Eq)]
pub enum ClockError {
    /// The clock reads earlier than the Unix epoch.
    BeforeEpoch,
}

/// A verse picked by the sub-second part of the clock: the pick of a seed
/// below one billion, or `None` when that seed lands on no book, an empty
/// book or an empty chapter. Fails only when the clock reads earlier than
/// the Unix epoch.
pub fn random_verse(kjv: &Kjv) -> (r: Result<Option<Verse>, ClockError>)
    ensures
        r matches Ok(o) ==> exists|seed: usize|
            seed < 1_000_000_000 && #[trigger] seed_outcome(*kjv, seed) == types::opt_verse_view(o),
        r matches Ok(o) ==> ((forall|s: usize| s < 1_000_000_000 ==> #[trigger] seed_picks_verse(*kjv, s)) ==> o is Some),
        r matches Ok(o) ==> (kjv.books@.len() == 0 ==> o is None),
{
    let now = crate::clock::system_now();
    match crate::clock::since_epoch(&now) {
        Ok(d) => {
            let seed = crate::clock::subsec_nanos(&d) as usize;
            let o = verse_for_seed(kjv, seed);
            assert(seed_outcome(*kjv, seed) == types::opt_verse_view(o));
            Ok(o)
        },
        Err(_) => Err(ClockError::BeforeEpoch),
    }
}

} // verus!
