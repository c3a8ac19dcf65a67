//! Properties of the library as a whole, proved over the specifications
//! that the functions' contracts use.
use vstd::prelude::*;
use crate::books::{self, BOOK_COUNT};
use crate::browser::{self, BrowserState, Panel, ViewMode};
use crate::kjv::{self, Kjv, KjvBook, KjvVerse};
use crate::text;
use crate::layout::{self, VerseLayoutCache};
use crate::bookmarks;
use crate::types::{self, Bookmark, SessionState, VerseView};

verus! {

// ---------------------------------------------------------------------------
// Search
// ---------------------------------------------------------------------------

/// Search is case-insensitive: two queries with the same lower-case form
/// find the same verses.
pub proof fn search_ignores_query_case(kjv: Kjv, q1: Seq<char>, q2: Seq<char>)
    requires
        text::lowercase(q1) == text::lowercase(q2),
    ensures
        kjv::search_spec(kjv, q1) == kjv::search_spec(kjv, q2),
{
}

proof fn lemma_verse_hits_match(book: Seq<char>, chapter: u32, vs: Seq<KjvVerse>, key: Seq<char>, n: int)
    requires
        0 <= n <= vs.len(),
    ensures
        forall|k: int| 0 <= k < kjv::verse_hits(book, chapter, vs, key, n).len() ==> {
            let r = #[trigger] kjv::verse_hits(book, chapter, vs, key, n)[k];
            &&& text::contains_spec(text::lowercase(r.text), key)
            &&& r.book == book
            &&& r.chapter == chapter
            &&& r.translation == kjv::kjv_code()
        },
    decreases n,
{
    if n > 0 {
        lemma_verse_hits_match(book, chapter, vs, key, n - 1);
        let prev = kjv::verse_hits(book, chapter, vs, key, n - 1);
        let cur = kjv::verse_hits(book, chapter, vs, key, n);
        assert forall|k: int| 0 <= k < cur.len() implies {
            let r = #[trigger] cur[k];
            &&& text::contains_spec(text::lowercase(r.text), key)
            &&& r.book == book
            &&& r.chapter == chapter
            &&& r.translation == kjv::kjv_code()
        } by {
            if k < prev.len() {
                assert(cur[k] == prev[k]);
            }
        }
    }
}

proof fn lemma_chapter_hits_match(book: KjvBook, key: Seq<char>, n: int)
    requires
        0 <= n <= book.chapters@.len(),
    ensures
        forall|k: int| 0 <= k < kjv::chapter_hits(book, key, n).len() ==> {
            let r = #[trigger] kjv::chapter_hits(book, key, n)[k];
            &&& text::contains_spec(text::lowercase(r.text), key)
            &&& r.book == book.book@
            &&& r.translation == kjv::kjv_code()
        },
    decreases n,
{
    if n > 0 {
        lemma_chapter_hits_match(book, key, n - 1);
        let ch = book.chapters@[n - 1];
        match text::parse_u32_spec(ch.chapter@) {
            Some(c) => {
                lemma_verse_hits_match(book.book@, c, ch.verses@, key, ch.verses@.len() as int);
                let prev = kjv::chapter_hits(book, key, n - 1);
                let more = kjv::verse_hits(book.book@, c, ch.verses@, key, ch.verses@.len() as int);
                assert(kjv::chapter_hits(book, key, n) == prev + more);
                assert forall|k: int| 0 <= k < (prev + more).len() implies {
                    let r = #[trigger] (prev + more)[k];
                    &&& text::contains_spec(text::lowercase(r.text), key)
                    &&& r.book == book.book@
                    &&& r.translation == kjv::kjv_code()
                } by {
                    if k >= prev.len() {
                        assert((prev + more)[k] == more[k - prev.len()]);
                    } else {
                        assert((prev + more)[k] == prev[k]);
                    }
                }
            },
            None => {
                assert(kjv::chapter_hits(book, key, n) == kjv::chapter_hits(book, key, n - 1));
            },
        }
    }
}

proof fn lemma_canonical_hits_match(kjv: Kjv, key: Seq<char>, n: int)
    requires
        0 <= n,
    ensures
        forall|k: int| 0 <= k < kjv::canonical_hits(kjv, key, n).len() ==> {
            let r = #[trigger] kjv::canonical_hits(kjv, key, n)[k];
            &&& text::contains_spec(text::lowercase(r.text), key)
            &&& r.translation == kjv::kjv_code()
        },
    decreases n,
{
    if n > 0 {
        lemma_canonical_hits_match(kjv, key, n - 1);
        let prev = kjv::canonical_hits(kjv, key, n - 1);
        let more = kjv::book_hits(kjv, key, n - 1);
        match kjv::find_book_spec(kjv, books::book_name_spec(n - 1)) {
            Some(b) => {
                lemma_last_book_in_range(kjv.books@, text::lowercase(books::book_name_spec(n - 1)), kjv.books@.len() as int);
                lemma_chapter_hits_match(kjv.books@[b], key, kjv.books@[b].chapters@.len() as int);
            },
            None => {},
        }
        assert forall|k: int| 0 <= k < (prev + more).len() implies {
            let r = #[trigger] (prev + more)[k];
            &&& text::contains_spec(text::lowercase(r.text), key)
            &&& r.translation == kjv::kjv_code()
        } by {
            if k >= prev.len() {
                assert((prev + more)[k] == more[k - prev.len()]);
            } else {
                assert((prev + more)[k] == prev[k]);
            }
        }
    }
}

proof fn lemma_last_book_in_range(books: Seq<KjvBook>, key: Seq<char>, n: int)
    requires
        0 <= n <= books.len(),
    ensures
        kjv::last_book_with_key(books, key, n) matches Some(i) ==> 0 <= i < n && kjv::book_has_key(books, i, key),
    decreases n,
{
    if n > 0 {
        lemma_last_book_in_range(books, key, n - 1);
    }
}

/// Every search hit is a verse whose text contains the query, both in
/// lower case, and carries the bundled translation's code.
pub proof fn search_hits_contain_query(kjv: Kjv, query: Seq<char>)
    ensures
        forall|k: int| 0 <= k < kjv::search_spec(kjv, query).len() ==> {
            let r = #[trigger] kjv::search_spec(kjv, query)[k];
            &&& text::contains_spec(text::lowercase(r.text), text::lowercase(query))
            &&& r.translation == kjv::kjv_code()
        },
{
    lemma_canonical_hits_match(kjv, text::lowercase(query), BOOK_COUNT as int);
}

/// `f` places each item of `a` at a position of `b` holding the same
/// item, at strictly increasing positions.
pub open spec fn embeds<A>(a: Seq<A>, b: Seq<A>, f: Seq<int>) -> bool {
    &&& f.len() == a.len()
    &&& forall|i: int| 0 <= i < f.len() ==> 0 <= #[trigger] f[i] < b.len() && b[f[i]] == a[i]
    &&& forall|i: int, j: int| 0 <= i < j < f.len() ==> #[trigger] f[i] < #[trigger] f[j]
}

/// `a` is `b` with some items left out, the rest in the same order.
pub open spec fn is_subsequence<A>(a: Seq<A>, b: Seq<A>) -> bool {
    exists|f: Seq<int>| embeds(a, b, f)
}

proof fn lemma_subsequence_empty<A>(b: Seq<A>)
    ensures
        is_subsequence(Seq::<A>::empty(), b),
{
    assert(embeds(Seq::<A>::empty(), b, Seq::<int>::empty()));
}

proof fn lemma_subsequence_push_right<A>(a: Seq<A>, b: Seq<A>, x: A)
    requires
        is_subsequence(a, b),
    ensures
        is_subsequence(a, b.push(x)),
{
    let f = choose|f: Seq<int>| embeds(a, b, f);
    assert(embeds(a, b.push(x), f));
}

proof fn lemma_subsequence_push_both<A>(a: Seq<A>, b: Seq<A>, x: A)
    requires
        is_subsequence(a, b),
    ensures
        is_subsequence(a.push(x), b.push(x)),
{
    let f = choose|f: Seq<int>| embeds(a, b, f);
    let g = f.push(b.len() as int);
    assert(embeds(a.push(x), b.push(x), g));
}

proof fn lemma_subsequence_concat<A>(a: Seq<A>, b: Seq<A>, c: Seq<A>, d: Seq<A>)
    requires
        is_subsequence(a, b),
        is_subsequence(c, d),
    ensures
        is_subsequence(a + c, b + d),
{
    let f = choose|f: Seq<int>| embeds(a, b, f);
    let g = choose|g: Seq<int>| embeds(c, d, g);
    let h = f + g.map_values(|k: int| k + b.len());
    assert forall|i: int| 0 <= i < h.len() implies 0 <= #[trigger] h[i] < (b + d).len() && (b + d)[h[i]] == (a + c)[i] by {
        if i >= f.len() {
            assert(h[i] == g[i - f.len()] + b.len());
        }
    }
    assert forall|i: int, j: int| 0 <= i < j < h.len() implies #[trigger] h[i] < #[trigger] h[j] by {
        if j < f.len() {
        } else if i < f.len() {
            assert(h[j] == g[j - f.len()] + b.len());
        } else {
            assert(h[i] == g[i - f.len()] + b.len());
            assert(h[j] == g[j - f.len()] + b.len());
        }
    }
    assert(embeds(a + c, b + d, h));
}

proof fn lemma_subsequence_len<A>(a: Seq<A>, b: Seq<A>)
    requires
        is_subsequence(a, b),
    ensures
        a.len() <= b.len(),
{
    let f = choose|f: Seq<int>| embeds(a, b, f);
    if a.len() > 0 {
        lemma_embedding_grows(f, a.len() - 1);
        assert(f[a.len() - 1] < b.len());
    }
}

proof fn lemma_embedding_grows(f: Seq<int>, k: int)
    requires
        0 <= k < f.len(),
        forall|i: int| 0 <= i < f.len() ==> 0 <= #[trigger] f[i],
        forall|i: int, j: int| 0 <= i < j < f.len() ==> #[trigger] f[i] < #[trigger] f[j],
    ensures
        f[k] >= k,
    decreases k,
{
    if k > 0 {
        lemma_embedding_grows(f, k - 1);
        assert(f[k - 1] < f[k]);
    }
}

proof fn lemma_contains_trans(a: Seq<char>, b: Seq<char>, c: Seq<char>)
    requires
        text::contains_spec(a, b),
        text::contains_spec(b, c),
    ensures
        text::contains_spec(a, c),
{
    let i = choose|i: int| text::occurs_at(a, b, i);
    let j = choose|j: int| text::occurs_at(b, c, j);
    assert(a.subrange(i + j, i + j + c.len()) =~= b.subrange(j, j + c.len()));
    assert(text::occurs_at(a, c, i + j));
}

proof fn lemma_verse_hits_narrow(book: Seq<char>, chapter: u32, vs: Seq<KjvVerse>, k1: Seq<char>, k2: Seq<char>, n: int)
    requires
        text::contains_spec(k2, k1),
    ensures
        is_subsequence(kjv::verse_hits(book, chapter, vs, k2, n), kjv::verse_hits(book, chapter, vs, k1, n)),
    decreases n,
{
    if n <= 0 {
        lemma_subsequence_empty(kjv::verse_hits(book, chapter, vs, k1, n));
    } else {
        lemma_verse_hits_narrow(book, chapter, vs, k1, k2, n - 1);
        let a = kjv::verse_hits(book, chapter, vs, k2, n - 1);
        let b = kjv::verse_hits(book, chapter, vs, k1, n - 1);
        let low = text::lowercase(vs[n - 1].text@);
        if text::contains_spec(low, k2) {
            lemma_contains_trans(low, k2, k1);
        }
        match text::parse_u32_spec(vs[n - 1].verse@) {
            Some(k) => {
                let x = kjv::verse_record(book, chapter, k, vs[n - 1].text@);
                if text::contains_spec(low, k2) {
                    lemma_subsequence_push_both(a, b, x);
                } else if text::contains_spec(low, k1) {
                    lemma_subsequence_push_right(a, b, x);
                }
            },
            None => {},
        }
    }
}

proof fn lemma_chapter_hits_narrow(book: KjvBook, k1: Seq<char>, k2: Seq<char>, n: int)
    requires
        text::contains_spec(k2, k1),
    ensures
        is_subsequence(kjv::chapter_hits(book, k2, n), kjv::chapter_hits(book, k1, n)),
    decreases n,
{
    if n <= 0 {
        lemma_subsequence_empty(kjv::chapter_hits(book, k1, n));
    } else {
        lemma_chapter_hits_narrow(book, k1, k2, n - 1);
        let ch = book.chapters@[n - 1];
        match text::parse_u32_spec(ch.chapter@) {
            Some(c) => {
                lemma_verse_hits_narrow(book.book@, c, ch.verses@, k1, k2, ch.verses@.len() as int);
                lemma_subsequence_concat(
                    kjv::chapter_hits(book, k2, n - 1),
                    kjv::chapter_hits(book, k1, n - 1),
                    kjv::verse_hits(book.book@, c, ch.verses@, k2, ch.verses@.len() as int),
                    kjv::verse_hits(book.book@, c, ch.verses@, k1, ch.verses@.len() as int),
                );
            },
            None => {},
        }
    }
}

proof fn lemma_canonical_hits_narrow(kjv: Kjv, k1: Seq<char>, k2: Seq<char>, n: int)
    requires
        text::contains_spec(k2, k1),
    ensures
        is_subsequence(kjv::canonical_hits(kjv, k2, n), kjv::canonical_hits(kjv, k1, n)),
    decreases n,
{
    if n <= 0 {
        lemma_subsequence_empty(kjv::canonical_hits(kjv, k1, n));
    } else {
        lemma_canonical_hits_narrow(kjv, k1, k2, n - 1);
        match kjv::find_book_spec(kjv, books::book_name_spec(n - 1)) {
            Some(b) => lemma_chapter_hits_narrow(kjv.books@[b], k1, k2, kjv.books@[b].chapters@.len() as int),
            None => lemma_subsequence_empty(Seq::<VerseView>::empty()),
        }
        lemma_subsequence_concat(
            kjv::canonical_hits(kjv, k2, n - 1),
            kjv::canonical_hits(kjv, k1, n - 1),
            kjv::book_hits(kjv, k2, n - 1),
            kjv::book_hits(kjv, k1, n - 1),
        );
    }
}

/// Narrowing a query narrows the hits: when the lower-case longer query
/// contains the lower-case shorter one, every verse found for the longer
/// query is found for the shorter one too, in the same relative order, so
/// there are no more of them.
pub proof fn longer_query_finds_a_subsequence(kjv: Kjv, short: Seq<char>, long: Seq<char>)
    requires
        text::contains_spec(text::lowercase(long), text::lowercase(short)),
    ensures
        is_subsequence(kjv::search_spec(kjv, long), kjv::search_spec(kjv, short)),
        kjv::search_spec(kjv, long).len() <= kjv::search_spec(kjv, short).len(),
{
    lemma_canonical_hits_narrow(kjv, text::lowercase(short), text::lowercase(long), BOOK_COUNT as int);
    lemma_subsequence_len(kjv::search_spec(kjv, long), kjv::search_spec(kjv, short));
}

/// Search walks the books in canonical order: the hits from the first `i`
/// canonical books come first, before any hit from a later book.
pub proof fn search_is_in_canonical_order(kjv: Kjv, key: Seq<char>, i: int, j: int)
    requires
        0 <= i <= j,
    ensures
        kjv::canonical_hits(kjv, key, i).len() <= kjv::canonical_hits(kjv, key, j).len(),
        kjv::canonical_hits(kjv, key, j).take(kjv::canonical_hits(kjv, key, i).len() as int)
            == kjv::canonical_hits(kjv, key, i),
    decreases j - i,
{
    if i < j {
        search_is_in_canonical_order(kjv, key, i, j - 1);
        let a = kjv::canonical_hits(kjv, key, i);
        let b = kjv::canonical_hits(kjv, key, j - 1);
        let more = kjv::book_hits(kjv, key, j - 1);
        assert((b + more).take(a.len() as int) =~= b.take(a.len() as int));
    } else {
        assert(kjv::canonical_hits(kjv, key, j).take(kjv::canonical_hits(kjv, key, j).len() as int)
            =~= kjv::canonical_hits(kjv, key, j));
    }
}

proof fn lemma_concat_contains(a: Seq<VerseView>, b: Seq<VerseView>, x: VerseView)
    requires
        a.contains(x) || b.contains(x),
    ensures
        (a + b).contains(x),
{
    if a.contains(x) {
        let j = choose|j: int| 0 <= j < a.len() && a[j] == x;
        assert((a + b)[j] == x);
    } else {
        let j = choose|j: int| 0 <= j < b.len() && b[j] == x;
        assert((a + b)[a.len() + j] == x);
    }
}

proof fn lemma_verse_hits_complete(book: Seq<char>, chapter: u32, vs: Seq<KjvVerse>, key: Seq<char>, n: int, p: int, k: u32)
    requires
        0 <= p < n <= vs.len(),
        text::contains_spec(text::lowercase(vs[p].text@), key),
        text::parse_u32_spec(vs[p].verse@) == Some(k),
    ensures
        kjv::verse_hits(book, chapter, vs, key, n).contains(kjv::verse_record(book, chapter, k, vs[p].text@)),
    decreases n,
{
    let x = kjv::verse_record(book, chapter, k, vs[p].text@);
    let cur = kjv::verse_hits(book, chapter, vs, key, n);
    if p < n - 1 {
        lemma_verse_hits_complete(book, chapter, vs, key, n - 1, p, k);
        let prev = kjv::verse_hits(book, chapter, vs, key, n - 1);
        let j = choose|j: int| 0 <= j < prev.len() && prev[j] == x;
        assert(cur[j] == x);
    } else {
        assert(cur[cur.len() - 1] == x);
    }
}

proof fn lemma_chapter_hits_complete(book: KjvBook, key: Seq<char>, n: int, c: int, x: VerseView)
    requires
        0 <= c < n <= book.chapters@.len(),
        text::parse_u32_spec(book.chapters@[c].chapter@) is Some,
        kjv::verse_hits(
            book.book@,
            text::parse_u32_spec(book.chapters@[c].chapter@)->0,
            book.chapters@[c].verses@,
            key,
            book.chapters@[c].verses@.len() as int,
        ).contains(x),
    ensures
        kjv::chapter_hits(book, key, n).contains(x),
    decreases n,
{
    let prev = kjv::chapter_hits(book, key, n - 1);
    let ch = book.chapters@[n - 1];
    if c < n - 1 {
        lemma_chapter_hits_complete(book, key, n - 1, c, x);
        match text::parse_u32_spec(ch.chapter@) {
            Some(cn) => {
                lemma_concat_contains(prev, kjv::verse_hits(book.book@, cn, ch.verses@, key, ch.verses@.len() as int), x);
            },
            None => {},
        }
    } else {
        let cn = text::parse_u32_spec(ch.chapter@)->0;
        lemma_concat_contains(prev, kjv::verse_hits(book.book@, cn, ch.verses@, key, ch.verses@.len() as int), x);
    }
}

proof fn lemma_canonical_hits_complete(kjv: Kjv, key: Seq<char>, n: int, i: int, x: VerseView)
    requires
        0 <= i < n,
        kjv::book_hits(kjv, key, i).contains(x),
    ensures
        kjv::canonical_hits(kjv, key, n).contains(x),
    decreases n,
{
    let prev = kjv::canonical_hits(kjv, key, n - 1);
    if i < n - 1 {
        lemma_canonical_hits_complete(kjv, key, n - 1, i, x);
    }
    lemma_concat_contains(prev, kjv::book_hits(kjv, key, n - 1), x);
}

/// Search returns every match: each verse of a canonical book whose text
/// contains the query, ignoring case, and whose chapter and verse numbers
/// parse, is among the results.
pub proof fn search_finds_every_match(kjv: Kjv, query: Seq<char>, i: int, c: int, p: int)
    requires
        0 <= i < BOOK_COUNT,
        kjv::find_book_spec(kjv, books::book_name_spec(i)) is Some,
        ({
            let book = kjv.books@[kjv::find_book_spec(kjv, books::book_name_spec(i))->0];
            &&& 0 <= c < book.chapters@.len()
            &&& 0 <= p < book.chapters@[c].verses@.len()
            &&& text::parse_u32_spec(book.chapters@[c].chapter@) is Some
            &&& text::parse_u32_spec(book.chapters@[c].verses@[p].verse@) is Some
            &&& text::contains_spec(text::lowercase(book.chapters@[c].verses@[p].text@), text::lowercase(query))
        }),
    ensures
        ({
            let book = kjv.books@[kjv::find_book_spec(kjv, books::book_name_spec(i))->0];
            let ch = book.chapters@[c];
            kjv::search_spec(kjv, query).contains(
                kjv::verse_record(
                    book.book@,
                    text::parse_u32_spec(ch.chapter@)->0,
                    text::parse_u32_spec(ch.verses@[p].verse@)->0,
                    ch.verses@[p].text@,
                ),
            )
        }),
{
    let key = text::lowercase(query);
    let b = kjv::find_book_spec(kjv, books::book_name_spec(i))->0;
    lemma_last_book_in_range(kjv.books@, text::lowercase(books::book_name_spec(i)), kjv.books@.len() as int);
    let book = kjv.books@[b];
    let ch = book.chapters@[c];
    let cn = text::parse_u32_spec(ch.chapter@)->0;
    let k = text::parse_u32_spec(ch.verses@[p].verse@)->0;
    let x = kjv::verse_record(book.book@, cn, k, ch.verses@[p].text@);
    lemma_verse_hits_complete(book.book@, cn, ch.verses@, key, ch.verses@.len() as int, p, k);
    lemma_chapter_hits_complete(book, key, book.chapters@.len() as int, c, x);
    lemma_canonical_hits_complete(kjv, key, BOOK_COUNT as int, i, x);
}

// ---------------------------------------------------------------------------
// Lookups agree
// ---------------------------------------------------------------------------

proof fn lemma_range_first(book: Seq<char>, chapter: u32, vs: Seq<KjvVerse>, v: u32, n: int)
    requires
        0 <= n <= vs.len(),
    ensures
        match kjv::first_verse_from(vs, v, 0) {
            Some(p) => if p < n {
                &&& kjv::verses_in_range(book, chapter, vs, v, v, n).len() > 0
                &&& kjv::verses_in_range(book, chapter, vs, v, v, n)[0] == kjv::verse_record(book, chapter, v, vs[p].text@)
            } else {
                kjv::verses_in_range(book, chapter, vs, v, v, n).len() == 0
            },
            None => kjv::verses_in_range(book, chapter, vs, v, v, n).len() == 0,
        },
    decreases n,
{
    lemma_first_verse_props(vs, v, 0);
    if n > 0 {
        lemma_range_first(book, chapter, vs, v, n - 1);
        let prev = kjv::verses_in_range(book, chapter, vs, v, v, n - 1);
        let cur = kjv::verses_in_range(book, chapter, vs, v, v, n);
        if prev.len() > 0 {
            assert(cur[0] == prev[0]);
        } else {
            match text::parse_u32_spec(vs[n - 1].verse@) {
                Some(k) => {
                    if v <= k && k <= v {
                        assert(cur[0] == kjv::verse_record(book, chapter, v, vs[n - 1].text@));
                    }
                },
                None => {},
            }
        }
    }
}

proof fn lemma_first_verse_props(vs: Seq<KjvVerse>, v: u32, i: int)
    requires
        0 <= i,
    ensures
        match kjv::first_verse_from(vs, v, i) {
            Some(p) => i <= p < vs.len() && text::parse_u32_spec(vs[p].verse@) == Some(v)
                && forall|k: int| i <= k < p ==> text::parse_u32_spec(#[trigger] vs[k].verse@) != Some(v),
            None => forall|k: int| i <= k < vs.len() ==> text::parse_u32_spec(#[trigger] vs[k].verse@) != Some(v),
        },
    decreases vs.len() - i,
{
    if i < vs.len() {
        lemma_first_verse_props(vs, v, i + 1);
    }
}

/// Looking a verse up by number finds the first verse that the range
/// lookup of that single number returns, and finds nothing exactly when
/// that range is empty.
pub proof fn get_verse_agrees_with_range(kjv: Kjv, name: Seq<char>, chapter: u32, verse: u32)
    ensures
        match kjv::get_verse_spec(kjv, name, chapter, verse) {
            Some(x) => {
                let r = kjv::get_verse_range_spec(kjv, name, chapter, verse, verse);
                r.len() > 0 && r[0] == x
            },
            None => kjv::get_verse_range_spec(kjv, name, chapter, verse, verse).len() == 0,
        },
{
    match kjv::find_book_spec(kjv, name) {
        Some(b) => {
            let book = kjv.books@[b];
            match kjv::find_chapter_spec(book.chapters@, chapter) {
                Some(c) => {
                    let vs = book.chapters@[c].verses@;
                    lemma_first_verse_props(vs, verse, 0);
                    lemma_range_first(book.book@, chapter, vs, verse, vs.len() as int);
                },
                None => {},
            }
        },
        None => {},
    }
}

proof fn lemma_range_contains(
    book: Seq<char>,
    chapter: u32,
    vs: Seq<KjvVerse>,
    lo: u32,
    hi: u32,
    n: int,
    p: int,
    k: u32,
)
    requires
        0 <= p < n <= vs.len(),
        text::parse_u32_spec(vs[p].verse@) == Some(k),
        lo <= k <= hi,
    ensures
        kjv::verses_in_range(book, chapter, vs, lo, hi, n).contains(kjv::verse_record(book, chapter, k, vs[p].text@)),
    decreases n,
{
    let x = kjv::verse_record(book, chapter, k, vs[p].text@);
    if p < n - 1 {
        lemma_range_contains(book, chapter, vs, lo, hi, n - 1, p, k);
        let prev = kjv::verses_in_range(book, chapter, vs, lo, hi, n - 1);
        let j = choose|j: int| 0 <= j < prev.len() && prev[j] == x;
        assert(kjv::verses_in_range(book, chapter, vs, lo, hi, n)[j] == x);
    } else {
        let cur = kjv::verses_in_range(book, chapter, vs, lo, hi, n);
        assert(cur[cur.len() - 1] == x);
    }
}

/// A verse found by number is one of the verses of its chapter as the
/// chapter lookup returns it.
pub proof fn get_verse_is_in_its_chapter(kjv: Kjv, name: Seq<char>, chapter: u32, verse: u32)
    requires
        kjv::get_verse_spec(kjv, name, chapter, verse) is Some,
    ensures
        kjv::get_chapter_spec(kjv, name, chapter) matches Some(c)
            && c.verses.contains(kjv::get_verse_spec(kjv, name, chapter, verse)->0),
{
    let b = kjv::find_book_spec(kjv, name)->0;
    let book = kjv.books@[b];
    let c = kjv::find_chapter_spec(book.chapters@, chapter)->0;
    let vs = book.chapters@[c].verses@;
    lemma_first_verse_props(vs, verse, 0);
    let p = kjv::find_verse_spec(vs, verse)->0;
    lemma_range_contains(book.book@, chapter, vs, 0, u32::MAX, vs.len() as int, p, verse);
}

proof fn lemma_range_is_filter(book: Seq<char>, chapter: u32, vs: Seq<KjvVerse>, lo: u32, hi: u32, n: int)
    ensures
        kjv::verses_in_range(book, chapter, vs, lo, hi, n) == kjv::verses_in_range(
            book,
            chapter,
            vs,
            0,
            u32::MAX,
            n,
        ).filter(|x: VerseView| lo <= x.verse && x.verse <= hi),
    decreases n,
{
    let pred = |x: VerseView| lo <= x.verse && x.verse <= hi;
    reveal(Seq::filter);
    if n > 0 {
        lemma_range_is_filter(book, chapter, vs, lo, hi, n - 1);
        let all_prev = kjv::verses_in_range(book, chapter, vs, 0, u32::MAX, n - 1);
        match text::parse_u32_spec(vs[n - 1].verse@) {
            Some(k) => {
                let all = all_prev.push(kjv::verse_record(book, chapter, k, vs[n - 1].text@));
                assert(all.drop_last() == all_prev);
                assert(all.filter(pred) == if pred(all.last()) {
                    all_prev.filter(pred).push(all.last())
                } else {
                    all_prev.filter(pred)
                });
            },
            None => {},
        }
    }
}

/// The range lookup returns exactly the verses of the chapter lookup whose
/// number lies in `start..=end`, in chapter order, and nothing when the
/// book or chapter is not found.
pub proof fn range_is_chapter_filtered(kjv: Kjv, name: Seq<char>, chapter: u32, start: u32, end: u32)
    ensures
        kjv::get_verse_range_spec(kjv, name, chapter, start, end) == match kjv::get_chapter_spec(kjv, name, chapter) {
            Some(c) => c.verses.filter(|x: VerseView| start <= x.verse && x.verse <= end),
            None => Seq::empty(),
        },
{
    match kjv::find_book_spec(kjv, name) {
        Some(b) => {
            let book = kjv.books@[b];
            match kjv::find_chapter_spec(book.chapters@, chapter) {
                Some(c) => {
                    let vs = book.chapters@[c].verses@;
                    lemma_range_is_filter(book.book@, chapter, vs, start, end, vs.len() as int);
                },
                None => {},
            }
        },
        None => {},
    }
}

/// Looking a verse up by number gives the first verse of its chapter, as
/// the chapter lookup returns it, that carries that number; nothing when
/// the chapter has no such verse or is not found.
pub proof fn get_verse_is_first_in_chapter(kjv: Kjv, name: Seq<char>, chapter: u32, verse: u32)
    ensures
        kjv::get_verse_spec(kjv, name, chapter, verse) == match kjv::get_chapter_spec(kjv, name, chapter) {
            Some(c) => {
                let hits = c.verses.filter(|x: VerseView| x.verse == verse);
                if hits.len() > 0 {
                    Some(hits[0])
                } else {
                    None
                }
            },
            None => None,
        },
{
    get_verse_agrees_with_range(kjv, name, chapter, verse);
    range_is_chapter_filtered(kjv, name, chapter, verse, verse);
    let same = |x: VerseView| x.verse == verse;
    let between = |x: VerseView| verse <= x.verse && x.verse <= verse;
    assert(same =~= between);
}

/// Book names differ ignoring case; within each book the chapter numbers,
/// and within each chapter the verse numbers, all parse and all differ.
pub open spec fn numbered_uniquely(kjv: Kjv) -> bool {
    let bs = kjv.books@;
    &&& forall|i: int, j: int|
        0 <= i < j < bs.len() ==> #[trigger] text::lowercase(bs[i].book@) != #[trigger] text::lowercase(bs[j].book@)
    &&& forall|b: int, c: int|
        0 <= b < bs.len() && 0 <= c < bs[b].chapters@.len() ==> text::parse_u32_spec(
            #[trigger] bs[b].chapters@[c].chapter@,
        ) is Some
    &&& forall|b: int, c: int, d: int|
        0 <= b < bs.len() && 0 <= c < d < bs[b].chapters@.len() ==> text::parse_u32_spec(
            #[trigger] bs[b].chapters@[c].chapter@,
        ) != text::parse_u32_spec(#[trigger] bs[b].chapters@[d].chapter@)
    &&& forall|b: int, c: int, v: int|
        0 <= b < bs.len() && 0 <= c < bs[b].chapters@.len() && 0 <= v < bs[b].chapters@[c].verses@.len()
            ==> text::parse_u32_spec(#[trigger] bs[b].chapters@[c].verses@[v].verse@) is Some
    &&& forall|b: int, c: int, v: int, w: int|
        0 <= b < bs.len() && 0 <= c < bs[b].chapters@.len() && 0 <= v < w < bs[b].chapters@[c].verses@.len()
            ==> text::parse_u32_spec(#[trigger] bs[b].chapters@[c].verses@[v].verse@) != text::parse_u32_spec(
            #[trigger] bs[b].chapters@[c].verses@[w].verse@,
        )
}

proof fn lemma_last_book_unique(books: Seq<KjvBook>, key: Seq<char>, n: int, b: int)
    requires
        0 <= b < n <= books.len(),
        kjv::book_has_key(books, b, key),
        forall|i: int| b < i < n ==> !#[trigger] kjv::book_has_key(books, i, key),
    ensures
        kjv::last_book_with_key(books, key, n) == Some(b),
    decreases n,
{
    if n - 1 > b {
        assert(!kjv::book_has_key(books, n - 1, key));
        lemma_last_book_unique(books, key, n - 1, b);
    }
}

proof fn lemma_first_chapter_unique(chs: Seq<kjv::KjvChapter>, num: u32, i: int, c: int)
    requires
        0 <= i <= c < chs.len(),
        text::parse_u32_spec(chs[c].chapter@) == Some(num),
        forall|k: int| i <= k < c ==> text::parse_u32_spec(#[trigger] chs[k].chapter@) != Some(num),
    ensures
        kjv::first_chapter_from(chs, num, i) == Some(c),
    decreases c - i,
{
    if i < c {
        lemma_first_chapter_unique(chs, num, i + 1, c);
    }
}

proof fn lemma_first_verse_unique(vs: Seq<KjvVerse>, num: u32, i: int, v: int)
    requires
        0 <= i <= v < vs.len(),
        text::parse_u32_spec(vs[v].verse@) == Some(num),
        forall|k: int| i <= k < v ==> text::parse_u32_spec(#[trigger] vs[k].verse@) != Some(num),
    ensures
        kjv::first_verse_from(vs, num, i) == Some(v),
    decreases v - i,
{
    if i < v {
        lemma_first_verse_unique(vs, num, i + 1, v);
    }
}

/// Where numbering is unique, the verse a seed picks is found again, with
/// its exact text, by looking it up by its book, chapter and verse.
pub proof fn seed_pick_is_found_again(kjv: Kjv, seed: usize)
    requires
        kjv::seed_picks_verse(kjv, seed),
        numbered_uniquely(kjv),
    ensures
        ({
            let v = kjv::verse_from_seed_spec(kjv, seed);
            kjv::get_verse_spec(kjv, v.book, v.chapter, v.verse) == Some(v)
        }),
{
    let bs = kjv.books@;
    let b = kjv::seed_book(kjv, seed);
    let c = kjv::seed_chapter(kjv, seed);
    let w = kjv::seed_verse(kjv, seed);
    let book = bs[b];
    let ch = book.chapters@[c];
    let key = text::lowercase(book.book@);
    assert forall|i: int| b < i < bs.len() implies !#[trigger] kjv::book_has_key(bs, i, key) by {
        assert(text::lowercase(bs[b].book@) != text::lowercase(bs[i].book@));
    }
    lemma_last_book_unique(bs, key, bs.len() as int, b);
    let cn = text::parse_u32_spec(ch.chapter@)->0;
    assert(text::parse_u32_spec(bs[b].chapters@[c].chapter@) is Some);
    assert forall|k: int| 0 <= k < c implies text::parse_u32_spec(#[trigger] book.chapters@[k].chapter@) != Some(cn) by {
        assert(text::parse_u32_spec(bs[b].chapters@[k].chapter@) != text::parse_u32_spec(bs[b].chapters@[c].chapter@));
    }
    lemma_first_chapter_unique(book.chapters@, cn, 0, c);
    let vn = text::parse_u32_spec(ch.verses@[w].verse@)->0;
    assert(text::parse_u32_spec(bs[b].chapters@[c].verses@[w].verse@) is Some);
    assert forall|k: int| 0 <= k < w implies text::parse_u32_spec(#[trigger] ch.verses@[k].verse@) != Some(vn) by {
        assert(text::parse_u32_spec(bs[b].chapters@[c].verses@[k].verse@) != text::parse_u32_spec(
            bs[b].chapters@[c].verses@[w].verse@,
        ));
    }
    lemma_first_verse_unique(ch.verses@, vn, 0, w);
}

/// The bookmark lookup reports the first bookmark on exactly the asked
/// verse: same chapter and verse numbers, and translation and book names
/// equal up to ASCII case. It reports nothing exactly when no bookmark is
/// on that verse.
pub proof fn found_bookmark_is_that_verse(
    bs: Seq<Bookmark>,
    translation: Seq<char>,
    book: Seq<char>,
    chapter: u32,
    verse: u32,
)
    ensures
        bookmarks::find_bookmark_spec(bs, translation, book, chapter, verse) matches Some(i) ==> {
            &&& 0 <= i < bs.len()
            &&& bs[i].chapter == chapter
            &&& bs[i].verse == verse
            &&& text::ascii_fold(bs[i].book@) == text::ascii_fold(book)
            &&& text::ascii_fold(bs[i].translation@) == text::ascii_fold(translation)
            &&& forall|j: int| 0 <= j < i ==> !({
                &&& (#[trigger] bs[j]).chapter == chapter
                &&& bs[j].verse == verse
                &&& text::ascii_fold(bs[j].book@) == text::ascii_fold(book)
                &&& text::ascii_fold(bs[j].translation@) == text::ascii_fold(translation)
            })
        },
        bookmarks::find_bookmark_spec(bs, translation, book, chapter, verse) is None <==> forall|j: int|
            0 <= j < bs.len() ==> !({
                &&& (#[trigger] bs[j]).chapter == chapter
                &&& bs[j].verse == verse
                &&& text::ascii_fold(bs[j].book@) == text::ascii_fold(book)
                &&& text::ascii_fold(bs[j].translation@) == text::ascii_fold(translation)
            }),
{
    lemma_first_bookmark(bs, translation, book, chapter, verse, 0);
}

proof fn lemma_first_bookmark(
    bs: Seq<Bookmark>,
    translation: Seq<char>,
    book: Seq<char>,
    chapter: u32,
    verse: u32,
    i: int,
)
    requires
        0 <= i,
    ensures
        bookmarks::first_bookmark_from(bs, translation, book, chapter, verse, i) matches Some(p) ==> {
            &&& i <= p < bs.len()
            &&& bs[p].chapter == chapter
            &&& bs[p].verse == verse
            &&& text::ascii_fold(bs[p].book@) == text::ascii_fold(book)
            &&& text::ascii_fold(bs[p].translation@) == text::ascii_fold(translation)
            &&& forall|j: int| i <= j < p ==> !({
                &&& (#[trigger] bs[j]).chapter == chapter
                &&& bs[j].verse == verse
                &&& text::ascii_fold(bs[j].book@) == text::ascii_fold(book)
                &&& text::ascii_fold(bs[j].translation@) == text::ascii_fold(translation)
            })
        },
        bookmarks::first_bookmark_from(bs, translation, book, chapter, verse, i) is None ==> forall|j: int|
            i <= j < bs.len() ==> !({
                &&& (#[trigger] bs[j]).chapter == chapter
                &&& bs[j].verse == verse
                &&& text::ascii_fold(bs[j].book@) == text::ascii_fold(book)
                &&& text::ascii_fold(bs[j].translation@) == text::ascii_fold(translation)
            }),
    decreases bs.len() - i,
{
    if i < bs.len() {
        lemma_first_bookmark(bs, translation, book, chapter, verse, i + 1);
    }
}

/// The note editor opens on the note saved on exactly that verse: a
/// non-empty draft is the note of a bookmark with the same chapter and
/// verse numbers and the same translation and book up to ASCII case.
pub proof fn note_draft_is_that_verses_note(
    s: BrowserState,
    translation: Seq<char>,
    book: Seq<char>,
    chapter: u32,
    verse: u32,
)
    ensures
        browser::note_draft_spec(s, translation, book, chapter, verse).len() > 0 ==> exists|i: int|
            {
                &&& 0 <= i < s.bookmarks@.len()
                &&& (#[trigger] s.bookmarks@[i]).chapter == chapter
                &&& s.bookmarks@[i].verse == verse
                &&& text::ascii_fold(s.bookmarks@[i].book@) == text::ascii_fold(book)
                &&& text::ascii_fold(s.bookmarks@[i].translation@) == text::ascii_fold(translation)
                &&& s.bookmarks@[i].note matches Some(n)
                &&& n@ == browser::note_draft_spec(s, translation, book, chapter, verse)
            },
{
    found_bookmark_is_that_verse(s.bookmarks@, translation, book, chapter, verse);
}

// ---------------------------------------------------------------------------
// Numbers in labels
// ---------------------------------------------------------------------------

proof fn lemma_decimal_digits(n: nat)
    ensures
        text::decimal(n).len() > 0,
        text::all_digits(text::decimal(n)),
        text::digits_value(text::decimal(n)) == n,
        text::decimal(n)[0] != '+',
    decreases n,
{
    text::lemma_digit_char(n % 10);
    if n < 10 {
        let c = text::digit_char(n);
        assert(seq![c].drop_last() =~= Seq::<char>::empty());
        assert(text::decimal(n) == seq![c]);
        assert(seq![c].last() == c);
        assert(n % 10 == n);
        assert(text::digits_value(seq![c]) == text::digits_value(Seq::<char>::empty()) * 10 + text::digit_value(c));
    } else {
        lemma_decimal_digits(n / 10);
        let d = text::decimal(n / 10);
        let c = text::digit_char(n % 10);
        assert(d.push(c).drop_last() == d);
        assert(text::decimal(n) == d.push(c));
        assert(text::digits_value(d.push(c)) == text::digits_value(d) * 10 + text::digit_value(c));
        assert((n / 10) * 10 + n % 10 == n) by (nonlinear_arith);
        assert(text::digits_value(d) == n / 10);
        assert(text::digit_value(c) == n % 10);
        assert forall|i: int| 0 <= i < d.push(c).len() implies text::is_digit(#[trigger] d.push(c)[i]) by {
            if i < d.len() {
                assert(d.push(c)[i] == d[i]);
            }
        }
    }
}

/// A chapter or verse number written in decimal parses back to itself.
pub proof fn decimal_parses_back(n: u32)
    ensures
        text::parse_u32_spec(text::decimal(n as nat)) == Some(n),
{
    lemma_decimal_digits(n as nat);
}

// ---------------------------------------------------------------------------
// Session round trip
// ---------------------------------------------------------------------------

/// Restoring a saved session brings back what was saved: the book (any
/// canonical book), the chapter (within the book), the scroll, the panel,
/// the translation (when set), the view mode, the verse cursor (when it
/// fits in 32 bits) and the last compare translation.
pub proof fn restore_after_snapshot(s: BrowserState, t: BrowserState)
    requires
        browser::wf(s),
        1 <= s.selected_chapter <= books::book_chapters_spec(s.selected_book_idx as int),
    ensures
        ({
            let r = browser::restore_spec(t, browser::snapshot_spec(s));
            &&& r.selected_book_idx == s.selected_book_idx
            &&& r.selected_chapter == s.selected_chapter
            &&& r.scripture_scroll == s.scripture_scroll
            &&& r.active_panel == s.active_panel
            &&& s.translation@.len() > 0 ==> r.translation == s.translation
            &&& r.view_mode == s.view_mode
            &&& r.last_compare_translation == s.last_compare_translation
            &&& (s.verse_list.selected matches Some(i) && i <= u32::MAX) ==> r.verse_list.selected == s.verse_list.selected
        }),
{
    let r = browser::restore_spec(t, browser::snapshot_spec(s));
    assert(r.active_panel == s.active_panel) by {
        match s.active_panel {
            Panel::Books => {},
            Panel::Chapters => {},
            Panel::Scripture => {},
        }
    }
    assert(r.view_mode == s.view_mode) by {
        match s.view_mode {
            ViewMode::VersePerLine => {},
            ViewMode::Paragraph => {},
        }
    }
}

/// Restoring a session puts every list cursor on what it restores: the
/// Books list on the restored book (the saved one, or the last canonical
/// book when the saved index is past the end), the Chapters list on the
/// restored chapter (the saved one kept within the book's chapters) and
/// the verse list on the saved verse row.
pub proof fn restore_moves_the_list_cursors(s: BrowserState, saved: SessionState)
    ensures
        ({
            let r = browser::restore_spec(s, saved);
            &&& r.selected_book_idx == if saved.book_index < BOOK_COUNT {
                saved.book_index
            } else {
                (BOOK_COUNT - 1) as usize
            }
            &&& r.book_list.selected == Some(r.selected_book_idx)
            &&& 1 <= r.selected_chapter <= books::book_chapters_spec(r.selected_book_idx as int)
            &&& (1 <= saved.chapter <= books::book_chapters_spec(r.selected_book_idx as int)
                ==> r.selected_chapter == saved.chapter)
            &&& r.chapter_list.selected == Some((r.selected_chapter - 1) as usize)
            &&& r.verse_list.selected == Some(saved.selected_verse as usize)
        }),
{
}

/// Restoring a saved session highlights again the book and chapter that
/// were selected when it was saved.
pub proof fn restore_after_snapshot_highlights_the_book(s: BrowserState, t: BrowserState)
    requires
        browser::wf(s),
        1 <= s.selected_chapter <= books::book_chapters_spec(s.selected_book_idx as int),
    ensures
        ({
            let r = browser::restore_spec(t, browser::snapshot_spec(s));
            &&& r.book_list.selected == Some(s.selected_book_idx)
            &&& r.chapter_list.selected == Some((s.selected_chapter - 1) as usize)
        }),
{
    restore_moves_the_list_cursors(t, browser::snapshot_spec(s));
}

// ---------------------------------------------------------------------------
// Navigation
// ---------------------------------------------------------------------------

/// The state after toggling the view mode.
pub open spec fn toggle_spec(s: BrowserState) -> BrowserState {
    match s.view_mode {
        ViewMode::VersePerLine => BrowserState {
            visual_anchor: None,
            pending_paragraph_scroll: true,
            view_mode: ViewMode::Paragraph,
            ..s
        },
        ViewMode::Paragraph => BrowserState {
            visual_anchor: None,
            pending_cursor_sync: true,
            view_mode: ViewMode::VersePerLine,
            ..s
        },
    }
}

/// Toggling the view mode twice returns to the same mode, with both
/// position carry-overs requested and no copy range.
pub proof fn toggle_twice_returns(s: BrowserState)
    ensures
        toggle_spec(toggle_spec(s)).view_mode == s.view_mode,
        toggle_spec(toggle_spec(s)).visual_anchor is None,
        toggle_spec(toggle_spec(s)).pending_paragraph_scroll,
        toggle_spec(toggle_spec(s)).pending_cursor_sync,
{
}

/// Hopping back from Chapters to Scripture on the chapter already loaded
/// keeps the reading position: no reload, same scroll, cursor, highlight
/// and copy range.
pub proof fn commit_same_chapter_keeps_position(s: BrowserState)
    requires
        s.current_chapter matches Some(c) && c.chapter == browser::chapter_number_of(s.chapter_list.selected)
            && c.book@ == books::book_name_spec(s.selected_book_idx as int),
    ensures
        !browser::needs_reload_spec(s, browser::chapter_number_of(s.chapter_list.selected)),
        browser::commit_spec(s).scripture_scroll == s.scripture_scroll,
        browser::commit_spec(s).verse_list == s.verse_list,
        browser::commit_spec(s).highlight_verse == s.highlight_verse,
        browser::commit_spec(s).visual_anchor == s.visual_anchor,
        browser::commit_spec(s).active_panel == Panel::Scripture,
{
}

/// Committing a different chapter or book starts at its top: scroll 0,
/// cursor on the first verse, no highlight and no copy range.
pub proof fn commit_new_chapter_resets_position(s: BrowserState)
    requires
        browser::needs_reload_spec(s, browser::chapter_number_of(s.chapter_list.selected)),
    ensures
        browser::commit_spec(s).scripture_scroll == 0,
        browser::commit_spec(s).verse_list.selected == Some(0usize),
        browser::commit_spec(s).highlight_verse is None,
        browser::commit_spec(s).visual_anchor is None,
        browser::commit_spec(s).selected_chapter == browser::chapter_number_of(s.chapter_list.selected),
{
}

/// Moving against the edge of the Books or Chapters list changes nothing
/// and arms no preview.
pub proof fn move_at_edge_is_still(s: BrowserState)
    requires
        s.active_panel == Panel::Books || s.active_panel == Panel::Chapters,
        s.active_panel == Panel::Books ==> browser::sel_or_zero(s.book_list) == 0,
        s.active_panel == Panel::Chapters ==> browser::sel_or_zero(s.chapter_list) == 0,
    ensures
        !browser::move_up_arms(s),
        browser::move_up_spec(s) == s,
{
}

proof fn lemma_verse_position(vs: Seq<crate::types::Verse>, number: u32, i: int)
    requires
        0 <= i,
    ensures
        browser::verse_position_from(vs, number, i) matches Some(p) ==> i <= p < vs.len() && vs[p].verse == number,
        browser::verse_position_from(vs, number, i) is None ==> forall|k: int| i <= k < vs.len() ==> #[trigger] vs[k].verse != number,
    decreases vs.len() - i,
{
    if i < vs.len() {
        lemma_verse_position(vs, number, i + 1);
    }
}

/// Selecting a verse by number puts the cursor on that verse whenever the
/// loaded chapter has it, whatever gaps its numbering has.
pub proof fn select_by_number_finds_the_verse(s: BrowserState, number: u32)
    requires
        s.current_chapter matches Some(c) && exists|k: int| 0 <= k < c.verses@.len() && #[trigger] c.verses@[k].verse == number,
    ensures
        s.current_chapter matches Some(c) && {
            let i = browser::verse_row_for_number(s, number);
            i < c.verses@.len() && c.verses@[i as int].verse == number
        },
{
    let c = s.current_chapter->0;
    lemma_verse_position(c.verses@, number, 0);
    let k = choose|k: int| 0 <= k < c.verses@.len() && #[trigger] c.verses@[k].verse == number;
    assert(c.verses@[k].verse == number);
    assert(c.verses@.len() == c.verses.len());
}

/// One copied line: the verse number, a space, the verse text and a newline.
pub open spec fn copied_line(v: types::Verse) -> Seq<char> {
    text::decimal(v.verse as nat) + " "@ + v.text@ + "\n"@
}

/// The copied lines of the verses at rows `lo..lo + n`, one per verse.
pub open spec fn lines_of_rows(vs: Seq<types::Verse>, lo: int, n: nat) -> Seq<Seq<char>> {
    Seq::new(n, |k: int| copied_line(vs[lo + k]))
}

proof fn lemma_verse_lines_flatten(vs: Seq<types::Verse>, lo: int, hi: int)
    requires
        lo <= hi,
    ensures
        browser::verse_lines(vs, lo, hi) == lines_of_rows(vs, lo, (hi - lo) as nat).flatten(),
    decreases hi - lo,
{
    let ps = lines_of_rows(vs, lo, (hi - lo) as nat);
    ps.lemma_flatten_and_flatten_alt_are_equivalent();
    if hi > lo {
        lemma_verse_lines_flatten(vs, lo, hi - 1);
        let prev = lines_of_rows(vs, lo, (hi - 1 - lo) as nat);
        assert(ps.drop_last() =~= prev);
        prev.lemma_flatten_and_flatten_alt_are_equivalent();
        assert(ps.last() == copied_line(vs[hi - 1]));
        assert(browser::verse_lines(vs, lo, hi) =~= browser::verse_lines(vs, lo, hi - 1) + copied_line(vs[hi - 1]));
    } else {
        assert(ps =~= Seq::<Seq<char>>::empty());
    }
}

/// Copying a range of verses gives, under the heading, one line per verse
/// of every row from the lower end of the range to the upper end, both
/// included, in order: exactly `end - start + 1` lines, the first for the
/// verse at row `start` and the last for the verse at row `end`, which are
/// the two verses the label names.
pub proof fn copied_range_has_a_line_per_verse(s: BrowserState)
    requires
        browser::copy_defined(s),
        s.current_chapter matches Some(c) && c.verses@.len() > 0,
        s.view_mode == ViewMode::VersePerLine,
        browser::bounds_spec(s).0 < browser::bounds_spec(s).1,
    ensures
        ({
            let c = s.current_chapter->0;
            let start = browser::bounds_spec(s).0 as int;
            let end = browser::bounds_spec(s).1 as int;
            let head = browser::loaded_name_spec(s, c) + " "@ + text::decimal(c.chapter as nat);
            let label = head + ":"@ + text::decimal(c.verses@[start].verse as nat) + "-"@ + text::decimal(
                c.verses@[end].verse as nat,
            );
            let lines = lines_of_rows(c.verses@, start, (end - start + 1) as nat);
            &&& end < c.verses@.len()
            &&& lines.len() == end - start + 1
            &&& lines[0] == copied_line(c.verses@[start])
            &&& lines.last() == copied_line(c.verses@[end])
            &&& browser::payload_spec(s) == Some((label + " ("@ + c.translation@ + ")\n"@ + lines.flatten(), label))
        }),
{
    let c = s.current_chapter->0;
    let (start, end) = browser::bounds_spec(s);
    lemma_verse_lines_flatten(c.verses@, start as int, end as int + 1);
}

/// Copying with no copy range, in verse-per-line view, copies the verse
/// under the cursor alone (the cursor kept within the chapter): its
/// reference, a dash, its text and the translation in brackets, labelled
/// with the reference.
pub proof fn copied_verse_is_the_cursor_verse(s: BrowserState)
    requires
        s.current_chapter matches Some(c) && c.verses@.len() > 0,
        s.view_mode == ViewMode::VersePerLine,
        s.visual_anchor is None,
    ensures
        ({
            let c = s.current_chapter->0;
            let row = browser::selected_verse_idx_spec(s) as int;
            let v = c.verses@[row];
            let label = browser::loaded_name_spec(s, c) + " "@ + text::decimal(c.chapter as nat) + ":"@ + text::decimal(
                v.verse as nat,
            );
            &&& row < c.verses@.len()
            &&& s.verse_list.selected matches Some(i) ==> (i < c.verses@.len() ==> row == i)
            &&& s.verse_list.selected matches Some(i) ==> (i >= c.verses@.len() ==> row == c.verses@.len() - 1)
            &&& s.verse_list.selected is None ==> row == 0
            &&& browser::payload_spec(s) == Some((label + " - "@ + v.text@ + " ("@ + c.translation@ + ")"@, label))
        }),
{
}

/// Copying in paragraph view gives, under the heading, one line per verse
/// of the whole chapter, in order.
pub proof fn copied_chapter_has_a_line_per_verse(s: BrowserState)
    requires
        s.current_chapter matches Some(c) && c.verses@.len() > 0,
        s.view_mode == ViewMode::Paragraph,
    ensures
        ({
            let c = s.current_chapter->0;
            let head = browser::loaded_name_spec(s, c) + " "@ + text::decimal(c.chapter as nat);
            let lines = lines_of_rows(c.verses@, 0, c.verses@.len());
            browser::payload_spec(s) == Some((head + " ("@ + c.translation@ + ")\n"@ + lines.flatten(), head))
        }),
{
    let c = s.current_chapter->0;
    lemma_verse_lines_flatten(c.verses@, 0, c.verses@.len() as int);
}

/// The copy range does not depend on which end the anchor is at: swapping
/// the anchor and the cursor (both within the chapter) covers the same
/// verses, always in ascending order.
pub proof fn copy_range_is_symmetric(s: BrowserState, a: usize, c: usize)
    requires
        a < browser::verse_count_spec(s),
        c < browser::verse_count_spec(s),
    ensures
        ({
            let s1 = BrowserState { visual_anchor: Some(a), verse_list: browser::ListState { selected: Some(c), ..s.verse_list }, ..s };
            let s2 = BrowserState { visual_anchor: Some(c), verse_list: browser::ListState { selected: Some(a), ..s.verse_list }, ..s };
            &&& browser::bounds_spec(s1) == browser::bounds_spec(s2)
            &&& browser::bounds_spec(s1).0 <= browser::bounds_spec(s1).1
        }),
{
}

/// The state after ending a comparison.
pub open spec fn close_compare_spec(s: BrowserState) -> BrowserState {
    BrowserState {
        compare_translation: None,
        compare_chapter: None,
        compare_loading: false,
        compare_error: None,
        compare_picker: false,
        ..s
    }
}

/// Ending a comparison keeps the last compared translation, so the
/// compare picker reopens on it rather than on the primary translation.
pub proof fn reopened_compare_defaults_to_last(s: BrowserState)
    requires
        s.last_compare_translation is Some,
    ensures
        close_compare_spec(s).last_compare_translation == s.last_compare_translation,
        browser::compare_default_spec(close_compare_spec(s)) == s.last_compare_translation->0@,
{
}

/// Moving down and back up in the Books panel returns to the same book
/// (away from the bottom edge).
pub proof fn books_down_then_up_returns(s: BrowserState, i: usize)
    requires
        s.active_panel == Panel::Books,
        s.book_list.selected == Some(i),
        i + 1 < BOOK_COUNT,
        s.selected_book_idx == i,
    ensures
        browser::move_up_spec(browser::move_down_spec(s)).book_list == s.book_list,
        browser::move_up_spec(browser::move_down_spec(s)).selected_book_idx == s.selected_book_idx,
{
}

// ---------------------------------------------------------------------------
// Screen layout
// ---------------------------------------------------------------------------

/// Laying a chapter out twice at one width is laying it out once: after
/// the first `ensure` the cache holds a chapter that has verses, so the
/// second leaves it as it is; for a chapter without verses the second
/// records the same chapter, width and (empty) layout again.
pub proof fn layout_twice_is_layout_once<F: Fn(&str, usize) -> Vec<String>>(
    before: VerseLayoutCache,
    once: VerseLayoutCache,
    twice: VerseLayoutCache,
    chapter: types::Chapter,
    text_w: u16,
    wrap: F,
)
    requires
        layout::ensure_outcome(before, once, chapter, text_w, wrap),
        layout::ensure_outcome(once, twice, chapter, text_w, wrap),
    ensures
        chapter.verses@.len() > 0 ==> twice == once && layout::cache_current(once, chapter, text_w),
        twice.book@ == once.book@,
        twice.chapter == once.chapter,
        twice.translation@ == once.translation@,
        twice.text_w == once.text_w,
        twice.entries@.len() == once.entries@.len(),
{
}

/// Widths of 10 columns or less lay a chapter out alike: `ensure` at any
/// two such widths admits exactly the same outcomes.
pub proof fn narrow_widths_lay_out_alike<F: Fn(&str, usize) -> Vec<String>>(
    before: VerseLayoutCache,
    after: VerseLayoutCache,
    chapter: types::Chapter,
    w1: u16,
    w2: u16,
    wrap: F,
)
    requires
        w1 <= 10,
        w2 <= 10,
    ensures
        layout::ensure_outcome(before, after, chapter, w1, wrap) == layout::ensure_outcome(
            before,
            after,
            chapter,
            w2,
            wrap,
        ),
{
}

/// The highlight pieces put back together are the text, and the marked
/// piece is a run of the text's own characters whose lower case is the
/// query.
pub proof fn highlight_pieces_rebuild_the_text(text: Seq<char>, query_lower: Seq<char>)
    ensures
        layout::highlight_spec(text, query_lower) matches Some((a, b, c)) ==> {
            &&& a + b + c == text
            &&& text::lowercase(b) == query_lower
            &&& b.len() > 0
        },
{
    if let Some((a, b, c)) = layout::highlight_spec(text, query_lower) {
        let (p, l) = choose|p: int, l: int| layout::is_first_run(text, query_lower, p, l);
        assert(a + b + c =~= text);
    }
}

/// A list window always shows its selection: whenever the window has room
/// and the selection is a row of the list, the selected row lies within
/// the shown rows.
pub proof fn window_shows_selection(offset: usize, sel: usize, height: usize, total: usize)
    requires
        height > 0,
        sel < total,
    ensures
        crate::layout::window_offset_spec(offset, Some(sel), height, total) <= sel,
        sel < crate::layout::window_offset_spec(offset, Some(sel), height, total) + height,
{
}

/// The Books panel is never narrower than 12 columns, and never wider than
/// 32 columns or a third of the screen, unless that third is under 12.
pub proof fn books_panel_width_bounds(localized: Seq<String>, total: u16)
    requires
        crate::layout::names_fit(localized),
    ensures
        crate::layout::books_panel_width_spec(localized, total) >= 12,
        crate::layout::books_panel_width_spec(localized, total) <= 32,
        crate::layout::books_panel_width_spec(localized, total) == 12
            || crate::layout::books_panel_width_spec(localized, total) <= total / 3,
{
}

/// Shortened result text never exceeds its budget, and keeps the start of
/// the text.
pub proof fn truncated_text_fits(text: Seq<char>, max_chars: nat)
    requires
        max_chars >= 3,
    ensures
        text::truncate_result_spec(text, max_chars).len() <= max_chars,
        text.len() <= max_chars ==> text::truncate_result_spec(text, max_chars) == text,
        text.len() > max_chars ==> text::truncate_result_spec(text, max_chars).take(max_chars - 3) == text.take(max_chars - 3),
{
    if text.len() > max_chars {
        let t = text::truncate_result_spec(text, max_chars);
        assert(t.take(max_chars - 3) =~= text.take(max_chars - 3));
    }
}

/// Matching names ignoring ASCII case is an equivalence: reflexive,
/// symmetric and transitive.
pub proof fn ignore_case_is_equivalence(a: Seq<char>, b: Seq<char>, c: Seq<char>)
    ensures
        text::eq_ignore_ascii_case_spec(a, a),
        text::eq_ignore_ascii_case_spec(a, b) ==> text::eq_ignore_ascii_case_spec(b, a),
        text::eq_ignore_ascii_case_spec(a, b) && text::eq_ignore_ascii_case_spec(b, c)
            ==> text::eq_ignore_ascii_case_spec(a, c),
{
}

} // verus!
