use christ::kjv::{get_chapter, get_verse, get_verse_range, random_verse, search, verse_for_seed, verse_from_seed, Kjv, KjvBook, KjvChapter, KjvVerse};

fn verse(n: &str, text: &str) -> KjvVerse {
    KjvVerse { verse: n.to_string(), text: text.to_string() }
}

fn chapter(n: &str, verses: Vec<KjvVerse>) -> KjvChapter {
    KjvChapter { chapter: n.to_string(), verses }
}

/// A small stand-in for the bundled text, stored out of canonical order
/// (Exodus before Genesis) the way an unordered map would hand it out.
fn fixture() -> Kjv {
    let exodus = KjvBook {
        book: "Exodus".to_string(),
        chapters: vec![chapter(
            "3",
            vec![
                verse("5", "And he said, Draw not nigh hither: put off thy shoes from off thy feet, for the place whereon thou standest is holy ground."),
                verse("6", "Moreover he said, I am the God of thy father, the God of Abraham, the God of Isaac, and the God of Jacob. And Moses hid his face; for he was afraid to look upon God."),
            ],
        )],
    };
    let genesis = KjvBook {
        book: "Genesis".to_string(),
        chapters: vec![chapter(
            "1",
            vec![
                verse("1", "In the beginning God created the heaven and the earth."),
                verse("2", "And the earth was without form, and void; and darkness was upon the face of the deep. And the Spirit of God moved upon the face of the waters."),
                verse("3", "And God said, Let there be light: and there was light."),
            ],
        )],
    };
    let mut john_verses = Vec::new();
    for n in 1..=60 {
        john_verses.push(verse(&n.to_string(), &format!("Jesus answered and said unto them, line {}", n)));
    }
    let john = KjvBook { book: "John".to_string(), chapters: vec![chapter("1", john_verses)] };
    Kjv { books: vec![john, exodus, genesis] }
}

#[test]
fn search_results_are_in_canonical_book_order() {
    let kjv = fixture();
    let results = search(&kjv, "God");
    let genesis_idx = results.iter().position(|r| r.book == "Genesis");
    let exodus_idx = results.iter().position(|r| r.book == "Exodus");
    assert!(genesis_idx.is_some(), "expected at least one match in Genesis");
    assert!(exodus_idx.is_some(), "expected at least one match in Exodus");
    assert!(genesis_idx < exodus_idx, "Genesis results must come before Exodus results");
}

#[test]
fn search_results_are_not_truncated() {
    let kjv = fixture();
    let results = search(&kjv, "Jesus");
    assert!(results.len() > 50, "expected more than 50 matches for 'Jesus', got {}", results.len());
}

#[test]
fn search_is_case_insensitive_and_matches_expected_verse() {
    let kjv = fixture();
    let results = search(&kjv, "in the beginning god created");
    assert!(results.iter().any(|r| r.book == "Genesis" && r.chapter == 1 && r.verse == 1));
}

#[test]
fn get_chapter_sync_loads_kjv_genesis() {
    let kjv = fixture();
    let ch = get_chapter(&kjv, "Genesis", 1).expect("genesis 1");
    assert_eq!(ch.chapter, 1);
    assert!(!ch.verses.is_empty());
}

#[test]
fn search_hits_keep_reference_text_and_translation() {
    let kjv = fixture();
    let results = search(&kjv, "LIGHT");
    assert_eq!(results.len(), 1);
    assert_eq!(results[0].book, "Genesis");
    assert_eq!(results[0].chapter, 1);
    assert_eq!(results[0].verse, 3);
    assert_eq!(results[0].translation, "KJV");
    assert_eq!(results[0].text, "And God said, Let there be light: and there was light.");
}

#[test]
fn search_orders_by_chapter_and_verse_within_a_book() {
    let kjv = fixture();
    let results = search(&kjv, "god");
    let refs: Vec<(String, u32, u32)> = results.iter().map(|r| (r.book.clone(), r.chapter, r.verse)).collect();
    assert_eq!(
        refs,
        vec![
            ("Genesis".to_string(), 1, 1),
            ("Genesis".to_string(), 1, 2),
            ("Genesis".to_string(), 1, 3),
            ("Exodus".to_string(), 3, 6),
        ]
    );
}

#[test]
fn search_with_no_match_is_empty() {
    let kjv = fixture();
    assert!(search(&kjv, "Melchizedek").is_empty());
}

#[test]
fn get_verse_finds_by_name_in_any_case() {
    let kjv = fixture();
    let v = get_verse(&kjv, "gEnEsIs", 1, 3).expect("Genesis 1:3");
    assert_eq!(v.book, "Genesis");
    assert_eq!(v.chapter, 1);
    assert_eq!(v.verse, 3);
    assert_eq!(v.text, "And God said, Let there be light: and there was light.");
    assert_eq!(v.translation, "KJV");
}

#[test]
fn get_verse_misses_unknown_book_chapter_or_verse() {
    let kjv = fixture();
    assert!(get_verse(&kjv, "Leviticus", 1, 1).is_none());
    assert!(get_verse(&kjv, "Genesis", 2, 1).is_none());
    assert!(get_verse(&kjv, "Genesis", 1, 4).is_none());
}

#[test]
fn get_chapter_keeps_every_parsable_verse_in_order() {
    let mut kjv = fixture();
    kjv.books[2].chapters[0].verses.push(verse("x", "unnumbered"));
    let ch = get_chapter(&kjv, "genesis", 1).unwrap();
    let numbers: Vec<u32> = ch.verses.iter().map(|v| v.verse).collect();
    assert_eq!(numbers, vec![1, 2, 3]);
    assert_eq!(ch.book, "Genesis");
    assert_eq!(ch.translation, "KJV");
    assert!(ch.verses.iter().all(|v| v.book == "Genesis" && v.chapter == 1));
}

#[test]
fn get_chapter_misses_unknown_chapter() {
    let kjv = fixture();
    assert!(get_chapter(&kjv, "Genesis", 50).is_none());
}

#[test]
fn get_verse_range_is_inclusive() {
    let kjv = fixture();
    let vs = get_verse_range(&kjv, "Genesis", 1, 2, 3);
    let numbers: Vec<u32> = vs.iter().map(|v| v.verse).collect();
    assert_eq!(numbers, vec![2, 3]);
    assert!(get_verse_range(&kjv, "Genesis", 1, 3, 2).is_empty());
    assert!(get_verse_range(&kjv, "Nowhere", 1, 1, 3).is_empty());
}

#[test]
fn get_verse_agrees_with_a_single_verse_range() {
    let kjv = fixture();
    let v = get_verse(&kjv, "Exodus", 3, 6).unwrap();
    let r = get_verse_range(&kjv, "Exodus", 3, 6, 6);
    assert_eq!(r.len(), 1);
    assert_eq!(r[0].text, v.text);
    assert_eq!(r[0].verse, v.verse);
}

#[test]
fn later_book_with_the_same_name_wins() {
    let mut kjv = fixture();
    kjv.books.push(KjvBook {
        book: "GENESIS".to_string(),
        chapters: vec![chapter("1", vec![verse("1", "replacement")])],
    });
    let v = get_verse(&kjv, "Genesis", 1, 1).unwrap();
    assert_eq!(v.text, "replacement");
    assert_eq!(v.book, "GENESIS");
}

#[test]
fn verse_from_seed_picks_by_the_documented_formula() {
    let kjv = fixture();
    // seed 2 picks book 2 (Genesis), chapter 0, verse 0
    let v = verse_from_seed(&kjv, 2);
    assert_eq!((v.book.as_str(), v.chapter, v.verse), ("Genesis", 1, 1));
    // seed 27: book 0 (John), chapter 27/7 % 1 = 0, verse 27/13 % 60 = 2
    let v = verse_from_seed(&kjv, 27);
    assert_eq!((v.book.as_str(), v.chapter, v.verse), ("John", 1, 3));
}

#[test]
fn verse_from_seed_reads_unparsable_numbers_as_one() {
    let kjv = Kjv { books: vec![KjvBook { book: "Jude".to_string(), chapters: vec![chapter("one", vec![verse("?", "x")])] }] };
    let v = verse_from_seed(&kjv, 5);
    assert_eq!((v.chapter, v.verse), (1, 1));
}

#[test]
fn random_verse_comes_from_the_text() {
    let kjv = fixture();
    let v = random_verse(&kjv).expect("clock after the epoch").expect("every pick lands on a verse");
    assert_eq!(v.translation, "KJV");
    assert!(get_verse(&kjv, &v.book, v.chapter, v.verse).is_some());
}

#[test]
fn random_verse_of_an_empty_text_is_none() {
    assert!(random_verse(&Kjv { books: Vec::new() }).expect("clock after the epoch").is_none());
    let empty_book = Kjv { books: vec![KjvBook { book: "Jude".to_string(), chapters: Vec::new() }] };
    assert!(random_verse(&empty_book).expect("clock after the epoch").is_none());
}

#[test]
fn verse_for_seed_is_none_where_the_pick_is_empty() {
    assert!(verse_for_seed(&Kjv { books: Vec::new() }, 3).is_none());
    let kjv = Kjv {
        books: vec![
            KjvBook { book: "Jude".to_string(), chapters: vec![chapter("1", Vec::new())] },
            KjvBook { book: "Ruth".to_string(), chapters: vec![chapter("2", vec![verse("4", "x")])] },
        ],
    };
    // seed 0 lands on Jude's empty chapter, seed 1 on Ruth 2:4
    assert!(verse_for_seed(&kjv, 0).is_none());
    let v = verse_for_seed(&kjv, 1).expect("Ruth has a verse");
    assert_eq!((v.book.as_str(), v.chapter, v.verse, v.text.as_str()), ("Ruth", 2, 4, "x"));
}

#[test]
fn a_random_verse_is_found_again_by_lookup() {
    let kjv = fixture();
    for seed in [0usize, 1, 2, 27, 999_999_999] {
        let v = verse_for_seed(&kjv, seed).expect("every pick lands on a verse");
        let found = get_verse(&kjv, &v.book, v.chapter, v.verse).expect("the pick is found again");
        assert_eq!((found.book, found.chapter, found.verse, found.text), (v.book, v.chapter, v.verse, v.text));
    }
}

#[test]
fn a_longer_query_finds_a_subsequence_of_a_shorter_one() {
    let kjv = fixture();
    let short = search(&kjv, "god");
    let long = search(&kjv, "GOD of");
    assert!(!long.is_empty());
    assert!(long.len() <= short.len());
    let mut at = 0;
    for hit in &long {
        while at < short.len() && !(short[at].book == hit.book && short[at].chapter == hit.chapter && short[at].verse == hit.verse) {
            at += 1;
        }
        assert!(at < short.len(), "{} {}:{} missing from the shorter query's hits", hit.book, hit.chapter, hit.verse);
        at += 1;
    }
}

#[test]
fn searching_the_empty_string_lists_every_verse_in_canonical_order() {
    let kjv = fixture();
    let all = search(&kjv, "");
    assert_eq!(all.len(), 3 + 2 + 60);
    assert_eq!((all[0].book.as_str(), all[0].verse), ("Genesis", 1));
    assert_eq!((all[3].book.as_str(), all[3].verse), ("Exodus", 5));
    assert_eq!((all[5].book.as_str(), all[5].verse), ("John", 1));
}

#[test]
fn ascii_queries_fold_case() {
    let kjv = fixture();
    let upper: Vec<(String, u32)> = search(&kjv, "LIGHT").into_iter().map(|r| (r.book, r.verse)).collect();
    let lower: Vec<(String, u32)> = search(&kjv, "light").into_iter().map(|r| (r.book, r.verse)).collect();
    assert_eq!(upper, lower);
    assert_eq!(upper, vec![("Genesis".to_string(), 3)]);
}

#[test]
fn a_range_is_the_chapter_filtered_by_number() {
    let kjv = fixture();
    let ch = get_chapter(&kjv, "John", 1).unwrap();
    let from_chapter: Vec<u32> = ch.verses.iter().map(|v| v.verse).filter(|n| (10..=14).contains(n)).collect();
    let range: Vec<u32> = get_verse_range(&kjv, "John", 1, 10, 14).iter().map(|v| v.verse).collect();
    assert_eq!(range, from_chapter);
    assert_eq!(range, vec![10, 11, 12, 13, 14]);
}

#[test]
fn get_verse_takes_the_first_verse_with_the_number() {
    let kjv = Kjv {
        books: vec![KjvBook {
            book: "Jude".to_string(),
            chapters: vec![chapter("1", vec![verse("2", "first"), verse("02", "second"), verse("x", "skipped")])],
        }],
    };
    let v = get_verse(&kjv, "Jude", 1, 2).unwrap();
    assert_eq!(v.text, "first");
    let ch = get_chapter(&kjv, "Jude", 1).unwrap();
    assert_eq!(ch.verses.len(), 2);
    assert_eq!(ch.verses.iter().find(|x| x.verse == 2).map(|x| x.text.clone()), Some(v.text));
}
