//! The canonical book table: the sixty-six books in Bible order, each with
//! its English name and number of chapters.
use vstd::prelude::*;

verus! {

/// Number of books in the canonical table.
pub const BOOK_COUNT: usize = 66;

/// English name of book `i` in canonical order (Genesis first).
pub open spec fn book_name_spec(i: int) -> Seq<char> {
    if i == 0 {
        "Genesis"@
    } else if i == 1 {
        "Exodus"@
    } else if i == 2 {
        "Leviticus"@
    } else if i == 3 {
        "Numbers"@
    } else if i == 4 {
        "Deuteronomy"@
    } else if i == 5 {
        "Joshua"@
    } else if i == 6 {
        "Judges"@
    } else if i == 7 {
        "Ruth"@
    } else if i == 8 {
        "1 Samuel"@
    } else if i == 9 {
        "2 Samuel"@
    } else if i == 10 {
        "1 Kings"@
    } else if i == 11 {
        "2 Kings"@
    } else if i == 12 {
        "1 Chronicles"@
    } else if i == 13 {
        "2 Chronicles"@
    } else if i == 14 {
        "Ezra"@
    } else if i == 15 {
        "Nehemiah"@
    } else if i == 16 {
        "Esther"@
    } else if i == 17 {
        "Job"@
    } else if i == 18 {
        "Psalms"@
    } else if i == 19 {
        "Proverbs"@
    } else if i == 20 {
        "Ecclesiastes"@
    } else if i == 21 {
        "Song of Solomon"@
    } else if i == 22 {
        "Isaiah"@
    } else if i == 23 {
        "Jeremiah"@
    } else if i == 24 {
        "Lamentations"@
    } else if i == 25 {
        "Ezekiel"@
    } else if i == 26 {
        "Daniel"@
    } else if i == 27 {
        "Hosea"@
    } else if i == 28 {
        "Joel"@
    } else if i == 29 {
        "Amos"@
    } else if i == 30 {
        "Obadiah"@
    } else if i == 31 {
        "Jonah"@
    } else if i == 32 {
        "Micah"@
    } else if i == 33 {
        "Nahum"@
    } else if i == 34 {
        "Habakkuk"@
    } else if i == 35 {
        "Zephaniah"@
    } else if i == 36 {
        "Haggai"@
    } else if i == 37 {
        "Zechariah"@
    } else if i == 38 {
        "Malachi"@
    } else if i == 39 {
        "Matthew"@
    } else if i == 40 {
        "Mark"@
    } else if i == 41 {
        "Luke"@
    } else if i == 42 {
        "John"@
    } else if i == 43 {
        "Acts"@
    } else if i == 44 {
        "Romans"@
    } else if i == 45 {
        "1 Corinthians"@
    } else if i == 46 {
        "2 Corinthians"@
    } else if i == 47 {
        "Galatians"@
    } else if i == 48 {
        "Ephesians"@
    } else if i == 49 {
        "Philippians"@
    } else if i == 50 {
        "Colossians"@
    } else if i == 51 {
        "1 Thessalonians"@
    } else if i == 52 {
        "2 Thessalonians"@
    } else if i == 53 {
        "1 Timothy"@
    } else if i == 54 {
        "2 Timothy"@
    } else if i == 55 {
        "Titus"@
    } else if i == 56 {
        "Philemon"@
    } else if i == 57 {
        "Hebrews"@
    } else if i == 58 {
        "James"@
    } else if i == 59 {
        "1 Peter"@
    } else if i == 60 {
        "2 Peter"@
    } else if i == 61 {
        "1 John"@
    } else if i == 62 {
        "2 John"@
    } else if i == 63 {
        "3 John"@
    } else if i == 64 {
        "Jude"@
    } else {
        "Revelation"@
    }
}

/// Number of chapters of book `i` in canonical order.
pub open spec fn book_chapters_spec(i: int) -> u32 {
    if i == 0 {
        50
    } else if i == 1 {
        40
    } else if i == 2 {
        27
    } else if i == 3 {
        36
    } else if i == 4 {
        34
    } else if i == 5 {
        24
    } else if i == 6 {
        21
    } else if i == 7 {
        4
    } else if i == 8 {
        31
    } else if i == 9 {
        24
    } else if i == 10 {
        22
    } else if i == 11 {
        25
    } else if i == 12 {
        29
    } else if i == 13 {
        36
    } else if i == 14 {
        10
    } else if i == 15 {
        13
    } else if i == 16 {
        10
    } else if i == 17 {
        42
    } else if i == 18 {
        150
    } else if i == 19 {
        31
    } else if i == 20 {
        12
    } else if i == 21 {
        8
    } else if i == 22 {
        66
    } else if i == 23 {
        52
    } else if i == 24 {
        5
    } else if i == 25 {
        48
    } else if i == 26 {
        12
    } else if i == 27 {
        14
    } else if i == 28 {
        3
    } else if i == 29 {
        9
    } else if i == 30 {
        1
    } else if i == 31 {
        4
    } else if i == 32 {
        7
    } else if i == 33 {
        3
    } else if i == 34 {
        3
    } else if i == 35 {
        3
    } else if i == 36 {
        2
    } else if i == 37 {
        14
    } else if i == 38 {
        4
    } else if i == 39 {
        28
    } else if i == 40 {
        16
    } else if i == 41 {
        24
    } else if i == 42 {
        21
    } else if i == 43 {
        28
    } else if i == 44 {
        16
    } else if i == 45 {
        16
    } else if i == 46 {
        13
    } else if i == 47 {
        6
    } else if i == 48 {
        6
    } else if i == 49 {
        4
    } else if i == 50 {
        4
    } else if i == 51 {
        5
    } else if i == 52 {
        3
    } else if i == 53 {
        6
    } else if i == 54 {
        4
    } else if i == 55 {
        3
    } else if i == 56 {
        1
    } else if i == 57 {
        13
    } else if i == 58 {
        5
    } else if i == 59 {
        5
    } else if i == 60 {
        3
    } else if i == 61 {
        5
    } else if i == 62 {
        1
    } else if i == 63 {
        1
    } else if i == 64 {
        1
    } else {
        22
    }
}

/// English name of book `i`.
pub fn book_name(i: usize) -> (r: &'static str)
    requires
        i < BOOK_COUNT,
    ensures
        r@ == book_name_spec(i as int),
{
    match i {
        0 => "Genesis",
        1 => "Exodus",
        2 => "Leviticus",
        3 => "Numbers",
        4 => "Deuteronomy",
        5 => "Joshua",
        6 => "Judges",
        7 => "Ruth",
        8 => "1 Samuel",
        9 => "2 Samuel",
        10 => "1 Kings",
        11 => "2 Kings",
        12 => "1 Chronicles",
        13 => "2 Chronicles",
        14 => "Ezra",
        15 => "Nehemiah",
        16 => "Esther",
        17 => "Job",
        18 => "Psalms",
        19 => "Proverbs",
        20 => "Ecclesiastes",
        21 => "Song of Solomon",
        22 => "Isaiah",
        23 => "Jeremiah",
        24 => "Lamentations",
        25 => "Ezekiel",
        26 => "Daniel",
        27 => "Hosea",
        28 => "Joel",
        29 => "Amos",
        30 => "Obadiah",
        31 => "Jonah",
        32 => "Micah",
        33 => "Nahum",
        34 => "Habakkuk",
        35 => "Zephaniah",
        36 => "Haggai",
        37 => "Zechariah",
        38 => "Malachi",
        39 => "Matthew",
        40 => "Mark",
        41 => "Luke",
        42 => "John",
        43 => "Acts",
        44 => "Romans",
        45 => "1 Corinthians",
        46 => "2 Corinthians",
        47 => "Galatians",
        48 => "Ephesians",
        49 => "Philippians",
        50 => "Colossians",
        51 => "1 Thessalonians",
        52 => "2 Thessalonians",
        53 => "1 Timothy",
        54 => "2 Timothy",
        55 => "Titus",
        56 => "Philemon",
        57 => "Hebrews",
        58 => "James",
        59 => "1 Peter",
        60 => "2 Peter",
        61 => "1 John",
        62 => "2 John",
        63 => "3 John",
        64 => "Jude",
        _ => "Revelation",
    }
}

/// Number of chapters of book `i`.
pub fn book_chapters(i: usize) -> (r: u32)
    requires
        i < BOOK_COUNT,
    ensures
        r == book_chapters_spec(i as int),
        r >= 1,
{
    match i {
        0 => 50,
        1 => 40,
        2 => 27,
        3 => 36,
        4 => 34,
        5 => 24,
        6 => 21,
        7 => 4,
        8 => 31,
        9 => 24,
        10 => 22,
        11 => 25,
        12 => 29,
        13 => 36,
        14 => 10,
        15 => 13,
        16 => 10,
        17 => 42,
        18 => 150,
        19 => 31,
        20 => 12,
        21 => 8,
        22 => 66,
        23 => 52,
        24 => 5,
        25 => 48,
        26 => 12,
        27 => 14,
        28 => 3,
        29 => 9,
        30 => 1,
        31 => 4,
        32 => 7,
        33 => 3,
        34 => 3,
        35 => 3,
        36 => 2,
        37 => 14,
        38 => 4,
        39 => 28,
        40 => 16,
        41 => 24,
        42 => 21,
        43 => 28,
        44 => 16,
        45 => 16,
        46 => 13,
        47 => 6,
        48 => 6,
        49 => 4,
        50 => 4,
        51 => 5,
        52 => 3,
        53 => 6,
        54 => 4,
        55 => 3,
        56 => 1,
        57 => 13,
        58 => 5,
        59 => 5,
        60 => 3,
        61 => 5,
        62 => 1,
        63 => 1,
        64 => 1,
        _ => 22,
    }
}

/// The first canonical book at or after `i` whose name matches `name`
/// ignoring ASCII case.
pub open spec fn first_book_from(name: Seq<char>, i: int) -> Option<int>
    decreases BOOK_COUNT - i,
{
    if i < 0 || i >= BOOK_COUNT {
        None
    } else if crate::text::eq_ignore_ascii_case_spec(book_name_spec(i), name) {
        Some(i)
    } else {
        first_book_from(name, i + 1)
    }
}

/// The canonical position of the first book whose name matches `name`
/// ignoring ASCII case.
pub open spec fn book_index_spec(name: Seq<char>) -> Option<int> {
    first_book_from(name, 0)
}

/// The canonical position of the book named `name` (ASCII case ignored).
pub fn book_index(name: &str) -> (r: Option<usize>)
    ensures
        match r {
            Some(i) => book_index_spec(name@) == Some(i as int) && i < BOOK_COUNT,
            None => book_index_spec(name@) is None,
        },
{
    let mut i: usize = 0;
    while i < BOOK_COUNT
        invariant
            i <= BOOK_COUNT,
            book_index_spec(name@) == first_book_from(name@, i as int),
        decreases BOOK_COUNT - i,
    {
        if crate::text::eq_ignore_ascii_case(book_name(i), name) {
            return Some(i);
        }
        i = i + 1;
    }
    None
}

} // verus!
