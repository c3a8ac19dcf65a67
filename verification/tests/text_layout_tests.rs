use christ::browser::BrowserState;
use christ::layout::{
    bookmarks_title, compare_title, note_title, preview_title, search_title,
    compare_target_line, verse_scrollbar,
    books_panel_width_checked, bookmark_row, cache_suffix, centred_scroll, clamp_help_scroll, cursor_for_row,
    download_percent, empty_results_message, highlight_split, list_window, main_view, panel_is_active,
    paragraph_scroll, picker_rows, picker_scroll, picker_selected_line, popup_height, reference, scripture_content,
    search_row, text_budget, verse_row_style, MainView, PickerRow, ScriptureContent, VerseLayoutCache,
    VerseRowStyle,
};
use christ::text::{
    decimal_string, eq_ignore_ascii_case, parse_u32, str_contains, truncate_display_name, truncate_result_text,
};
use christ::types::{Bookmark, Chapter, SearchResult, Verse};

#[test]
fn parse_u32_follows_std() {
    for s in ["0", "7", "+7", "0042", "4294967295", "", "+", "-1", "4294967296", "1 ", "x1", "99999999999"] {
        assert_eq!(parse_u32(s), s.parse::<u32>().ok(), "input {:?}", s);
    }
}

#[test]
fn decimal_string_writes_numbers() {
    assert_eq!(decimal_string(0), "0");
    assert_eq!(decimal_string(150), "150");
    assert_eq!(decimal_string(u64::MAX), u64::MAX.to_string());
}

#[test]
fn eq_ignore_ascii_case_matches_std() {
    for (a, b) in [("KJV", "kjv"), ("Genesis", "GENESIS"), ("Ärger", "ärger"), ("abc", "abd"), ("", ""), ("a", "")] {
        assert_eq!(eq_ignore_ascii_case(a, b), a.eq_ignore_ascii_case(b), "{:?} {:?}", a, b);
    }
}

#[test]
fn str_contains_matches_std() {
    for (h, n) in [("in the beginning", "begin"), ("abc", ""), ("", "a"), ("aaab", "aab"), ("Gott", "ött")] {
        assert_eq!(str_contains(h, n), h.contains(n), "{:?} {:?}", h, n);
    }
}

#[test]
fn truncate_result_text_keeps_short_text_and_cuts_long_text() {
    assert_eq!(truncate_result_text("Jesus wept.", 20), "Jesus wept.");
    assert_eq!(truncate_result_text("Jesus wept.", 11), "Jesus wept.");
    assert_eq!(truncate_result_text("Jesus wept.", 8), "Jesus...");
    assert_eq!(truncate_result_text("Ίησοῦς ἐδάκρυσεν", 9), "Ίησοῦς...");
}

#[test]
fn truncate_display_name_fits_the_width() {
    assert_eq!(truncate_display_name("Genesis", 10), "Genesis");
    assert_eq!(truncate_display_name("Song of Solomon", 8), "Song of\u{2026}");
    assert_eq!(truncate_display_name("和合本聖經", 5), "和合\u{2026}");
    assert_eq!(truncate_display_name("Genesis", 0), "\u{2026}");
}

#[test]
fn list_window_follows_the_selection() {
    assert_eq!(list_window(0, Some(3), 5, 100), (0, 5));
    assert_eq!(list_window(0, Some(7), 5, 100), (3, 8));
    assert_eq!(list_window(10, Some(4), 5, 100), (4, 9));
    assert_eq!(list_window(50, None, 5, 20), (15, 20));
    assert_eq!(list_window(0, Some(2), 10, 4), (0, 4));
    assert_eq!(list_window(3, Some(2), 0, 4), (2, 2));
}

#[test]
fn highlight_split_finds_the_first_match_ignoring_case() {
    let (a, b, c) = highlight_split("In the beginning God created", "god").unwrap();
    assert_eq!((a.as_str(), b.as_str(), c.as_str()), ("In the beginning ", "God", " created"));
    assert!(highlight_split("Jesus wept.", "").is_none());
    assert!(highlight_split("Jesus wept.", "lazarus").is_none());
    let (a, b, c) = highlight_split("Jesus Jesus", "jesus").unwrap();
    assert_eq!((a.as_str(), b.as_str(), c.as_str()), ("", "Jesus", " Jesus"));
}

#[test]
fn highlight_split_marks_the_text_own_characters_when_lowering_lengthens() {
    // 'İ' lower-cases to two characters; the match is still placed on the
    // characters of the text itself.
    let (a, b, c) = highlight_split("İabc", "ab").unwrap();
    assert_eq!((a.as_str(), b.as_str(), c.as_str()), ("İ", "ab", "c"));
    let (a, b, c) = highlight_split("İx", "x").unwrap();
    assert_eq!((a.as_str(), b.as_str(), c.as_str()), ("İ", "x", ""));
    let lowered_dotted_i = "İ".to_lowercase();
    let (a, b, c) = highlight_split("aİb", &lowered_dotted_i).unwrap();
    assert_eq!((a.as_str(), b.as_str(), c.as_str()), ("a", "İ", "b"));
}

#[test]
fn highlight_split_prefers_the_earliest_then_shortest_run() {
    let (a, b, c) = highlight_split("abcABC", "abc").unwrap();
    assert_eq!((a.as_str(), b.as_str(), c.as_str()), ("", "abc", "ABC"));
    let (a, b, c) = highlight_split("xyABC", "abc").unwrap();
    assert_eq!((a.as_str(), b.as_str(), c.as_str()), ("xy", "ABC", ""));
}

#[test]
fn rows_budget_text_after_the_reference() {
    assert_eq!(text_budget(11, 0, 80), 63);
    assert_eq!(text_budget(11, 7, 30), 20);
    let r = SearchResult {
        book: "John".to_string(),
        chapter: 11,
        verse: 35,
        text: "Jesus wept, and then a great deal more text follows here.".to_string(),
        translation: "KJV".to_string(),
    };
    let (reference_text, shown) = search_row(&r, 30).unwrap();
    assert_eq!(reference_text, "John 11:35");
    assert_eq!(shown, truncate_result_text(&r.text, 20));
    let b = Bookmark {
        translation: "KJV".to_string(),
        book: "John".to_string(),
        chapter: 11,
        verse: 35,
        verse_text: "Jesus wept.".to_string(),
        note: Some("short".to_string()),
    };
    let (reference_text, marker, shown) = bookmark_row(&b, 100).unwrap();
    assert_eq!(reference_text, "John 11:35");
    assert_eq!(marker, " [note]");
    assert_eq!(shown, "Jesus wept.");
    assert_eq!(reference("1 John", 4, 8), "1 John 4:8");
}

#[test]
fn empty_results_message_depends_on_query_length() {
    assert_eq!(empty_results_message("go"), "Type at least 3 characters to search");
    assert_eq!(empty_results_message("god"), "No results found");
    assert_eq!(empty_results_message("é"), "Type at least 3 characters to search");
}

#[test]
fn download_percent_is_whole_percent() {
    assert_eq!(download_percent(1, 3), 33);
    assert_eq!(download_percent(5, 0), 0);
    assert_eq!(download_percent(66, 66), 100);
}

#[test]
fn picker_groups_entries_by_language() {
    let rows = picker_rows();
    assert_eq!(rows[0], PickerRow::Header(0));
    assert_eq!(rows[1], PickerRow::Entry(0));
    // 33 entries, 12 languages: 12 headers and 11 separators.
    assert_eq!(rows.len(), 33 + 12 + 11);
    let ukr = rows.iter().position(|r| *r == PickerRow::Header(12)).unwrap();
    assert_eq!(rows[ukr - 1], PickerRow::Blank);
    assert_eq!(picker_selected_line(&rows, Some(0)), 1);
    assert_eq!(picker_selected_line(&rows, Some(12)), (ukr + 1) as u16);
    assert_eq!(picker_selected_line(&rows, None), 0);
}

#[test]
fn popups_scroll_and_size() {
    assert_eq!(picker_scroll(5, 10), 0);
    assert_eq!(picker_scroll(30, 10), 25);
    assert_eq!(popup_height(56, 40, 4), 36);
    assert_eq!(popup_height(10, 40, 4), 14);
    assert_eq!(popup_height(10, 3, 4), 0);
    assert_eq!(clamp_help_scroll(50, 40, 30), 10);
    assert_eq!(clamp_help_scroll(5, 40, 30), 5);
    assert_eq!(clamp_help_scroll(5, 20, 30), 0);
    assert_eq!(centred_scroll(20, 10), 15);
    assert_eq!(centred_scroll(3, 10), 0);
}

#[test]
fn cache_suffix_prefers_offline() {
    assert_eq!(cache_suffix(true, false, false), " (offline)");
    assert_eq!(cache_suffix(false, true, true), " (offline)");
    assert_eq!(cache_suffix(false, false, true), " (cached)");
    assert_eq!(cache_suffix(false, false, false), "");
}

#[test]
fn paragraph_scroll_carries_and_clamps() {
    let rows = vec![0u16, 4, 9, 30];
    assert_eq!(paragraph_scroll(0, true, 3, &rows, 40, 12), 26);
    assert_eq!(paragraph_scroll(0, true, 2, &rows, 40, 12), 5);
    assert_eq!(paragraph_scroll(100, false, 0, &rows, 40, 12), 28);
    assert_eq!(paragraph_scroll(7, false, 0, &rows, 10, 12), 0);
    assert_eq!(paragraph_scroll(7, true, 9, &rows, 40, 12), 0);
}

#[test]
fn cursor_for_row_stops_at_the_first_verse_below() {
    let starts = vec![0usize, 3, 7, 12];
    assert_eq!(cursor_for_row(&starts, 0), 0);
    assert_eq!(cursor_for_row(&starts, 8), 2);
    assert_eq!(cursor_for_row(&starts, 100), 3);
    assert_eq!(cursor_for_row(&vec![], 5), 0);
    assert_eq!(cursor_for_row(&vec![4usize, 1], 2), 0);
}

#[test]
fn verse_row_style_precedence() {
    assert_eq!(verse_row_style(true, true, true, true), VerseRowStyle::Highlighted);
    assert_eq!(verse_row_style(false, true, true, true), VerseRowStyle::Selected { bookmarked: true });
    assert_eq!(verse_row_style(false, false, true, false), VerseRowStyle::InRange { bookmarked: false });
    assert_eq!(verse_row_style(false, false, false, true), VerseRowStyle::Bookmarked);
    assert_eq!(verse_row_style(false, false, false, false), VerseRowStyle::Plain);
}

#[test]
fn main_view_and_focus() {
    let mut s = BrowserState::new();
    assert_eq!(main_view(&s), MainView::Scripture);
    assert!(panel_is_active(&s, christ::browser::Panel::Books));
    s.compare_translation = Some("ESV".to_string());
    assert_eq!(main_view(&s), MainView::Compare);
    s.bookmark_mode = christ::browser::BookmarkMode::Active { list_state: christ::browser::ListState::default() };
    assert_eq!(main_view(&s), MainView::Bookmarks);
    assert!(!panel_is_active(&s, christ::browser::Panel::Books));
    s.search = christ::browser::SearchMode::Active {
        query: String::new(),
        results: Vec::new(),
        list_state: christ::browser::ListState::default(),
    };
    assert_eq!(main_view(&s), MainView::SearchResults);
}

#[test]
fn scripture_content_by_state() {
    let mut s = BrowserState::new();
    assert_eq!(scripture_content(&s), ScriptureContent::Hint);
    s.current_chapter = Some(Chapter { book: "Jude".to_string(), chapter: 1, verses: Vec::new(), translation: "KJV".to_string() });
    assert_eq!(scripture_content(&s), ScriptureContent::VerseList);
    s.view_mode = christ::browser::ViewMode::Paragraph;
    assert_eq!(scripture_content(&s), ScriptureContent::Paragraph);
    s.error = Some("offline".to_string());
    assert_eq!(scripture_content(&s), ScriptureContent::Error);
    s.loading = true;
    assert_eq!(scripture_content(&s), ScriptureContent::Loading);
}

#[test]
fn books_panel_width_checked_refuses_absurd_names() {
    let mut s = BrowserState::new();
    assert_eq!(books_panel_width_checked(&s, 200), Some(22));
    s.localized_books = vec!["x".repeat(65_535)];
    assert_eq!(books_panel_width_checked(&s, 200), None);
}

#[test]
fn verse_layout_cache_rebuilds_only_on_change() {
    let chapter = Chapter {
        book: "Jude".to_string(),
        chapter: 1,
        verses: vec![
            Verse { book: "Jude".to_string(), chapter: 1, verse: 1, text: "one two three".to_string(), translation: "KJV".to_string() },
            Verse { book: "Jude".to_string(), chapter: 1, verse: 25, text: "four".to_string(), translation: "KJV".to_string() },
        ],
        translation: "KJV".to_string(),
    };
    let wrap = |t: &str, w: usize| -> Vec<String> { vec![format!("{}@{}", t, w)] };
    let mut cache = VerseLayoutCache::default();
    cache.ensure(&chapter, 4, &wrap);
    assert_eq!(cache.text_w, 10);
    let e = &cache.entries()[1];
    assert_eq!((e.verse, e.num.as_str(), e.num_w, e.height), (25, "25 ", 3, 2));
    assert_eq!(e.wrapped, vec!["four@10".to_string()]);
    cache.ensure(&chapter, 40, &wrap);
    assert_eq!(cache.entries()[0].wrapped, vec!["one two three@38".to_string()]);
    let other = |_: &str, _: usize| -> Vec<String> { Vec::new() };
    cache.ensure(&chapter, 40, &other);
    assert_eq!(cache.entries()[0].wrapped, vec!["one two three@38".to_string()], "unchanged key keeps the layout");
}

fn three_verse_state() -> BrowserState {
    let mut s = BrowserState::new();
    s.current_chapter = Some(Chapter {
        book: "Genesis".to_string(),
        chapter: 1,
        verses: (1..=3)
            .map(|n| Verse { book: "Genesis".to_string(), chapter: 1, verse: n, text: format!("stub {}", n), translation: "KJV".to_string() })
            .collect(),
        translation: "KJV".to_string(),
    });
    s
}

#[test]
fn settle_verse_cursor_syncs_once_and_clamps() {
    let mut s = three_verse_state();
    s.pending_cursor_sync = true;
    s.scripture_scroll = 5;
    s.settle_verse_cursor(&vec![0, 4, 9], 6);
    assert_eq!(s.verse_list.selected(), Some(1));
    assert!(!s.pending_cursor_sync);
    s.verse_list.select(Some(9));
    s.settle_verse_cursor(&vec![0, 4, 9], 6);
    assert_eq!(s.verse_list.selected(), Some(2), "clamped to the last verse");
}

#[test]
fn settle_paragraph_scroll_carries_position_once() {
    let mut s = three_verse_state();
    s.verse_list.select(Some(2));
    s.pending_paragraph_scroll = true;
    s.settle_paragraph_scroll(&vec![0, 4, 20], 40, 12);
    assert_eq!(s.scripture_scroll, 16);
    assert!(!s.pending_paragraph_scroll);
    s.settle_paragraph_scroll(&vec![0, 4, 20], 20, 12);
    assert_eq!(s.scripture_scroll, 8, "clamped to the content");
}

#[test]
fn settle_help_scroll_clamps() {
    let mut s = BrowserState::new();
    s.help_scroll = 90;
    s.settle_help_scroll(45, 20);
    assert_eq!(s.help_scroll, 25);
}

#[test]
fn settle_windows_store_the_offset() {
    let mut s = BrowserState::new();
    assert_eq!(s.settle_results_window(5), None);
    let mut list_state = christ::browser::ListState::default();
    list_state.select(Some(8));
    let results: Vec<SearchResult> = (1..=20)
        .map(|n| SearchResult { book: "Psalms".to_string(), chapter: 119, verse: n, text: "x".to_string(), translation: "KJV".to_string() })
        .collect();
    s.search = christ::browser::SearchMode::Active { query: "x".to_string(), results, list_state };
    assert_eq!(s.settle_results_window(5), Some((4, 9)));
    if let christ::browser::SearchMode::Active { list_state, .. } = &s.search {
        assert_eq!(list_state.offset(), 4);
    }
    assert_eq!(s.settle_bookmarks_window(5), None);
    let mut list_state = christ::browser::ListState::default();
    list_state.select(Some(0));
    s.bookmark_mode = christ::browser::BookmarkMode::Active { list_state };
    assert_eq!(s.settle_bookmarks_window(5), Some((0, 0)));
}

#[test]
fn help_popup_height_keeps_one_row_each_side() {
    assert_eq!(popup_height(38, 30, 2), 28);
    assert_eq!(popup_height(10, 30, 2), 14);
}

#[test]
fn verse_scrollbar_counts_rows_before_the_first_shown_verse() {
    assert_eq!(verse_scrollbar(&vec![3, 4, 5], 1, 6), Some((6, 3)));
    assert_eq!(verse_scrollbar(&vec![3, 4, 5], 9, 10), Some((2, 2)));
    assert_eq!(verse_scrollbar(&vec![3, 4], 0, 10), None);
    assert_eq!(verse_scrollbar(&vec![3, 4], 0, 0), None);
}

#[test]
fn compare_target_line_finds_the_selected_verse() {
    let lines = vec![2, 3, 4];
    assert_eq!(compare_target_line(&lines, &vec![1, 2, 3], Some(3)), 5);
    assert_eq!(compare_target_line(&lines, &vec![1, 2, 3], Some(9)), 0);
    assert_eq!(compare_target_line(&lines, &vec![1, 2, 2], Some(2)), 5, "the last verse with the number counts");
    assert_eq!(compare_target_line(&lines, &vec![1, 2, 3], None), 0);
}

#[test]
fn selected_verse_number_reads_the_cursor() {
    let mut s = three_verse_state();
    s.verse_list.select(Some(1));
    assert_eq!(s.selected_verse_number(), Some(2));
    assert_eq!(BrowserState::new().selected_verse_number(), None);
}

#[test]
fn panel_titles() {
    assert_eq!(search_title("wept", 2), " Search: \"wept\" (2 results) ");
    assert_eq!(bookmarks_title(0), " Bookmarks (0) ");
    assert_eq!(preview_title("John", 11, 35, "KJV"), " John 11:35 \u{00b7} KJV ");
    let editor = christ::browser::NoteEditor {
        translation: "KJV".to_string(),
        book: "John".to_string(),
        chapter: 11,
        verse: 35,
        verse_text: "Jesus wept.".to_string(),
        draft: String::new(),
    };
    assert_eq!(note_title(&editor), " Note \u{00b7} John 11:35 ");
    let mut s = BrowserState::new();
    assert_eq!(compare_title(&s), "  ");
    s.compare_translation = Some("ESV".to_string());
    assert_eq!(compare_title(&s), " ESV ");
    s.compare_chapter = Some(Chapter { book: "John".to_string(), chapter: 3, verses: Vec::new(), translation: "ESV".to_string() });
    assert_eq!(compare_title(&s), " ESV \u{00b7} John 3 ");
}

#[test]
fn verse_layout_twice_is_once_and_narrow_widths_agree() {
    let chapter = Chapter {
        book: "Ruth".to_string(),
        chapter: 2,
        verses: vec![Verse { book: "Ruth".to_string(), chapter: 2, verse: 4, text: "and Boaz".to_string(), translation: "KJV".to_string() }],
        translation: "KJV".to_string(),
    };
    let wrap = |t: &str, w: usize| -> Vec<String> { vec![format!("{}@{}", t, w)] };
    let mut once = VerseLayoutCache::default();
    once.ensure(&chapter, 7, &wrap);
    let first: Vec<Vec<String>> = once.entries().iter().map(|e| e.wrapped.clone()).collect();
    once.ensure(&chapter, 7, &wrap);
    let second: Vec<Vec<String>> = once.entries().iter().map(|e| e.wrapped.clone()).collect();
    assert_eq!(first, second);
    let mut narrow = VerseLayoutCache::default();
    narrow.ensure(&chapter, 3, &wrap);
    assert_eq!((narrow.text_w, once.text_w), (10, 10));
    let third: Vec<Vec<String>> = narrow.entries().iter().map(|e| e.wrapped.clone()).collect();
    assert_eq!(third, first);
    assert_eq!(first, vec![vec!["and Boaz@10".to_string()]]);
}
