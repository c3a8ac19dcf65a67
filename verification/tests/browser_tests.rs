use christ::books::{book_name, BOOK_COUNT};
use christ::browser::{preview_debounce, BookmarkMode, BrowserState, ListState, Panel, ViewMode, PREVIEW_DEBOUNCE_OFFLINE, PREVIEW_DEBOUNCE_ONLINE};
use christ::layout::books_panel_width;
use christ::translations::translations;
use christ::types::{Bookmark, Chapter, Verse};

fn state_at(book_idx: usize, chapter: u32, scroll: u16) -> BrowserState {
    let mut s = BrowserState::new();
    s.bookmarks = Vec::new();
    s.selected_book_idx = book_idx;
    s.book_list.select(Some(book_idx));
    s.selected_chapter = chapter;
    s.chapter_list.select(Some((chapter - 1) as usize));
    s.scripture_scroll = scroll;
    s.current_chapter = Some(Chapter {
        book: book_name(book_idx).to_string(),
        chapter,
        verses: (1..=3)
            .map(|n| Verse {
                book: book_name(book_idx).to_string(),
                chapter,
                verse: n,
                text: format!("stub {}", n),
                translation: "KJV".to_string(),
            })
            .collect(),
        translation: "KJV".to_string(),
    });
    s.active_panel = Panel::Scripture;
    s
}

fn bookmark(translation: &str, book: &str, chapter: u32, verse: u32, text: &str, note: Option<String>) -> Bookmark {
    Bookmark {
        translation: translation.to_string(),
        book: book.to_string(),
        chapter,
        verse,
        verse_text: text.to_string(),
        note,
    }
}

fn index_of_code(code: &str) -> usize {
    translations().iter().position(|t| t.code == code).unwrap()
}

#[test]
fn panel_hop_back_to_scripture_preserves_scroll() {
    let mut s = state_at(0, 1, 42);
    s.prev_panel();
    let needs_reload = s.next_panel_or_select();
    assert!(!needs_reload, "no reload when chapter unchanged");
    assert_eq!(s.scripture_scroll, 42, "scroll preserved");
}

#[test]
fn select_same_chapter_via_enter_preserves_scroll() {
    let mut s = state_at(0, 1, 42);
    s.prev_panel();
    let needs_reload = s.select_current();
    assert!(!needs_reload);
    assert_eq!(s.scripture_scroll, 42);
}

#[test]
fn switching_to_different_chapter_resets_scroll() {
    let mut s = state_at(0, 1, 42);
    s.prev_panel();
    s.chapter_list.select(Some(2));
    let needs_reload = s.next_panel_or_select();
    assert!(needs_reload, "must reload for new chapter");
    assert_eq!(s.scripture_scroll, 0, "scroll resets on chapter change");
    assert_eq!(s.selected_chapter, 3);
}

#[test]
fn switching_to_different_book_resets_scroll() {
    let mut s = state_at(0, 1, 42);
    s.prev_panel();
    s.prev_panel();
    s.selected_book_idx = 1;
    s.book_list.select(Some(1));
    s.next_panel_or_select();
    let needs_reload = s.next_panel_or_select();
    assert!(needs_reload, "must reload when book changed");
    assert_eq!(s.scripture_scroll, 0);
    assert_eq!(s.selected_book_name(), book_name(1));
}

#[test]
fn verse_cursor_moves_in_verse_per_line_mode() {
    let mut s = state_at(0, 1, 0);
    assert_eq!(s.selected_verse_idx(), 0);
    s.move_down();
    assert_eq!(s.selected_verse_idx(), 1);
    s.move_down();
    s.move_down();
    assert_eq!(s.selected_verse_idx(), 2);
    s.move_up();
    assert_eq!(s.selected_verse_idx(), 1);
    assert_eq!(s.scripture_scroll, 0, "cursor moves must not scroll");
}

#[test]
fn paragraph_mode_scrolls_lines_not_cursor() {
    let mut s = state_at(0, 1, 0);
    s.view_mode = ViewMode::Paragraph;
    s.move_down();
    assert_eq!(s.scripture_scroll, 1);
    assert_eq!(s.selected_verse_idx(), 0, "cursor untouched in paragraph mode");
}

#[test]
fn toggle_view_mode_round_trips() {
    let mut s = state_at(0, 1, 0);
    assert_eq!(s.view_mode, ViewMode::VersePerLine);
    s.toggle_view_mode();
    assert_eq!(s.view_mode, ViewMode::Paragraph);
    assert!(s.pending_paragraph_scroll, "carries reading position over");
    s.toggle_view_mode();
    assert_eq!(s.view_mode, ViewMode::VersePerLine);
}

#[test]
fn copy_payload_single_verse() {
    let s = state_at(0, 1, 0);
    let (text, label) = s.copy_payload().unwrap();
    assert_eq!(label, "Genesis 1:1");
    assert_eq!(text, "Genesis 1:1 - stub 1 (KJV)");
}

#[test]
fn copy_payload_visual_range() {
    let mut s = state_at(0, 1, 0);
    s.visual_anchor = Some(0);
    s.verse_list.select(Some(2));
    let (text, label) = s.copy_payload().unwrap();
    assert_eq!(label, "Genesis 1:1-3");
    assert!(text.starts_with("Genesis 1:1-3 (KJV)\n"));
    assert!(text.contains("\n2 stub 2\n"));
    assert!(text.contains("\n3 stub 3\n"));
}

#[test]
fn copy_payload_range_works_backwards() {
    let mut s = state_at(0, 1, 0);
    s.visual_anchor = Some(2);
    s.verse_list.select(Some(0));
    let (_, label) = s.copy_payload().unwrap();
    assert_eq!(label, "Genesis 1:1-3", "anchor below cursor still copies forward");
}

#[test]
fn copy_payload_paragraph_copies_whole_chapter() {
    let mut s = state_at(0, 1, 0);
    s.view_mode = ViewMode::Paragraph;
    let (text, label) = s.copy_payload().unwrap();
    assert_eq!(label, "Genesis 1");
    assert!(text.starts_with("Genesis 1 (KJV)\n"));
    assert!(text.contains("3 stub 3"));
}

#[test]
fn jump_to_result_selects_verse() {
    let mut s = state_at(0, 1, 0);
    s.jump_to_result("Exodus", 2, 3);
    assert_eq!(s.selected_book_name(), "Exodus");
    assert_eq!(s.selected_chapter, 2);
    assert_eq!(s.highlight_verse, Some(3));
    assert_eq!(s.verse_list.selected(), Some(2), "cursor lands on the verse");
}

#[test]
fn new_chapter_resets_verse_cursor_and_visual_range() {
    let mut s = state_at(0, 1, 0);
    s.verse_list.select(Some(2));
    s.visual_anchor = Some(0);
    s.prev_panel();
    s.chapter_list.select(Some(4));
    assert!(s.next_panel_or_select());
    assert_eq!(s.verse_list.selected(), Some(0));
    assert!(s.visual_anchor.is_none());
    assert!(s.highlight_verse.is_none());
}

#[test]
fn copy_label_uses_loaded_chapter_not_books_cursor() {
    let mut s = state_at(0, 1, 0);
    s.prev_panel();
    s.prev_panel();
    s.move_down();
    assert_eq!(s.selected_book_idx, 1);
    let (text, label) = s.copy_payload().unwrap();
    assert_eq!(label, "Genesis 1:1");
    assert!(text.starts_with("Genesis 1:1"));
}

#[test]
fn select_verse_by_number_handles_numbering_gaps() {
    let mut s = state_at(0, 1, 0);
    if let Some(ch) = s.current_chapter.as_mut() {
        ch.verses[0].verse = 1;
        ch.verses[1].verse = 2;
        ch.verses[2].verse = 5;
    }
    s.select_verse_by_number(5);
    assert_eq!(s.verse_list.selected(), Some(2), "found by number, not index");
    s.select_verse_by_number(2);
    assert_eq!(s.verse_list.selected(), Some(1));
}

#[test]
fn toggle_from_paragraph_requests_cursor_sync() {
    let mut s = state_at(0, 1, 0);
    s.view_mode = ViewMode::Paragraph;
    s.toggle_view_mode();
    assert_eq!(s.view_mode, ViewMode::VersePerLine);
    assert!(s.pending_cursor_sync, "cursor must be derived from paragraph scroll");
}

#[test]
fn offline_preview_debounce_is_faster_than_online() {
    // The bundled KJV of `state_at` reads fully offline.
    let _s = state_at(0, 1, 0);
    assert_eq!(preview_debounce(true), PREVIEW_DEBOUNCE_OFFLINE);
    assert!(PREVIEW_DEBOUNCE_OFFLINE < PREVIEW_DEBOUNCE_ONLINE);
}

#[test]
fn uncached_translation_uses_online_preview_debounce() {
    // An uncached WEB is not fully offline.
    let mut s = state_at(0, 1, 0);
    s.translation = "WEB".to_string();
    assert_eq!(preview_debounce(false), PREVIEW_DEBOUNCE_ONLINE);
}

#[test]
fn browsing_books_or_chapters_arms_live_preview() {
    let mut s = state_at(0, 1, 0);
    s.move_down();
    assert!(s.preview_pending.is_none());
    s.prev_panel();
    s.move_down();
    assert!(s.preview_pending.is_some());
    assert_eq!(s.preview_target(), (0, 2));
    s.preview_pending = None;
    s.prev_panel();
    s.move_down();
    assert!(s.preview_pending.is_some());
    assert_eq!(s.preview_target(), (1, 1));
}

#[test]
fn moving_against_a_list_edge_does_not_arm_preview() {
    let mut s = state_at(0, 1, 0);
    s.prev_panel();
    s.prev_panel();
    s.move_up();
    assert!(s.preview_pending.is_none());
}

#[test]
fn books_panel_width_is_sized_to_content() {
    let s = state_at(0, 1, 0);
    assert_eq!(books_panel_width(&s, 200), 22);
    let mut s = state_at(0, 1, 0);
    s.localized_books = vec!["Четверта книга Мойсеєва".to_string(); BOOK_COUNT];
    assert_eq!(books_panel_width(&s, 200), 30);
    s.localized_books = vec!["An improbably long book name that overflows".to_string(); BOOK_COUNT];
    assert_eq!(books_panel_width(&s, 200), 32, "hard cap");
    let mut s = state_at(0, 1, 0);
    s.localized_books = vec!["Четверта книга Мойсеєва".to_string(); BOOK_COUNT];
    assert_eq!(books_panel_width(&s, 60), 20);
    assert_eq!(books_panel_width(&s, 20), 12, "floor for tiny sizes");
}

#[test]
fn bookmark_target_reads_the_selected_verse() {
    let mut s = state_at(0, 1, 0);
    s.verse_list.select(Some(1));
    let (translation, book, chapter, verse, text) = s.bookmark_target().unwrap();
    assert_eq!(translation, "KJV");
    assert_eq!(book, "Genesis");
    assert_eq!(chapter, 1);
    assert_eq!(verse, 2);
    assert_eq!(text, "stub 2");
}

#[test]
fn bookmark_target_is_none_without_a_loaded_chapter() {
    let s = BrowserState::new();
    assert!(s.bookmark_target().is_none());
}

#[test]
fn current_verse_is_bookmarked_reflects_the_bookmarks_list() {
    let mut s = state_at(0, 1, 0);
    s.verse_list.select(Some(0));
    assert!(!s.current_verse_is_bookmarked());
    s.bookmarks.push(bookmark("KJV", "Genesis", 1, 1, "stub 1", None));
    assert!(s.current_verse_is_bookmarked());
    s.verse_list.select(Some(1));
    assert!(!s.current_verse_is_bookmarked());
}

#[test]
fn selected_bookmark_tracks_the_bookmark_list_cursor() {
    let mut s = state_at(0, 1, 0);
    s.bookmarks.push(bookmark("KJV", "Genesis", 1, 1, "stub 1", None));
    s.bookmarks.push(bookmark("KJV", "Genesis", 1, 2, "stub 2", None));
    assert!(s.selected_bookmark().is_none(), "no cursor while bookmark_mode is Off");
    let mut list_state = ListState::default();
    list_state.select(Some(1));
    s.bookmark_mode = BookmarkMode::Active { list_state };
    assert_eq!(s.selected_bookmark().unwrap().verse, 2);
}

#[test]
fn jump_to_result_closes_the_bookmark_list() {
    let mut s = state_at(0, 1, 0);
    let mut list_state = ListState::default();
    list_state.select(Some(0));
    s.bookmark_mode = BookmarkMode::Active { list_state };
    s.jump_to_result("Exodus", 2, 3);
    assert_eq!(s.bookmark_mode, BookmarkMode::Off);
}

#[test]
fn open_note_editor_starts_blank_when_no_note_exists() {
    let mut s = state_at(0, 1, 0);
    s.open_note_editor("KJV".to_string(), "Genesis".to_string(), 1, 1, "stub 1".to_string());
    let editor = s.note_editor.as_ref().unwrap();
    assert_eq!(editor.draft, "");
    assert_eq!(editor.verse, 1);
}

#[test]
fn open_note_editor_prefills_an_existing_note() {
    let mut s = state_at(0, 1, 0);
    s.bookmarks.push(bookmark("KJV", "Genesis", 1, 1, "stub 1", Some("Key verse".to_string())));
    s.open_note_editor("KJV".to_string(), "Genesis".to_string(), 1, 1, "stub 1".to_string());
    assert_eq!(s.note_editor.as_ref().unwrap().draft, "Key verse");
}

#[test]
fn open_note_editor_is_case_insensitive_on_book_and_translation() {
    let mut s = state_at(0, 1, 0);
    s.bookmarks.push(bookmark("KJV", "Genesis", 1, 1, "stub 1", Some("Key verse".to_string())));
    s.open_note_editor("kjv".to_string(), "genesis".to_string(), 1, 1, "stub 1".to_string());
    assert_eq!(s.note_editor.as_ref().unwrap().draft, "Key verse");
}

#[test]
fn open_compare_picker_defaults_to_primary_translation() {
    let mut s = state_at(0, 1, 0);
    s.translation = "NIV".to_string();
    s.open_compare_picker();
    let idx = s.compare_translation_list.selected().unwrap();
    assert_eq!(translations()[idx].code, "NIV");
}

#[test]
fn pick_compare_translation_activates_compare_and_forces_verse_per_line() {
    let mut s = state_at(0, 1, 0);
    s.view_mode = ViewMode::Paragraph;
    s.open_compare_picker();
    s.compare_translation_list.select(Some(index_of_code("ESV")));
    s.pick_compare_translation();
    assert_eq!(s.compare_translation.as_deref(), Some("ESV"));
    assert!(!s.compare_picker);
    assert_eq!(s.view_mode, ViewMode::VersePerLine);
}

#[test]
fn close_compare_clears_all_compare_state() {
    let mut s = state_at(0, 1, 0);
    s.open_compare_picker();
    s.pick_compare_translation();
    assert!(s.compare_translation.is_some());
    s.close_compare();
    assert!(s.compare_translation.is_none());
    assert!(s.compare_chapter.is_none());
    assert!(!s.compare_loading);
    assert!(s.compare_error.is_none());
    assert!(!s.compare_picker);
}

#[test]
fn reopening_compare_picker_defaults_to_last_used_translation() {
    let mut s = state_at(0, 1, 0);
    s.translation = "KJV".to_string();
    s.open_compare_picker();
    s.compare_translation_list.select(Some(index_of_code("ESV")));
    s.pick_compare_translation();
    s.close_compare();
    assert!(s.compare_translation.is_none(), "compare mode is off");
    s.open_compare_picker();
    let idx = s.compare_translation_list.selected().unwrap();
    assert_eq!(translations()[idx].code, "ESV");
}

#[test]
fn last_compare_translation_round_trips_through_snapshot_and_restore() {
    let mut s = state_at(0, 1, 0);
    s.open_compare_picker();
    s.compare_translation_list.select(Some(index_of_code("NIV")));
    s.pick_compare_translation();
    s.close_compare();
    let saved = s.snapshot();
    assert_eq!(saved.last_compare_translation.as_deref(), Some("NIV"));
    let mut fresh = BrowserState::new();
    fresh.restore(&saved);
    assert_eq!(fresh.last_compare_translation.as_deref(), Some("NIV"));
    fresh.open_compare_picker();
    let idx = fresh.compare_translation_list.selected().unwrap();
    assert_eq!(translations()[idx].code, "NIV");
}

// ---------------------------------------------------------------------------
// Further behaviour
// ---------------------------------------------------------------------------

#[test]
fn restore_clamps_book_chapter_and_maps_codes() {
    let mut s = BrowserState::new();
    let saved = christ::types::SessionState {
        book_index: 500,
        chapter: 99,
        scroll_position: 7,
        active_panel: 9,
        translation: String::new(),
        view_mode: 1,
        selected_verse: 4,
        last_compare_translation: None,
    };
    s.restore(&saved);
    assert_eq!(s.selected_book_idx, BOOK_COUNT - 1);
    assert_eq!(s.selected_chapter, 22, "Revelation has 22 chapters");
    assert_eq!(s.chapter_list.selected(), Some(21));
    assert_eq!(s.scripture_scroll, 7);
    assert_eq!(s.active_panel, Panel::Scripture);
    assert_eq!(s.translation, "KJV", "an empty saved translation keeps the current one");
    assert_eq!(s.view_mode, ViewMode::Paragraph);
    assert_eq!(s.verse_list.selected(), Some(4));
}

#[test]
fn restore_lifts_chapter_zero_to_one() {
    let mut s = BrowserState::new();
    let mut saved = s.snapshot();
    saved.chapter = 0;
    saved.active_panel = 1;
    s.restore(&saved);
    assert_eq!(s.selected_chapter, 1);
    assert_eq!(s.active_panel, Panel::Chapters);
}

#[test]
fn snapshot_records_panel_and_mode_codes() {
    let mut s = state_at(3, 2, 5);
    s.view_mode = ViewMode::Paragraph;
    s.verse_list.select(Some(2));
    let saved = s.snapshot();
    assert_eq!(saved.book_index, 3);
    assert_eq!(saved.chapter, 2);
    assert_eq!(saved.scroll_position, 5);
    assert_eq!(saved.active_panel, 2);
    assert_eq!(saved.view_mode, 1);
    assert_eq!(saved.selected_verse, 2);
}

#[test]
fn translation_picker_opens_on_current_and_reports_change() {
    let mut s = BrowserState::new();
    s.translation = "esv".to_string();
    s.open_translation_picker();
    assert!(s.translation_picker);
    assert_eq!(s.translation_list.selected(), Some(index_of_code("ESV")));
    assert!(!s.pick_translation(), "same code in another case is no change");
    assert_eq!(s.translation, "ESV");
    assert!(!s.translation_picker);
    s.open_translation_picker();
    s.translation_list.select(Some(index_of_code("NIV")));
    assert!(s.pick_translation());
    assert_eq!(s.translation, "NIV");
}

#[test]
fn unknown_translation_opens_picker_on_first_entry() {
    let mut s = BrowserState::new();
    s.translation = "ZZZ".to_string();
    s.open_translation_picker();
    assert_eq!(s.translation_list.selected(), Some(0));
}

#[test]
fn book_display_name_prefers_non_empty_localized_names() {
    let mut s = BrowserState::new();
    s.localized_books = vec!["Буття".to_string(), String::new()];
    assert_eq!(s.book_display_name(0), "Буття");
    assert_eq!(s.book_display_name(1), "Exodus");
    assert_eq!(s.book_display_name(2), "Leviticus");
}

#[test]
fn copy_label_uses_localized_name_of_loaded_book() {
    let mut s = state_at(0, 1, 0);
    s.localized_books = vec!["Буття".to_string()];
    let (_, label) = s.copy_payload().unwrap();
    assert_eq!(label, "Буття 1:1");
}

#[test]
fn copy_payload_is_none_without_verses() {
    let mut s = state_at(0, 1, 0);
    s.current_chapter.as_mut().unwrap().verses.clear();
    assert!(s.copy_payload().is_none());
    assert!(BrowserState::new().copy_payload().is_none());
}

#[test]
fn in_visual_range_needs_an_anchor() {
    let mut s = state_at(0, 1, 0);
    s.verse_list.select(Some(1));
    assert!(!s.in_visual_range(1));
    s.visual_anchor = Some(2);
    assert!(!s.in_visual_range(0));
    assert!(s.in_visual_range(1));
    assert!(s.in_visual_range(2));
    assert_eq!(s.selection_bounds(), (1, 2));
}

#[test]
fn selected_verse_is_clamped_to_the_chapter() {
    let mut s = state_at(0, 1, 0);
    s.verse_list.select(Some(10));
    assert_eq!(s.selected_verse_idx(), 2);
    assert_eq!(s.verse_count(), 3);
}

#[test]
fn move_down_stops_at_last_book_and_chapter() {
    let mut s = state_at(BOOK_COUNT - 1, 22, 0);
    s.active_panel = Panel::Books;
    s.move_down();
    assert_eq!(s.selected_book_idx, BOOK_COUNT - 1);
    assert!(s.preview_pending.is_none());
    s.active_panel = Panel::Chapters;
    s.move_down();
    assert_eq!(s.chapter_list.selected(), Some(21));
    assert!(s.preview_pending.is_none());
}

#[test]
fn move_up_in_paragraph_mode_stops_at_the_top() {
    let mut s = state_at(0, 1, 1);
    s.view_mode = ViewMode::Paragraph;
    s.highlight_verse = Some(2);
    s.move_up();
    assert_eq!(s.scripture_scroll, 0);
    assert!(s.highlight_verse.is_none());
    s.move_up();
    assert_eq!(s.scripture_scroll, 0);
}

#[test]
fn jump_to_unknown_book_changes_nothing() {
    let mut s = state_at(0, 1, 9);
    s.jump_to_result("Maccabees", 1, 1);
    assert_eq!(s.selected_book_idx, 0);
    assert_eq!(s.scripture_scroll, 9);
    assert!(s.highlight_verse.is_none());
}

#[test]
fn jump_to_result_matches_book_ignoring_case() {
    let mut s = state_at(0, 1, 0);
    s.jump_to_result("revelation", 22, 21);
    assert_eq!(s.selected_book_idx, BOOK_COUNT - 1);
    assert_eq!(s.active_panel, Panel::Scripture);
    assert!(s.pending_paragraph_scroll);
    assert_eq!(s.verse_list.selected(), Some(20), "verse not loaded yet: number - 1");
}

#[test]
fn flash_records_the_message() {
    let mut s = BrowserState::new();
    s.flash("Copied".to_string());
    assert_eq!(s.copy_flash.as_ref().unwrap().0, "Copied");
}

#[test]
fn preview_is_not_due_when_not_armed() {
    let s = BrowserState::new();
    assert!(!s.preview_due(true));
    assert!(christ::browser::preview_due_after(16, true));
    assert!(!christ::browser::preview_due_after(15, true));
    assert!(!christ::browser::preview_due_after(149, false));
    assert!(christ::browser::preview_due_after(150, false));
}

#[test]
fn bookmark_lookup_ignores_ascii_case() {
    let mut s = state_at(0, 1, 0);
    s.bookmarks.push(bookmark("kjv", "GENESIS", 1, 1, "stub 1", None));
    assert!(s.current_verse_is_bookmarked());
}

#[test]
fn selected_search_result_follows_the_cursor() {
    let mut s = BrowserState::new();
    assert!(s.selected_search_result().is_none());
    let r = christ::types::SearchResult {
        book: "John".to_string(),
        chapter: 11,
        verse: 35,
        text: "Jesus wept.".to_string(),
        translation: "KJV".to_string(),
    };
    let mut list_state = ListState::default();
    list_state.select(Some(0));
    s.search = christ::browser::SearchMode::Active { query: "wept".to_string(), results: vec![r], list_state };
    assert_eq!(s.selected_search_result().unwrap().verse, 35);
    if let christ::browser::SearchMode::Active { list_state, .. } = &mut s.search {
        list_state.select(Some(1));
    }
    assert!(s.selected_search_result().is_none());
}

#[test]
fn list_state_select_none_scrolls_to_top() {
    let mut l = ListState::default();
    l.select(Some(5));
    l.set_offset(3);
    l.select(Some(6));
    assert_eq!(l.offset(), 3);
    l.select(None);
    assert_eq!(l.offset(), 0);
    assert_eq!(l.selected(), None);
}

#[test]
fn scripture_title_names_the_loaded_chapter() {
    assert_eq!(BrowserState::new().scripture_title(), " Scripture ");
    let mut s = state_at(1, 20, 0);
    assert_eq!(s.scripture_title(), " Exodus 20 ");
    s.localized_books = vec![String::new(), "Вихід".to_string()];
    assert_eq!(s.scripture_title(), " Вихід 20 ");
}
