# christ — verified core of a terminal Bible reader

`src/` is a Verus-verified library:

- `text` — character-level helpers: decimal numbers, `u32` parsing as
  `str::parse` does it, ASCII case folding, substring search, and the two
  truncation rules used for list rows and book names.
- `books` — the canonical table of the 66 books and their chapter counts.
- `translations` — the translation catalogue shown by the pickers.
- `types` — verses, chapters, search hits, bookmarks and the saved session.
- `kjv` — the bundled King James text: verse, chapter and range lookups,
  full-text search in canonical order, and the seeded random verse.
- `bookmarks` — which saved verse a reference names.
- `browser` — the browser's state machine: panels, lists, verse cursor,
  copy range and clipboard text, search and bookmark modes, note editor,
  side-by-side comparison, session save and restore.
- `layout` — what the screen is drawn from: panel width, main view, list
  windows, result rows and query highlight, picker rows, scroll clamps,
  verse row styles and the verse layout cache.
- `laws` — properties proved over the specifications: search is
  case-insensitive, in canonical order and only returns matching verses,
  and a longer query finds a subsequence of a shorter one's hits; a range
  is its chapter filtered by number and a verse lookup finds the first
  verse with its number; a seeded pick is found again where numbering is
  unique; session restore returns what was saved; navigation keeps or
  resets the reading position as it should; list windows show their
  selection; laying a chapter out twice is laying it out once.
- `clock` — the few clock readings, opaque to the proofs.

`app/` holds the unverified edges: parsing the bundled JSON with serde,
the lazily loaded text, the download handle shared with a caching thread,
and ratatui widgets built from the library's decisions.
