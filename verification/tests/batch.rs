//! The highlight batcher: window growth, flush points, the trailing partial
//! chunk, and that no row is dropped or duplicated.

use hli::indexer::{chunk_rows, BASE_WINDOW, MAX_CHARS};

fn row(ch: char, len: usize) -> String {
    std::iter::repeat(ch).take(len).collect()
}

#[test]
fn short_rows_make_one_trailing_chunk() {
    // Short rows never exhaust the budget, so the window keeps widening and
    // everything lands in one final partial chunk.
    let rows = vec!["a".to_string(), "b".to_string(), "c".to_string(), "d".to_string()];
    let chunks = chunk_rows(&rows);
    assert_eq!(chunks, vec!["a\nb\nc\nd\n".to_string()]);
}

#[test]
fn empty_rows_make_no_chunks() {
    let rows: Vec<String> = Vec::new();
    let chunks = chunk_rows(&rows);
    assert!(chunks.is_empty());
}

#[test]
fn budget_bounds_each_chunk() {
    // Rows of 100 characters: the window widens while the accumulated text
    // (with one newline per row) is under 2000 characters, so the first
    // chunk flushes after 20 rows and the 5 leftovers form the final chunk.
    assert_eq!(BASE_WINDOW, 3);
    assert_eq!(MAX_CHARS, 2000);
    let rows: Vec<String> = (0..25).map(|_| row('x', 100)).collect();
    let chunks = chunk_rows(&rows);
    assert_eq!(chunks.len(), 2);
    let first: String = rows[..20].iter().map(|r| format!("{}\n", r)).collect();
    let second: String = rows[20..].iter().map(|r| format!("{}\n", r)).collect();
    assert_eq!(chunks[0], first);
    assert_eq!(chunks[1], second);
}

#[test]
fn huge_row_flushes_at_base_window() {
    // One oversized row blows the budget at once: the window never widens,
    // so the chunk flushes at the base window of 3 rows.
    let rows = vec![row('y', 5000), row('a', 1), row('b', 1), row('c', 1), row('d', 1)];
    let chunks = chunk_rows(&rows);
    assert_eq!(chunks.len(), 2);
    assert_eq!(chunks[0], format!("{}\na\nb\n", row('y', 5000)));
    assert_eq!(chunks[1], "c\nd\n".to_string());
}

#[test]
fn chunks_cover_all_rows_in_order() {
    // Concatenating every chunk gives back every row, in order, each with
    // its newline: nothing dropped, nothing duplicated.
    let rows: Vec<String> = (0..137).map(|i| row('z', (i * 37) % 300 + 1)).collect();
    let chunks = chunk_rows(&rows);
    let glued: String = chunks.concat();
    let expected: String = rows.iter().map(|r| format!("{}\n", r)).collect();
    assert_eq!(glued, expected);
}

#[test]
fn non_final_chunks_hold_at_least_the_base_window() {
    let rows: Vec<String> = (0..101).map(|_| row('q', 700)).collect();
    let chunks = chunk_rows(&rows);
    assert!(chunks.len() > 1);
    for chunk in &chunks[..chunks.len() - 1] {
        let row_count = chunk.matches('\n').count();
        assert!(row_count >= 3, "a non-final chunk held only {} rows", row_count);
    }
}

#[test]
fn rerun_gives_identical_chunks() {
    let rows: Vec<String> = (0..50).map(|i| row('m', (i * 13) % 250 + 1)).collect();
    let first = chunk_rows(&rows);
    let second = chunk_rows(&rows);
    assert_eq!(first, second);
}
