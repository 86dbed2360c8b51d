use midicwkeyer::{decode, get_morse_table, SymbolAccumulator};

fn chars(s: &str) -> Vec<char> {
    s.chars().collect()
}

fn dec(s: &str) -> Option<String> {
    decode(&get_morse_table(), &chars(s)).map(|t| t.into_iter().collect())
}

#[test]
fn decode_exact_matches() {
    assert_eq!(dec("."), Some("E".to_string()));
    assert_eq!(dec("-"), Some("T".to_string()));
    assert_eq!(dec(".-"), Some("A".to_string()));
    assert_eq!(dec("...-.-"), Some("<SK>".to_string()));
    assert_eq!(dec(".-..."), Some("<AS>".to_string()));
    assert_eq!(dec("----"), Some("CH".to_string()));
    assert_eq!(dec(".-.-"), Some("Ä".to_string()));
    assert_eq!(dec("-----"), Some("0".to_string()));
    assert_eq!(dec("..--.."), Some("?".to_string()));
}

#[test]
fn decode_unlisted_is_none() {
    assert_eq!(dec("......"), None);
    assert_eq!(dec(""), None);
    assert_eq!(dec(".-.-.-.-"), None);
}

#[test]
fn table_has_every_entry_once() {
    let table = get_morse_table();
    assert_eq!(table.len(), 51);
    for (i, a) in table.iter().enumerate() {
        for b in table.iter().skip(i + 1) {
            assert_ne!(a.symbols, b.symbols);
        }
    }
}

#[test]
fn decode_match_replaces_marks() {
    let table = get_morse_table();
    let mut acc = SymbolAccumulator::new();
    acc.push_mark('.');
    acc.push_mark('-');
    let op = acc.decode_pending(&table);
    assert_eq!(op.erase, 2);
    assert_eq!(op.text, vec!['A']);
    assert_eq!(acc.pending, 1);
    assert_eq!(acc.sign, chars(".-"));
}

#[test]
fn decode_prosign_pending_is_token_length() {
    let table = get_morse_table();
    let mut acc = SymbolAccumulator::new();
    for m in "...-.-".chars() {
        acc.push_mark(m);
    }
    let op = acc.decode_pending(&table);
    assert_eq!(op.erase, 6);
    assert_eq!(op.text, chars("<SK>"));
    assert_eq!(acc.pending, 4);
}

#[test]
fn decode_no_match_shows_space() {
    let table = get_morse_table();
    let mut acc = SymbolAccumulator::new();
    for _ in 0..6 {
        acc.push_mark('.');
    }
    let op = acc.decode_pending(&table);
    assert_eq!(op.erase, 0);
    assert_eq!(op.text, vec![' ']);
    assert_eq!(acc.pending, 7);
}

#[test]
fn decode_empty_shows_nothing() {
    let table = get_morse_table();
    let mut acc = SymbolAccumulator::new();
    let op = acc.decode_pending(&table);
    assert_eq!(op.erase, 0);
    assert!(op.text.is_empty());
    assert_eq!(acc.pending, 0);
}

#[test]
fn idle_six_dots_ends_word() {
    let mut acc = SymbolAccumulator::new();
    acc.push_mark('.');
    acc.push_mark('-');
    let op = acc.after_poll(6 * 50 * 1000, 24, false, false);
    assert_eq!(op.erase, 0);
    assert_eq!(op.text, vec![' ']);
    assert!(acc.sign.is_empty());
    assert_eq!(acc.pending, 0);
}

#[test]
fn idle_two_dots_clears_without_space() {
    let mut acc = SymbolAccumulator::new();
    acc.push_mark('.');
    let op = acc.after_poll(2 * 50 * 1000, 24, false, false);
    assert_eq!(op.erase, 0);
    assert!(op.text.is_empty());
    assert!(acc.sign.is_empty());
    assert_eq!(acc.pending, 0);
}

#[test]
fn idle_quick_paddle_continues_character() {
    let table = get_morse_table();
    let mut acc = SymbolAccumulator::new();
    acc.push_mark('.');
    acc.push_mark('-');
    acc.decode_pending(&table);
    let op = acc.after_poll(50_000, 24, false, true);
    assert_eq!(op.erase, 1);
    assert_eq!(op.text, chars(".-"));
    assert_eq!(acc.sign, chars(".-"));
    assert_eq!(acc.pending, 2);
}

#[test]
fn idle_late_paddle_does_not_continue() {
    let mut acc = SymbolAccumulator::new();
    acc.push_mark('.');
    let op = acc.after_poll(50_001, 24, true, false);
    assert!(op.text.is_empty());
    assert!(acc.sign.is_empty());
}

#[test]
fn idle_five_dots_at_seven_wpm() {
    // five dots at 7 wpm last exactly 6 / 7 s, 857142.86 microseconds
    let mut acc = SymbolAccumulator::new();
    acc.push_mark('-');
    assert!(acc.after_poll(857_142, 7, false, false).text.is_empty());
    let mut acc = SymbolAccumulator::new();
    acc.push_mark('-');
    assert_eq!(acc.after_poll(857_143, 7, false, false).text, vec![' ']);
}
