use dannesk::seed_entry::{seed_display, seed_input, seed_slots, seed_word_count, seed_words, SeedField};

fn strings(ws: &[&str]) -> Vec<String> {
    ws.iter().map(|w| w.to_string()).collect()
}

#[test]
fn words_split_on_any_white_space() {
    assert_eq!(seed_words("  abandon\tability\n able  "), strings(&["abandon", "ability", "able"]));
    assert_eq!(seed_words(""), Vec::<String>::new());
    assert_eq!(seed_words("   "), Vec::<String>::new());
    assert_eq!(seed_words("one"), strings(&["one"]));
    let text = "a b\u{3000}c\u{a0}d";
    let expected: Vec<String> = text.split_whitespace().map(|s| s.to_string()).collect();
    assert_eq!(seed_words(text), expected);
}

#[test]
fn slots_hold_the_first_twenty_four_words() {
    let words: Vec<String> = (0..30).map(|i| format!("w{i}")).collect();
    let slots = seed_slots(&words);
    assert_eq!(slots.len(), 24);
    assert_eq!(slots[23], "w23");
    assert_eq!(seed_word_count(&slots), 24);
    let slots = seed_slots(&strings(&["x", "y"]));
    assert_eq!(slots.len(), 24);
    assert_eq!(&slots[..3], &strings(&["x", "y", ""])[..]);
    assert_eq!(seed_word_count(&slots), 2);
}

#[test]
fn display_breaks_after_the_twelfth_slot() {
    let words: Vec<String> = (1..=14).map(|i| format!("w{i}")).collect();
    let slots = seed_slots(&words);
    assert_eq!(
        seed_display(&slots),
        "w1 w2 w3 w4 w5 w6 w7 w8 w9 w10 w11 w12\nw13 w14"
    );
    let mut gaps = seed_slots(&strings(&["a", "b", "c"]));
    gaps[1] = String::new();
    assert_eq!(seed_display(&gaps), "a c");
    assert_eq!(seed_display(&seed_slots(&Vec::new())), "");
}

#[test]
fn pasted_phrases_are_laid_out() {
    let phrase = "w1 w2 w3 w4 w5 w6   w7 w8 w9 w10 w11 w12 w13";
    let (slots, shown) = seed_input(phrase, "");
    assert_eq!(seed_word_count(&slots), 13);
    assert_eq!(shown, "w1 w2 w3 w4 w5 w6 w7 w8 w9 w10 w11 w12\nw13");
}

#[test]
fn typing_keeps_the_text_as_typed() {
    let (slots, shown) = seed_input("abandon  abi", "abandon  ab");
    assert_eq!(shown, "abandon  abi");
    assert_eq!(&slots[..2], &strings(&["abandon", "abi"])[..]);
    // Exactly ten bytes more is still typing; eleven is a paste.
    let (_, shown) = seed_input("a  b  c  d  ", "a ");
    assert_eq!(shown, "a  b  c  d  ");
    let (_, shown) = seed_input("a  b  c  d   ", "a ");
    assert_eq!(shown, "a b c d");
}

#[test]
fn typing_clears_the_error_line() {
    let mut field = SeedField::from_slots(seed_slots(&strings(&["a", "b"])), Some("Error: Invalid mnemonic".to_string()));
    assert_eq!(field.shown, "a b");
    assert_eq!(field.word_count(), 2);
    field.input("a b c");
    assert_eq!(field.error, None);
    assert_eq!(field.shown, "a b c");
    assert_eq!(field.word_count(), 3);
    assert_eq!(field.slots.len(), 24);
}
