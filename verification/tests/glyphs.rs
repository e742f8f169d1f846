use unwrap_rs::glyphs::{map_char, random_symbol, symbol_at};

const ALPHABET: &str = "⏃ᗷᑕᗞ⟊⎎Ꮆ⋔⟙⟗Ꮶ⅃⏁ᑎ〇℘Ϙ尺⟅ナ⋒٧山〤Ꭹㄗค♭ᑢↁ⋿ℱᎶЂ|ן⊗≠ፐ∪∨พу⊼⋕⦿|ᒿ≡⫓⫔⏀⫛∞ⴤ•⦑⦒⎼⊕⧠";

#[test]
fn target_text_maps_to_glyphs() {
    let mapped: String = ".unwrap()".chars().map(map_char).collect();
    assert_eq!(mapped, "•∪ภพгค℘⦑⦒");
}

#[test]
fn letters_digits_and_punctuation_map() {
    assert_eq!(map_char('A'), '⏃');
    assert_eq!(map_char('Z'), 'ㄗ');
    assert_eq!(map_char('z'), 'չ');
    assert_eq!(map_char('0'), '⦿');
    assert_eq!(map_char('9'), 'ⴤ');
    assert_eq!(map_char('\\'), '⧹');
    assert_eq!(map_char('\''), '´');
    assert_eq!(map_char('~'), '∿');
}

#[test]
fn some_characters_share_a_glyph() {
    assert_eq!(map_char('g'), map_char('G'));
    assert_eq!(map_char('i'), map_char('1'));
    assert_eq!(map_char('p'), map_char('P'));
}

#[test]
fn unmapped_characters_get_the_boxed_mark() {
    assert_eq!(map_char(' '), '⧠');
    assert_eq!(map_char('é'), '⧠');
    assert_eq!(map_char('⧠'), '⧠');
}

#[test]
fn symbol_at_reads_the_alphabet_by_character() {
    let chars: Vec<char> = ALPHABET.chars().collect();
    assert_eq!(chars.len(), 61);
    for (i, c) in chars.iter().enumerate() {
        assert_eq!(symbol_at(i), *c);
    }
    assert_eq!(symbol_at(0), '⏃');
    assert_eq!(symbol_at(34), '|');
}

#[test]
fn symbol_at_past_the_end_is_the_boxed_mark() {
    assert_eq!(symbol_at(61), '⧠');
    assert_eq!(symbol_at(173), '⧠');
    assert_eq!(symbol_at(usize::MAX), '⧠');
}

#[test]
fn random_symbols_come_from_the_alphabet_and_vary() {
    let mut rng = rand::rng();
    let mut other_than_box = 0;
    for _ in 0..400 {
        let c = random_symbol(&mut rng);
        assert!(ALPHABET.contains(c));
        if c != '⧠' {
            other_than_box += 1;
        }
    }
    assert!(other_than_box > 0);
}
