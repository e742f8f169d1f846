//! Glyphs of the animation: the stylised form of each character of the
//! target text, and the random glyphs that particles flicker through.
use rand::Rng;
use rand::rngs::ThreadRng;
use vstd::prelude::*;

verus! {

/// rand's thread-local generator, `rand::rngs::ThreadRng`, carried through as
/// an opaque value.
#[verifier::external_type_specification]
#[verifier::external_body]
pub struct ExThreadRng(ThreadRng);

/// The stylised glyph that stands for character `c` in the settled text;
/// characters without a glyph of their own show as a boxed mark.
pub open spec fn glyph_of(c: char) -> char {
    match c {
        'A' => '⏃',
        'B' => 'ᗷ',
        'C' => 'ᑕ',
        'D' => 'ᗞ',
        'E' => '⟊',
        'F' => '⎎',
        'G' => 'Ꮆ',
        'H' => '⋔',
        'I' => '⟙',
        'J' => '⟗',
        'K' => 'Ꮶ',
        'L' => '⅃',
        'M' => '⏁',
        'N' => 'ᑎ',
        'O' => '〇',
        'P' => '℘',
        'Q' => 'Ϙ',
        'R' => '尺',
        'S' => '⟅',
        'T' => 'ナ',
        'U' => '⋒',
        'V' => '٧',
        'W' => '山',
        'X' => '〤',
        'Y' => 'Ꭹ',
        'Z' => 'ㄗ',
        'a' => 'ค',
        'b' => '♭',
        'c' => 'ᑢ',
        'd' => 'ↁ',
        'e' => '⋿',
        'f' => 'ℱ',
        'g' => 'Ꮆ',
        'h' => 'Ђ',
        'i' => '|',
        'j' => 'ן',
        'k' => 'к',
        'l' => '↳',
        'm' => '൩',
        'n' => 'ภ',
        'o' => '◯',
        'p' => '℘',
        'q' => 'զ',
        'r' => 'г',
        's' => '≠',
        't' => 'ፐ',
        'u' => '∪',
        'v' => '∨',
        'w' => 'พ',
        'x' => '⊗',
        'y' => 'у',
        'z' => 'չ',
        '0' => '⦿',
        '1' => '|',
        '2' => 'ᒿ',
        '3' => '≡',
        '4' => '⫓',
        '5' => '⫔',
        '6' => '⏀',
        '7' => '⫛',
        '8' => '∞',
        '9' => 'ⴤ',
        '.' => '•',
        '(' => '⦑',
        ')' => '⦒',
        '_' => '⎼',
        '!' => '⫝',
        '@' => '⊛',
        '#' => '⧇',
        '$' => '⧫',
        '%' => '⧮',
        '^' => '△',
        '&' => '⊼',
        '*' => '⋆',
        '-' => '⎯',
        '+' => '⊕',
        '=' => '⋕',
        '{' => '⦓',
        '}' => '⦔',
        '[' => '【',
        ']' => '】',
        '|' => '┃',
        '\\' => '⧹',
        ':' => '∴',
        ';' => '⁏',
        '\'' => '´',
        '"' => '‶',
        ',' => '⸴',
        '<' => '⫷',
        '>' => '⫸',
        '/' => '⧸',
        '?' => '⸮',
        '`' => '῾',
        '~' => '∿',
        _ => '⧠',
    }
}

/// The glyphs that particles show while they move around, in order.
pub open spec fn symbol_alphabet() -> Seq<char> {
    seq![
        '⏃', 'ᗷ', 'ᑕ', 'ᗞ', '⟊', '⎎', 'Ꮆ', '⋔', '⟙', '⟗',
        'Ꮶ', '⅃', '⏁', 'ᑎ', '〇', '℘', 'Ϙ', '尺', '⟅', 'ナ',
        '⋒', '٧', '山', '〤', 'Ꭹ', 'ㄗ', 'ค', '♭', 'ᑢ', 'ↁ',
        '⋿', 'ℱ', 'Ꮆ', 'Ђ', '|', 'ן', '⊗', '≠', 'ፐ', '∪',
        '∨', 'พ', 'у', '⊼', '⋕', '⦿', '|', 'ᒿ', '≡', '⫓',
        '⫔', '⏀', '⫛', '∞', 'ⴤ', '•', '⦑', '⦒', '⎼', '⊕',
        '⧠'
    ]
}

/// The symbol drawn for index `i`: the `i`-th glyph of the alphabet, or the
/// boxed mark when `i` lies past the last glyph.
pub open spec fn symbol_for_index(i: int) -> char {
    if 0 <= i < symbol_alphabet().len() {
        symbol_alphabet()[i]
    } else {
        '⧠'
    }
}

/// The number of UTF-8 bytes of the alphabet: the bound that indices are drawn below.
pub open spec fn symbol_draw_bound() -> nat {
    vstd::utf8::encode_utf8(symbol_alphabet()).len()
}

/// Each character takes one to four bytes in UTF-8.
proof fn lemma_utf8_length_bounds(chars: Seq<char>)
    ensures
        chars.len() <= vstd::utf8::encode_utf8(chars).len() <= 4 * chars.len(),
    decreases chars.len(),
{
    if chars.len() > 0 {
        lemma_utf8_length_bounds(chars.drop_first());
    }
}

/// The stylised glyph for a character of the target text.
pub fn map_char(c: char) -> (g: char)
    ensures
        g == glyph_of(c),
{
    match c {
        'A' => '⏃',
        'B' => 'ᗷ',
        'C' => 'ᑕ',
        'D' => 'ᗞ',
        'E' => '⟊',
        'F' => '⎎',
        'G' => 'Ꮆ',
        'H' => '⋔',
        'I' => '⟙',
        'J' => '⟗',
        'K' => 'Ꮶ',
        'L' => '⅃',
        'M' => '⏁',
        'N' => 'ᑎ',
        'O' => '〇',
        'P' => '℘',
        'Q' => 'Ϙ',
        'R' => '尺',
        'S' => '⟅',
        'T' => 'ナ',
        'U' => '⋒',
        'V' => '٧',
        'W' => '山',
        'X' => '〤',
        'Y' => 'Ꭹ',
        'Z' => 'ㄗ',
        'a' => 'ค',
        'b' => '♭',
        'c' => 'ᑢ',
        'd' => 'ↁ',
        'e' => '⋿',
        'f' => 'ℱ',
        'g' => 'Ꮆ',
        'h' => 'Ђ',
        'i' => '|',
        'j' => 'ן',
        'k' => 'к',
        'l' => '↳',
        'm' => '൩',
        'n' => 'ภ',
        'o' => '◯',
        'p' => '℘',
        'q' => 'զ',
        'r' => 'г',
        's' => '≠',
        't' => 'ፐ',
        'u' => '∪',
        'v' => '∨',
        'w' => 'พ',
        'x' => '⊗',
        'y' => 'у',
        'z' => 'չ',
        '0' => '⦿',
        '1' => '|',
        '2' => 'ᒿ',
        '3' => '≡',
        '4' => '⫓',
        '5' => '⫔',
        '6' => '⏀',
        '7' => '⫛',
        '8' => '∞',
        '9' => 'ⴤ',
        '.' => '•',
        '(' => '⦑',
        ')' => '⦒',
        '_' => '⎼',
        '!' => '⫝',
        '@' => '⊛',
        '#' => '⧇',
        '$' => '⧫',
        '%' => '⧮',
        '^' => '△',
        '&' => '⊼',
        '*' => '⋆',
        '-' => '⎯',
        '+' => '⊕',
        '=' => '⋕',
        '{' => '⦓',
        '}' => '⦔',
        '[' => '【',
        ']' => '】',
        '|' => '┃',
        '\\' => '⧹',
        ':' => '∴',
        ';' => '⁏',
        '\'' => '´',
        '"' => '‶',
        ',' => '⸴',
        '<' => '⫷',
        '>' => '⫸',
        '/' => '⧸',
        '?' => '⸮',
        '`' => '῾',
        '~' => '∿',
        _ => '⧠',
    }
}

fn symbol_text() -> (s: &'static str)
    ensures
        s@ == symbol_alphabet(),
{
    proof {
        reveal_strlit("⏃ᗷᑕᗞ⟊⎎Ꮆ⋔⟙⟗Ꮶ⅃⏁ᑎ〇℘Ϙ尺⟅ナ⋒٧山〤Ꭹㄗค♭ᑢↁ⋿ℱᎶЂ|ן⊗≠ፐ∪∨พу⊼⋕⦿|ᒿ≡⫓⫔⏀⫛∞ⴤ•⦑⦒⎼⊕⧠");
    }
    "⏃ᗷᑕᗞ⟊⎎Ꮆ⋔⟙⟗Ꮶ⅃⏁ᑎ〇℘Ϙ尺⟅ナ⋒٧山〤Ꭹㄗค♭ᑢↁ⋿ℱᎶЂ|ן⊗≠ፐ∪∨พу⊼⋕⦿|ᒿ≡⫓⫔⏀⫛∞ⴤ•⦑⦒⎼⊕⧠"
}

/// Calls `rand::Rng::random_range` on the range `0..upper`. rand documents that
/// the sample lies in the range, and that an empty range panics, which
/// `requires` rules out. Which value comes is left open.
#[verifier::external_body]
fn random_below(rng: &mut ThreadRng, upper: usize) -> (r: usize)
    requires
        upper > 0,
    ensures
        r < upper,
{
    rng.random_range(0..upper)
}

/// The symbol for a drawn index: the glyph at that position of the alphabet,
/// or the boxed mark past its end.
pub fn symbol_at(index: usize) -> (c: char)
    ensures
        c == symbol_for_index(index as int),
{
    let chars = symbol_text();
    if index < chars.unicode_len() {
        chars.get_char(index)
    } else {
        '⧠'
    }
}

/// A random glyph. The index is drawn below the alphabet's length in bytes,
/// not in characters, so the boxed mark (the last glyph) comes out most often.
pub fn random_symbol(rng: &mut ThreadRng) -> (c: char)
    ensures
        exists|i: int| 0 <= i < symbol_draw_bound() && c == symbol_for_index(i),
{
    let chars = symbol_text();
    proof {
        lemma_utf8_length_bounds(chars@);
    }
    let index = random_below(rng, chars.len());
    let c = symbol_at(index);
    assert(0 <= index < symbol_draw_bound() && c == symbol_for_index(index as int));
    c
}

/// Every drawn symbol is a glyph of the alphabet.
pub proof fn lemma_symbols_come_from_alphabet(i: int)
    ensures
        symbol_alphabet().contains(symbol_for_index(i)),
{
    if 0 <= i < symbol_alphabet().len() {
        assert(symbol_alphabet()[i] == symbol_for_index(i));
    } else {
        assert(symbol_alphabet()[60] == '⧠');
    }
}

} // verus!
