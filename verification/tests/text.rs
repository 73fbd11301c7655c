use flutter_cli::text::{is_blank, is_whitespace_char, trim};

#[test]
fn white_space_is_what_the_standard_library_calls_so() {
    let mut code: u32 = 0;
    let mut white = 0;
    while code <= 0x10FFFF {
        if let Some(c) = char::from_u32(code) {
            assert_eq!(is_whitespace_char(c), c.is_whitespace(), "U+{:04X}", code);
            if is_whitespace_char(c) {
                white += 1;
            }
        }
        code += 1;
    }
    assert_eq!(white, 25);
}

#[test]
fn white_space_on_chosen_characters() {
    for c in [' ', '\t', '\n', '\r', '\u{0B}', '\u{0C}', '\u{85}', '\u{A0}', '\u{2003}', '\u{3000}'] {
        assert!(is_whitespace_char(c));
    }
    for c in ['a', '0', '_', '\u{200B}', '\u{180E}', '\u{8}', '\u{E}', '越'] {
        assert!(!is_whitespace_char(c));
    }
}

#[test]
fn trim_cuts_both_ends_and_nothing_else() {
    assert_eq!(trim("  nvim  "), "nvim");
    assert_eq!(trim("\tcode --wait\n"), "code --wait");
    assert_eq!(trim("subl"), "subl");
    assert_eq!(trim(""), "");
    assert_eq!(trim("   "), "");
    assert_eq!(trim(" \u{3000}é ö\u{A0}"), "é ö");
    assert_eq!(trim("x "), "x");
    assert_eq!(trim(" x"), "x");
}

#[test]
fn trim_agrees_with_the_standard_library() {
    let samples = [
        "",
        " ",
        "a",
        " a",
        "a ",
        " a b ",
        "\r\n\tatom\u{2028}",
        "🖥️  nvim ",
        "\u{1680}\u{2000}\u{200A}x\u{202F}\u{205F}",
        "\u{200B} y \u{200B}",
    ];
    for sample in samples {
        assert_eq!(trim(sample), sample.trim());
        assert_eq!(trim(trim(sample)), trim(sample));
    }
}

#[test]
fn blank_texts() {
    assert!(is_blank(""));
    assert!(is_blank(" "));
    assert!(is_blank(" \t\r\n\u{A0}"));
    assert!(!is_blank(" . "));
    assert!(!is_blank("nvim"));
    assert!(!is_blank("\u{200B}"));
}
