use audio_fetch::util::{keeps_char, sanitize_filename};

#[test]
fn keeps_letters_digits_space_hyphen_underscore() {
    assert_eq!(sanitize_filename("My Song - live_2024"), "My Song - live_2024");
}

#[test]
fn drops_everything_else() {
    assert_eq!(sanitize_filename("a/b\\c:d*e?f\"g<h>i|j"), "abcdefghij");
    assert_eq!(sanitize_filename("Motörhead – Ace (of) Spades!"), "Motrhead  Ace of Spades");
    assert_eq!(sanitize_filename("日本語"), "");
    assert_eq!(sanitize_filename(""), "");
    assert_eq!(sanitize_filename("tab\there\nnewline"), "tabherenewline");
}

#[test]
fn sanitizing_twice_changes_nothing() {
    let once = sanitize_filename("  What? A *Title*.mp3 ");
    assert_eq!(once, "  What A Titlemp3 ");
    assert_eq!(sanitize_filename(&once), once);
}

#[test]
fn character_classes_have_exact_borders() {
    for c in ['a', 'z', 'A', 'Z', '0', '9', ' ', '-', '_'] {
        assert!(keeps_char(c));
    }
    for c in ['`', '{', '@', '[', '/', ':', '.', '\u{e9}', '\u{ff10}'] {
        assert!(!keeps_char(c));
    }
}
